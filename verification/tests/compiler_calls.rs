use saxaboom::calls::NativeCall;
use saxaboom::handles::BinaryOutcome;
use saxaboom::handles::IRMetalLibBinary;
use saxaboom::handles::MetalIrConverter;
use saxaboom::handles::ReflectionOutcome;
use saxaboom::layout::IRInputElementDescriptor1;
use saxaboom::layout::IRInputLayoutDescriptor1;
use saxaboom::layout::IRVersionedInputLayoutDescriptor;
use saxaboom::records::IRRuntimePrimitiveType;
use saxaboom::records::IRRuntimeResourceType;
use saxaboom::records::IRRuntimeTessellatorOutputPrimitive;
use saxaboom::table::FunctionTable;
use saxaboom::table::SYMBOL_COUNT;

fn converter() -> MetalIrConverter {
    let resolved = (0..SYMBOL_COUNT as u64).map(|i| 0x1000 + i).collect();
    MetalIrConverter::new(FunctionTable::load(resolved).expect("complete table"))
}

#[test]
fn setters_carry_their_arguments() {
    let conv = converter();
    let mut c = conv.create_compiler(0x11);

    assert_eq!(
        c.set_validation_flags(0b101),
        NativeCall::CompilerSetValidationFlags { compiler: 0x11, flags: 0b101 }
    );
    assert_eq!(
        c.set_stage_in_generation_mode(2),
        NativeCall::CompilerSetStageInGenerationMode { compiler: 0x11, mode: 2 }
    );
    assert_eq!(
        c.set_hitgroup_type(1),
        NativeCall::CompilerSetHitgroupType { compiler: 0x11, hit_group_type: 1 }
    );
    assert_eq!(
        c.set_compatibility_flags(7),
        NativeCall::CompilerSetCompatibilityFlags { compiler: 0x11, flags: 7 }
    );
    assert_eq!(
        c.set_input_topology(3),
        NativeCall::CompilerSetInputTopology { compiler: 0x11, input_topology: 3 }
    );
    assert_eq!(
        c.enable_geometry_and_tessellation_emulation(true),
        NativeCall::CompilerEnableGeometryAndTessellationEmulation { compiler: 0x11, enable: true }
    );
    assert_eq!(
        c.set_dual_source_blending_configuration(9),
        NativeCall::CompilerSetDualSourceBlendingConfiguration { compiler: 0x11, configuration: 9 }
    );
    assert_eq!(
        c.set_depth_feedback_configuration(4),
        NativeCall::CompilerSetDepthFeedbackConfiguration { compiler: 0x11, configuration: 4 }
    );
    assert_eq!(
        c.set_int_rt_mask(0xA5),
        NativeCall::CompilerSetIntRtMask { compiler: 0x11, mask: 0xA5 }
    );
    assert_eq!(
        c.set_entry_point_name(&b"entry".to_vec()),
        NativeCall::CompilerSetEntryPointName { compiler: 0x11, name: b"entry".to_vec() }
    );
    assert_eq!(
        c.set_minimum_gpu_family(4),
        NativeCall::CompilerSetMinimumGpuFamily { compiler: 0x11, family: 4 }
    );
    assert_eq!(
        c.ignore_root_signature(true),
        NativeCall::CompilerIgnoreRootSignature { compiler: 0x11, ignore: true }
    );
    assert_eq!(
        c.ignore_debug_information(false),
        NativeCall::CompilerIgnoreDebugInformation { compiler: 0x11, ignore: false }
    );
    assert_eq!(
        c.set_minimum_deployment_target(2, &b"14.0".to_vec()),
        NativeCall::CompilerSetMinimumDeploymentTarget {
            compiler: 0x11,
            operating_system: 2,
            version: b"14.0".to_vec(),
        }
    );
    assert_eq!(
        c.set_ray_tracing_pipeline_arguments(8, 1, 2, 3, 4, 5, 6, 7, 0),
        NativeCall::CompilerSetRayTracingPipelineArguments {
            compiler: 0x11,
            max_attribute_size_in_bytes: 8,
            raytracing_pipeline_flags: 1,
            closest_hit_intrinsics_mask: 2,
            miss_intrinsics_mask: 3,
            any_hit_intrinsics_mask: 4,
            callable_args: 5,
            max_recursive_depth: 6,
            ray_generation_compilation_mode: 7,
            intersection_function_compilation_mode: 0,
        }
    );
}

#[test]
fn root_signature_setters_name_both_handles() {
    let conv = converter();
    let mut c = conv.create_compiler(0x11);
    let rs = conv
        .create_root_signature_from_descriptor(0x31, None)
        .expect("no error was handed in");
    assert_eq!(
        c.set_global_root_signature(&rs),
        NativeCall::CompilerSetGlobalRootSignature { compiler: 0x11, root_signature: 0x31 }
    );
    assert_eq!(
        c.set_local_root_signature(&rs),
        NativeCall::CompilerSetLocalRootSignature { compiler: 0x11, root_signature: 0x31 }
    );
}

#[test]
fn synthesize_calls_and_outcomes() {
    let conv = converter();
    let mut c = conv.create_compiler(0x11);

    assert_eq!(IRMetalLibBinary::create_call(), NativeCall::MetalLibBinaryCreate);
    assert_eq!(
        c.synthesize_indirect_ray_dispatch_function_call(0x41),
        NativeCall::MetalLibSynthesizeIndirectRayDispatchFunction { compiler: 0x11, binary: 0x41 }
    );
    match c.synthesize_indirect_ray_dispatch_function(0x41, false) {
        BinaryOutcome::Dispose(d) => {
            assert_eq!(d, NativeCall::MetalLibBinaryDestroy { binary: 0x41 })
        }
        BinaryOutcome::Filled(_) => panic!("was not synthesized"),
    }
    assert_eq!(
        c.synthesize_indirect_intersection_function_call(0x42),
        NativeCall::MetalLibSynthesizeIndirectIntersectionFunction { compiler: 0x11, binary: 0x42 }
    );
    match c.synthesize_indirect_intersection_function(0x42, true) {
        BinaryOutcome::Filled(b) => drop(b.release()),
        BinaryOutcome::Dispose(_) => panic!("was synthesized"),
    }
}

#[test]
fn stage_in_synthesis_carries_the_layout() {
    let conv = converter();
    let mut c = conv.create_compiler(0x11);
    let obj = conv.create_object_from_dxil(0x21);
    let refl = match obj.reflection(0x51, true) {
        ReflectionOutcome::Filled(r) => r,
        ReflectionOutcome::Dispose(_) => panic!("was filled"),
    };
    let binary = match obj.metal_lib_binary(0x41, true) {
        BinaryOutcome::Filled(b) => b,
        BinaryOutcome::Dispose(_) => panic!("was filled"),
    };

    let element = IRInputElementDescriptor1 {
        SemanticIndex: 0,
        Format: 6,
        InputSlot: 0,
        AlignedByteOffset: 0,
        InputSlotClass: 0,
        InstanceDataStepRate: 0,
    };
    let layout = IRInputLayoutDescriptor1::new(vec![b"POSITION".to_vec()], vec![element]);
    assert_eq!(layout.num_elements(), 1);

    let call = c.synthesize_stage_in_function_call(&refl, layout.clone().versioned(), &binary);
    match call {
        NativeCall::MetalLibSynthesizeStageInFunction {
            compiler,
            reflection,
            layout: IRVersionedInputLayoutDescriptor::Descriptor1(l),
            binary: b,
        } => {
            assert_eq!(compiler, 0x11);
            assert_eq!(reflection, 0x51);
            assert_eq!(b, 0x41);
            assert_eq!(l, layout);
        }
        other => panic!("wrong call: {other:?}"),
    }
}

#[test]
fn gather_raytracing_intrinsics_call_carries_the_entry_point() {
    let conv = converter();
    let obj = conv.create_object_from_dxil(0x21);
    assert_eq!(
        obj.gather_raytracing_intrinsics_call(&b"rayGen".to_vec()),
        NativeCall::ObjectGatherRaytracingIntrinsics {
            object: 0x21,
            entry_point: b"rayGen".to_vec(),
        }
    );
    assert_eq!(obj.object_type_call(), NativeCall::ObjectGetType { object: 0x21 });
    assert_eq!(
        obj.metal_ir_shader_stage_call(),
        NativeCall::ObjectGetMetalIrShaderStage { object: 0x21 }
    );
}

#[test]
fn runtime_enum_codes_match_the_abi() {
    assert_eq!(IRRuntimeResourceType::SRV.code(), 0);
    assert_eq!(IRRuntimeResourceType::UAV.code(), 1);
    assert_eq!(IRRuntimeResourceType::CBV.code(), 2);
    assert_eq!(IRRuntimeResourceType::SMP.code(), 3);
    assert_eq!(IRRuntimeResourceType::Count.code(), 4);
    assert_eq!(IRRuntimePrimitiveType::Point.code(), 0);
    assert_eq!(IRRuntimePrimitiveType::Triangle.code(), 3);
    assert_eq!(IRRuntimePrimitiveType::TriangleWithAdj.code(), 6);
    assert_eq!(IRRuntimeTessellatorOutputPrimitive::Undefined.code(), 0);
    assert_eq!(IRRuntimeTessellatorOutputPrimitive::TriangleCCW.code(), 4);
}
