use saxaboom::calls::NativeCall;
use saxaboom::error::IRError;
use saxaboom::error::IRErrorCode;
use saxaboom::handles::BinaryOutcome;
use saxaboom::handles::MetalIrConverter;
use saxaboom::handles::ReflectionOutcome;
use saxaboom::reflection::IRCSInfo;
use saxaboom::rootsig::IRResourceLocation;
use saxaboom::rootsig::IRRootConstants;
use saxaboom::rootsig::IRRootParameter1;
use saxaboom::rootsig::IRRootParameterData;
use saxaboom::rootsig::IRRootSignatureDescriptor1;
use saxaboom::rootsig::IRStaticSamplerDescriptor;
use saxaboom::rootsig::IRVersionedRootSignatureDescriptor;
use saxaboom::table::FunctionTable;
use saxaboom::table::SYMBOL_COUNT;

fn converter() -> MetalIrConverter {
    let resolved = (0..SYMBOL_COUNT as u64).map(|i| 0x1000 + i).collect();
    MetalIrConverter::new(FunctionTable::load(resolved).expect("complete table"))
}

fn static_sampler(index: u32) -> IRStaticSamplerDescriptor {
    IRStaticSamplerDescriptor {
        Filter: 0,
        AddressU: 1,
        AddressV: 1,
        AddressW: 1,
        MipLODBiasBits: 0.0f32.to_bits(),
        MaxAnisotropy: 1,
        ComparisonFunc: 0,
        BorderColor: 0,
        MinLODBits: 0.0f32.to_bits(),
        MaxLODBits: 100000.0f32.to_bits(),
        ShaderRegister: index,
        RegisterSpace: 0,
        ShaderVisibility: 0,
    }
}

/// Raw bytecode that was never compiled has no output binary: the request
/// surfaces as an explicit absence with the container's destroy call, never
/// as an abort.
#[test]
fn binary_from_raw_bytecode_is_an_expected_absence() {
    let conv = converter();
    let dxil = vec![0x44u8, 0x58, 0x42, 0x43, 1, 2, 3];
    let call = conv.create_object_from_dxil_call(&dxil);
    match &call {
        NativeCall::ObjectCreateFromDxil { bytecode } => assert_eq!(bytecode, &dxil),
        other => panic!("wrong call: {other:?}"),
    }
    let obj = conv.create_object_from_dxil(0x21);

    // The shim would now create an empty container and ask for the binary;
    // on a raw-bytecode object the native side answers false.
    assert_eq!(obj.metal_lib_binary_call(8, 0x41), NativeCall::ObjectGetMetalLibBinary {
        object: 0x21,
        stage: 8,
        binary: 0x41,
    });
    match obj.metal_lib_binary(0x41, false) {
        BinaryOutcome::Dispose(c) => {
            assert_eq!(c, NativeCall::MetalLibBinaryDestroy { binary: 0x41 })
        }
        BinaryOutcome::Filled(_) => panic!("raw bytecode holds no compiled binary"),
    }
}

/// A root-signature descriptor with two 32-bit-constants parameters and
/// seven static samplers goes through creation and a location query whose
/// answers match the two parameters.
#[test]
fn root_signature_descriptor_roundtrip() {
    let conv = converter();
    let parameters = vec![
        IRRootParameter1 {
            ShaderVisibility: 0,
            data: IRRootParameterData::Constants(IRRootConstants {
                RegisterSpace: 0,
                ShaderRegister: 0,
                Num32BitValues: 7,
            }),
        },
        IRRootParameter1 {
            ShaderVisibility: 0,
            data: IRRootParameterData::Constants(IRRootConstants {
                RegisterSpace: 1,
                ShaderRegister: 0,
                Num32BitValues: 2,
            }),
        },
    ];
    let static_samplers: Vec<IRStaticSamplerDescriptor> = (0..7).map(static_sampler).collect();
    let desc = IRVersionedRootSignatureDescriptor::Descriptor1_1(IRRootSignatureDescriptor1 {
        Flags: 1,
        parameters: parameters.clone(),
        static_samplers: static_samplers.clone(),
    });

    let call = conv.create_root_signature_from_descriptor_call(desc);
    match &call {
        NativeCall::RootSignatureCreateFromDescriptor {
            descriptor: IRVersionedRootSignatureDescriptor::Descriptor1_1(d),
        } => {
            assert_eq!(d.parameters, parameters);
            assert_eq!(d.static_samplers.len(), 7);
            assert_eq!(d.Flags, 1);
        }
        other => panic!("wrong call: {other:?}"),
    }

    let rs = conv
        .create_root_signature_from_descriptor(0x31, None)
        .expect("the native side reported no error");

    // The shim reads back one location per parameter.
    let reported = vec![
        IRResourceLocation {
            resourceType: 2,
            space: 0,
            slot: 0,
            topLevelOffset: 0,
            sizeBytes: 28,
            resourceName: b"push_constants".to_vec(),
        },
        IRResourceLocation {
            resourceType: 2,
            space: 1,
            slot: 0,
            topLevelOffset: 28,
            sizeBytes: 8,
            resourceName: b"indirect_identifier".to_vec(),
        },
    ];
    let locations = rs
        .resource_locations(2, reported.clone())
        .expect("count and locations agree");
    assert!(!locations.is_empty());
    assert_eq!(locations, reported);
    assert_eq!(locations[0].space, 0);
    assert_eq!(locations[1].space, 1);
    assert_eq!(locations[0].slot, 0);
    assert_eq!(locations[1].slot, 0);

    // A count that disagrees with the read-back list is an
    // internal-consistency fault, surfaced as an explicit absence.
    assert!(rs.resource_locations(3, reported).is_none());
}

/// A failed root-signature creation surfaces the translated native error as
/// a typed failure.
#[test]
fn root_signature_failure_is_typed() {
    let conv = converter();
    let e = IRError::wrap(0x90, 2, b"unrecognized descriptor".to_vec()).expect("known code");
    match conv.create_root_signature_from_descriptor(0, Some(e)) {
        Err(err) => {
            assert_eq!(err.0.code(), IRErrorCode::UnrecognizedRootSignatureDescriptor);
            assert_eq!(err.0.payload().as_slice(), b"unrecognized descriptor");
            assert_eq!(err.0.release(), NativeCall::ErrorDestroy { error: 0x90 });
        }
        Ok(_) => panic!("an error was handed in"),
    }
}

/// Compile with entry point "main", extract the binary, and check the byte
/// count against the size query.
#[test]
fn compile_and_extract_binary() {
    let conv = converter();
    let mut compiler = conv.create_compiler(0x11);
    let obj = conv.create_object_from_dxil(0x21);

    let entry = b"main".to_vec();
    let call = compiler.alloc_compile_and_link_call(&entry, &obj);
    assert_eq!(call, NativeCall::CompilerAllocCompileAndLink {
        compiler: 0x11,
        entry_point: b"main".to_vec(),
        input: 0x21,
    });

    let compiled = compiler
        .alloc_compile_and_link(0x22, None)
        .expect("the native side reported no error");

    let binary = match compiled.metal_lib_binary(0x41, true) {
        BinaryOutcome::Filled(b) => b,
        BinaryOutcome::Dispose(_) => panic!("a compiled object has a binary"),
    };
    assert_eq!(binary.byte_code_size_call(), NativeCall::MetalLibGetBytecodeSize { binary: 0x41 });
    assert_eq!(binary.byte_code_call(), NativeCall::MetalLibGetBytecode { binary: 0x41 });

    let bytes = vec![7u8; 1536];
    let out = binary.byte_code(1536, bytes.clone()).expect("sizes agree");
    assert_eq!(out.len(), 1536);
    assert!(!out.is_empty());
    assert_eq!(out, bytes);

    // A mismatch between the size query and the copied bytes is an
    // internal-consistency fault, surfaced as an explicit absence.
    assert!(binary.byte_code(1535, bytes).is_none());
}

/// A failed compile surfaces the translated native error as a typed failure.
#[test]
fn compile_failure_is_typed() {
    let conv = converter();
    let compiler = conv.create_compiler(0x11);
    let e = IRError::wrap(0x91, 8, b"broken".to_vec()).expect("known code");
    match compiler.alloc_compile_and_link(0, Some(e)) {
        Err(err) => assert_eq!(err.0.code(), IRErrorCode::CompilationError),
        Ok(_) => panic!("an error was handed in"),
    }
}

/// Compute-stage reflection info exists on a compute object; on a fragment
/// object the same request is an expected absence.
#[test]
fn compute_info_some_fragment_info_none() {
    let conv = converter();
    let obj = conv.create_object_from_dxil(0x21);
    let refl = match obj.reflection(0x51, true) {
        ReflectionOutcome::Filled(r) => r,
        ReflectionOutcome::Dispose(_) => panic!("was filled"),
    };

    let info = refl
        .compute_info(1, Some((IRCSInfo { threadgroupSize: [8, 8, 1] }, 0x61)))
        .expect("a compute object has compute info");
    assert_eq!(info.version(), 1);
    assert_eq!(info.payload().threadgroupSize, [8, 8, 1]);
    let tg = info.payload().threadgroupSize;
    assert!(tg[0] > 0 && tg[1] > 0 && tg[2] > 0);

    // The native side reports no fragment record on this object.
    assert!(refl.fragment_info(1, None).is_none());
}
