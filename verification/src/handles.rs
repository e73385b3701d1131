//! The handle layer: one wrapper per native handle kind.
//!
//! Every wrapper holds a non-null raw handle and its own share of the
//! function table, never a back-reference to the object that created it, so
//! destruction order between a factory and its products is free. Methods
//! describe the native call to perform as a [`NativeCall`] value and
//! interpret the outcome the shim hands back; consuming `release` methods
//! name the one destroy call owed for the handle, so a handle can neither be
//! released twice nor through the wrong entry point.

use vstd::prelude::*;

use crate::calls::NativeCall;
use crate::error::IRError;
use crate::layout::IRVersionedInputLayoutDescriptor;
use crate::reflection::IRShaderReflection;
use crate::rootsig::IRResourceLocation;
use crate::rootsig::IRVersionedRootSignatureDescriptor;
use crate::table::FunctionTable;
use crate::table::SYMBOL_COUNT;

verus! {

/// Copy a byte buffer, so the caller's buffer is never retained.
fn copy_bytes(src: &Vec<u8>) -> (r: Vec<u8>)
    ensures
        r@ == src@,
{
    let mut r: Vec<u8> = Vec::new();
    let mut i: usize = 0;
    while i < src.len()
        invariant
            i <= src@.len(),
            r@ == src@.take(i as int),
        decreases src@.len() - i,
    {
        r.push(src[i]);
        proof {
            assert(r@ =~= src@.take(i + 1 as int));
        }
        i += 1;
    }
    proof {
        assert(r@ =~= src@);
    }
    r
}

/// A root signature could not be created; the wrapped native error says why.
#[derive(Debug)]
pub struct RootSignatureError(pub IRError);

/// A compile-and-link call failed; the wrapped native error says why.
#[derive(Debug)]
pub struct CompilerError(pub IRError);

/// Outcome of filling a fresh output binary: either the filled binary, or
/// the destroy call owed for the container that was created for the attempt.
#[derive(Debug)]
pub enum BinaryOutcome {
    /// The native side filled the binary.
    Filled(IRMetalLibBinary),
    /// The native side reported no bytecode: an expected absence. The
    /// container created for the attempt must still be destroyed by this
    /// call.
    Dispose(NativeCall),
}

/// Outcome of filling a fresh reflection: either the filled reflection, or
/// the destroy call owed for the container that was created for the attempt.
#[derive(Debug)]
pub enum ReflectionOutcome {
    /// The native side filled the reflection.
    Filled(IRShaderReflection),
    /// The native side reported no reflection: an expected absence. The
    /// container created for the attempt must still be destroyed by this
    /// call.
    Dispose(NativeCall),
}

/// The entry point into the library: a share of the function table, from
/// which compilers, objects and root signatures are constructed.
#[derive(Debug)]
pub struct MetalIrConverter {
    table: FunctionTable,
}

impl MetalIrConverter {
    /// The share of the function table.
    pub closed spec fn spec_table(&self) -> Seq<u64> {
        self.table.spec_addrs()
    }

    /// A converter always holds a whole table.
    pub open spec fn wf(&self) -> bool {
        self.spec_table().len() == SYMBOL_COUNT
    }

    /// Take a share of a loaded function table.
    pub fn new(table: FunctionTable) -> (r: Self)
        requires
            table.wf(),
        ensures
            r.wf(),
            r.spec_table() == table.spec_addrs(),
    {
        Self { table }
    }

    /// The call that creates a compiler instance.
    pub fn create_compiler_call(&self) -> (c: NativeCall)
        ensures
            c == NativeCall::CompilerCreate,
    {
        NativeCall::CompilerCreate
    }

    /// Wrap the compiler handle that call returned. Creation is infallible
    /// in the native ABI: the shim must treat a null handle as fatal and
    /// never hand it here.
    pub fn create_compiler(&self, raw: u64) -> (r: IRCompiler)
        requires
            raw != 0,
            self.wf(),
        ensures
            r.wf(),
            r.spec_raw() == raw,
            r.spec_table() == self.spec_table(),
    {
        IRCompiler { raw, table: self.table.clone() }
    }

    /// The call that creates an object from raw input bytecode. The bytes
    /// are copied into the call, so the caller's buffer is not retained.
    pub fn create_object_from_dxil_call(&self, bytecode: &Vec<u8>) -> (c: NativeCall)
        ensures
            c matches NativeCall::ObjectCreateFromDxil { bytecode: b } && b@ == bytecode@,
    {
        NativeCall::ObjectCreateFromDxil { bytecode: copy_bytes(bytecode) }
    }

    /// Wrap the object handle that call returned. Creation is infallible in
    /// the native ABI: the shim must treat a null handle as fatal and never
    /// hand it here.
    pub fn create_object_from_dxil(&self, raw: u64) -> (r: IRObject)
        requires
            raw != 0,
            self.wf(),
        ensures
            r.wf(),
            r.spec_raw() == raw,
            r.spec_table() == self.spec_table(),
    {
        IRObject { raw, table: self.table.clone() }
    }

    /// The call that creates a root signature from a descriptor. The
    /// descriptor is consumed: the native side reads it during the call and
    /// never keeps a reference to it.
    pub fn create_root_signature_from_descriptor_call(&self, desc: IRVersionedRootSignatureDescriptor) -> (c: NativeCall)
        ensures
            c == (NativeCall::RootSignatureCreateFromDescriptor { descriptor: desc }),
    {
        NativeCall::RootSignatureCreateFromDescriptor { descriptor: desc }
    }

    /// Interpret the outcome of that call: the returned handle and the
    /// error the native side reported, if any. An error wins over a handle;
    /// without an error the handle must be non-null, and the shim must
    /// treat the remaining case as fatal and never hand it here.
    pub fn create_root_signature_from_descriptor(&self, raw: u64, error: Option<IRError>) -> (r: Result<IRRootSignature, RootSignatureError>)
        requires
            error is Some || raw != 0,
            self.wf(),
        ensures
            (match error {
                Some(e) => r matches Err(RootSignatureError(re)) && re == e,
                None => r matches Ok(rs) && rs.wf() && rs.spec_raw() == raw
                    && rs.spec_table() == self.spec_table(),
            }),
    {
        match error {
            Some(e) => Err(RootSignatureError(e)),
            None => Ok(IRRootSignature { raw, table: self.table.clone() }),
        }
    }
}

impl Clone for MetalIrConverter {
    /// A clone is a new share of the same table.
    fn clone(&self) -> (r: Self)
        ensures
            r.spec_table() == self.spec_table(),
    {
        MetalIrConverter { table: self.table.clone() }
    }
}

/// One native compiler instance. It is a single-owner state machine: every
/// setter mutates native state cumulatively, and the native side is the sole
/// source of truth for that state, so the wrapper mirrors none of it.
#[derive(Debug)]
pub struct IRCompiler {
    raw: u64,
    table: FunctionTable,
}

impl IRCompiler {
    /// The raw native handle.
    pub closed spec fn spec_raw(&self) -> u64 {
        self.raw
    }

    /// The share of the function table this compiler was constructed from.
    pub closed spec fn spec_table(&self) -> Seq<u64> {
        self.table.spec_addrs()
    }

    /// A compiler always holds a non-null handle and a whole table share.
    pub open spec fn wf(&self) -> bool {
        &&& self.spec_raw() != 0
        &&& self.spec_table().len() == SYMBOL_COUNT
    }

    /// Set the compiler's validation flags.
    pub fn set_validation_flags(&mut self, validation_flags: u32) -> (c: NativeCall)
        ensures
            *final(self) == *old(self),
            c == (NativeCall::CompilerSetValidationFlags {
                compiler: old(self).spec_raw(),
                flags: validation_flags,
            }),
    {
        NativeCall::CompilerSetValidationFlags { compiler: self.raw, flags: validation_flags }
    }

    /// Set the compiler's stage-in code-generation mode.
    pub fn set_stage_in_generation_mode(&mut self, stage: u32) -> (c: NativeCall)
        ensures
            *final(self) == *old(self),
            c == (NativeCall::CompilerSetStageInGenerationMode {
                compiler: old(self).spec_raw(),
                mode: stage,
            }),
    {
        NativeCall::CompilerSetStageInGenerationMode { compiler: self.raw, mode: stage }
    }

    /// Set the compiler's global root signature.
    pub fn set_global_root_signature(&mut self, root_signature: &IRRootSignature) -> (c: NativeCall)
        ensures
            *final(self) == *old(self),
            c == (NativeCall::CompilerSetGlobalRootSignature {
                compiler: old(self).spec_raw(),
                root_signature: root_signature.spec_raw(),
            }),
    {
        NativeCall::CompilerSetGlobalRootSignature {
            compiler: self.raw,
            root_signature: root_signature.raw,
        }
    }

    /// Set the compiler's local root signature.
    pub fn set_local_root_signature(&mut self, root_signature: &IRRootSignature) -> (c: NativeCall)
        ensures
            *final(self) == *old(self),
            c == (NativeCall::CompilerSetLocalRootSignature {
                compiler: old(self).spec_raw(),
                root_signature: root_signature.spec_raw(),
            }),
    {
        NativeCall::CompilerSetLocalRootSignature {
            compiler: self.raw,
            root_signature: root_signature.raw,
        }
    }

    /// Set the hit-group type for ray-tracing compilation.
    pub fn set_hitgroup_type(&mut self, hit_group_type: u32) -> (c: NativeCall)
        ensures
            *final(self) == *old(self),
            c == (NativeCall::CompilerSetHitgroupType {
                compiler: old(self).spec_raw(),
                hit_group_type,
            }),
    {
        NativeCall::CompilerSetHitgroupType { compiler: self.raw, hit_group_type }
    }

    /// Set the ray-tracing pipeline arguments.
    pub fn set_ray_tracing_pipeline_arguments(
        &mut self,
        max_attribute_size_in_bytes: u32,
        raytracing_pipeline_flags: u32,
        closest_hit_intrinsics_mask: u64,
        miss_intrinsics_mask: u64,
        any_hit_intrinsics_mask: u64,
        callable_args: u64,
        max_recursive_depth: i32,
        ray_generation_compilation_mode: u32,
        intersection_function_compilation_mode: u32,
    ) -> (c: NativeCall)
        ensures
            *final(self) == *old(self),
            c == (NativeCall::CompilerSetRayTracingPipelineArguments {
                compiler: old(self).spec_raw(),
                max_attribute_size_in_bytes,
                raytracing_pipeline_flags,
                closest_hit_intrinsics_mask,
                miss_intrinsics_mask,
                any_hit_intrinsics_mask,
                callable_args,
                max_recursive_depth,
                ray_generation_compilation_mode,
                intersection_function_compilation_mode,
            }),
    {
        NativeCall::CompilerSetRayTracingPipelineArguments {
            compiler: self.raw,
            max_attribute_size_in_bytes,
            raytracing_pipeline_flags,
            closest_hit_intrinsics_mask,
            miss_intrinsics_mask,
            any_hit_intrinsics_mask,
            callable_args,
            max_recursive_depth,
            ray_generation_compilation_mode,
            intersection_function_compilation_mode,
        }
    }

    /// Set the compiler's compatibility flags.
    pub fn set_compatibility_flags(&mut self, flags: u32) -> (c: NativeCall)
        ensures
            *final(self) == *old(self),
            c == (NativeCall::CompilerSetCompatibilityFlags {
                compiler: old(self).spec_raw(),
                flags,
            }),
    {
        NativeCall::CompilerSetCompatibilityFlags { compiler: self.raw, flags }
    }

    /// Set the input topology.
    pub fn set_input_topology(&mut self, input_topology: u32) -> (c: NativeCall)
        ensures
            *final(self) == *old(self),
            c == (NativeCall::CompilerSetInputTopology {
                compiler: old(self).spec_raw(),
                input_topology,
            }),
    {
        NativeCall::CompilerSetInputTopology { compiler: self.raw, input_topology }
    }

    /// Enable or disable geometry and tessellation emulation.
    pub fn enable_geometry_and_tessellation_emulation(&mut self, enable: bool) -> (c: NativeCall)
        ensures
            *final(self) == *old(self),
            c == (NativeCall::CompilerEnableGeometryAndTessellationEmulation {
                compiler: old(self).spec_raw(),
                enable,
            }),
    {
        NativeCall::CompilerEnableGeometryAndTessellationEmulation { compiler: self.raw, enable }
    }

    /// Set the dual-source blending configuration.
    pub fn set_dual_source_blending_configuration(&mut self, configuration: u32) -> (c: NativeCall)
        ensures
            *final(self) == *old(self),
            c == (NativeCall::CompilerSetDualSourceBlendingConfiguration {
                compiler: old(self).spec_raw(),
                configuration,
            }),
    {
        NativeCall::CompilerSetDualSourceBlendingConfiguration { compiler: self.raw, configuration }
    }

    /// Set the depth feedback configuration.
    pub fn set_depth_feedback_configuration(&mut self, configuration: u32) -> (c: NativeCall)
        ensures
            *final(self) == *old(self),
            c == (NativeCall::CompilerSetDepthFeedbackConfiguration {
                compiler: old(self).spec_raw(),
                configuration,
            }),
    {
        NativeCall::CompilerSetDepthFeedbackConfiguration { compiler: self.raw, configuration }
    }

    /// Set the ray-tracing interoperability mask.
    pub fn set_int_rt_mask(&mut self, int_rt_mask: u8) -> (c: NativeCall)
        ensures
            *final(self) == *old(self),
            c == (NativeCall::CompilerSetIntRtMask {
                compiler: old(self).spec_raw(),
                mask: int_rt_mask,
            }),
    {
        NativeCall::CompilerSetIntRtMask { compiler: self.raw, mask: int_rt_mask }
    }

    /// Rename the entry point of subsequently compiled shaders.
    pub fn set_entry_point_name(&mut self, new_name: &Vec<u8>) -> (c: NativeCall)
        ensures
            *final(self) == *old(self),
            c matches NativeCall::CompilerSetEntryPointName { compiler, name }
                && compiler == old(self).spec_raw() && name@ == new_name@,
    {
        NativeCall::CompilerSetEntryPointName { compiler: self.raw, name: copy_bytes(new_name) }
    }

    /// Set the minimum GPU family compiled for.
    pub fn set_minimum_gpu_family(&mut self, family: u32) -> (c: NativeCall)
        ensures
            *final(self) == *old(self),
            c == (NativeCall::CompilerSetMinimumGpuFamily {
                compiler: old(self).spec_raw(),
                family,
            }),
    {
        NativeCall::CompilerSetMinimumGpuFamily { compiler: self.raw, family }
    }

    /// Ignore or honor root signatures embedded in the input.
    pub fn ignore_root_signature(&mut self, ignore_embedded_root_signature: bool) -> (c: NativeCall)
        ensures
            *final(self) == *old(self),
            c == (NativeCall::CompilerIgnoreRootSignature {
                compiler: old(self).spec_raw(),
                ignore: ignore_embedded_root_signature,
            }),
    {
        NativeCall::CompilerIgnoreRootSignature {
            compiler: self.raw,
            ignore: ignore_embedded_root_signature,
        }
    }

    /// Ignore or keep debug information.
    pub fn ignore_debug_information(&mut self, ignore_debug_information: bool) -> (c: NativeCall)
        ensures
            *final(self) == *old(self),
            c == (NativeCall::CompilerIgnoreDebugInformation {
                compiler: old(self).spec_raw(),
                ignore: ignore_debug_information,
            }),
    {
        NativeCall::CompilerIgnoreDebugInformation {
            compiler: self.raw,
            ignore: ignore_debug_information,
        }
    }

    /// Set the minimum deployment target compiled for.
    pub fn set_minimum_deployment_target(&mut self, operating_system: u32, version: &Vec<u8>) -> (c: NativeCall)
        ensures
            *final(self) == *old(self),
            c matches NativeCall::CompilerSetMinimumDeploymentTarget { compiler, operating_system: os, version: v }
                && compiler == old(self).spec_raw() && os == operating_system && v@ == version@,
    {
        NativeCall::CompilerSetMinimumDeploymentTarget {
            compiler: self.raw,
            operating_system,
            version: copy_bytes(version),
        }
    }

    /// The call that synthesizes a stage-in function for a vertex shader
    /// into an already created output binary. The native side answers with
    /// success or failure; the layout is consumed by the call.
    pub fn synthesize_stage_in_function_call(
        &mut self,
        vertex_shader_reflection: &IRShaderReflection,
        layout: IRVersionedInputLayoutDescriptor,
        binary: &IRMetalLibBinary,
    ) -> (c: NativeCall)
        ensures
            *final(self) == *old(self),
            c == (NativeCall::MetalLibSynthesizeStageInFunction {
                compiler: old(self).spec_raw(),
                reflection: vertex_shader_reflection.spec_raw(),
                layout,
                binary: binary.spec_raw(),
            }),
    {
        NativeCall::MetalLibSynthesizeStageInFunction {
            compiler: self.raw,
            reflection: vertex_shader_reflection.raw_handle(),
            layout,
            binary: binary.raw,
        }
    }

    /// The call that synthesizes an indirect ray-dispatch function into a
    /// fresh output binary, created beforehand by
    /// [`IRMetalLibBinary::create_call`].
    pub fn synthesize_indirect_ray_dispatch_function_call(&mut self, binary_raw: u64) -> (c: NativeCall)
        requires
            binary_raw != 0,
        ensures
            *final(self) == *old(self),
            c == (NativeCall::MetalLibSynthesizeIndirectRayDispatchFunction {
                compiler: old(self).spec_raw(),
                binary: binary_raw,
            }),
    {
        NativeCall::MetalLibSynthesizeIndirectRayDispatchFunction {
            compiler: self.raw,
            binary: binary_raw,
        }
    }

    /// Interpret the outcome of that call: on success the filled binary, on
    /// failure the destroy call owed for the container, so the attempt leaks
    /// nothing on either path.
    pub fn synthesize_indirect_ray_dispatch_function(&mut self, binary_raw: u64, synthesized: bool) -> (r: BinaryOutcome)
        requires
            binary_raw != 0,
            old(self).wf(),
        ensures
            *final(self) == *old(self),
            (if synthesized {
                r matches BinaryOutcome::Filled(b) && b.wf() && b.spec_raw() == binary_raw
                    && b.spec_table() == old(self).spec_table()
            } else {
                r == BinaryOutcome::Dispose(NativeCall::MetalLibBinaryDestroy { binary: binary_raw })
            }),
    {
        if synthesized {
            BinaryOutcome::Filled(IRMetalLibBinary { raw: binary_raw, table: self.table.clone() })
        } else {
            BinaryOutcome::Dispose(NativeCall::MetalLibBinaryDestroy { binary: binary_raw })
        }
    }

    /// The call that synthesizes an indirect intersection function into a
    /// fresh output binary, created beforehand by
    /// [`IRMetalLibBinary::create_call`].
    pub fn synthesize_indirect_intersection_function_call(&mut self, binary_raw: u64) -> (c: NativeCall)
        requires
            binary_raw != 0,
        ensures
            *final(self) == *old(self),
            c == (NativeCall::MetalLibSynthesizeIndirectIntersectionFunction {
                compiler: old(self).spec_raw(),
                binary: binary_raw,
            }),
    {
        NativeCall::MetalLibSynthesizeIndirectIntersectionFunction {
            compiler: self.raw,
            binary: binary_raw,
        }
    }

    /// Interpret the outcome of that call, exactly as for the indirect
    /// ray-dispatch synthesis.
    pub fn synthesize_indirect_intersection_function(&mut self, binary_raw: u64, synthesized: bool) -> (r: BinaryOutcome)
        requires
            binary_raw != 0,
            old(self).wf(),
        ensures
            *final(self) == *old(self),
            (if synthesized {
                r matches BinaryOutcome::Filled(b) && b.wf() && b.spec_raw() == binary_raw
                    && b.spec_table() == old(self).spec_table()
            } else {
                r == BinaryOutcome::Dispose(NativeCall::MetalLibBinaryDestroy { binary: binary_raw })
            }),
    {
        if synthesized {
            BinaryOutcome::Filled(IRMetalLibBinary { raw: binary_raw, table: self.table.clone() })
        } else {
            BinaryOutcome::Dispose(NativeCall::MetalLibBinaryDestroy { binary: binary_raw })
        }
    }

    /// The call that compiles and links one input object under an entry
    /// point. All previously set options and root signatures are inputs to
    /// this call: compiler state is native and cumulative.
    pub fn alloc_compile_and_link_call(&self, entry_point: &Vec<u8>, input: &IRObject) -> (c: NativeCall)
        ensures
            c matches NativeCall::CompilerAllocCompileAndLink { compiler, entry_point: e, input: i }
                && compiler == self.spec_raw() && e@ == entry_point@ && i == input.spec_raw(),
    {
        NativeCall::CompilerAllocCompileAndLink {
            compiler: self.raw,
            entry_point: copy_bytes(entry_point),
            input: input.raw,
        }
    }

    /// Interpret the outcome of a compile-and-link call: the returned object
    /// handle and the error the native side reported, if any. An error wins
    /// over a handle; without an error the handle must be non-null, and the
    /// shim must treat the remaining case as fatal and never hand it here.
    /// On success the new object shares this compiler's function table.
    pub fn alloc_compile_and_link(&self, raw_object: u64, error: Option<IRError>) -> (r: Result<IRObject, CompilerError>)
        requires
            error is Some || raw_object != 0,
            self.wf(),
        ensures
            (match error {
                Some(e) => r matches Err(CompilerError(ce)) && ce == e,
                None => r matches Ok(obj) && obj.wf() && obj.spec_raw() == raw_object
                    && obj.spec_table() == self.spec_table(),
            }),
    {
        match error {
            Some(e) => Err(CompilerError(e)),
            None => Ok(IRObject { raw: raw_object, table: self.table.clone() }),
        }
    }

    /// The call that combines an intersection function and an any-hit
    /// function, then compiles and links them.
    pub fn alloc_combine_compile_and_link_call(
        &self,
        intersection_function_entry_point: &Vec<u8>,
        intersection_function_bytecode: &IRObject,
        any_hit_function_entry_point: &Vec<u8>,
        any_hit_function_bytecode: &IRObject,
    ) -> (c: NativeCall)
        ensures
            c matches NativeCall::CompilerAllocCombineCompileAndLink {
                compiler,
                intersection_function_entry_point: ie,
                intersection_function_bytecode: ib,
                any_hit_function_entry_point: ae,
                any_hit_function_bytecode: ab,
            } && compiler == self.spec_raw()
                && ie@ == intersection_function_entry_point@
                && ib == intersection_function_bytecode.spec_raw()
                && ae@ == any_hit_function_entry_point@
                && ab == any_hit_function_bytecode.spec_raw(),
    {
        NativeCall::CompilerAllocCombineCompileAndLink {
            compiler: self.raw,
            intersection_function_entry_point: copy_bytes(intersection_function_entry_point),
            intersection_function_bytecode: intersection_function_bytecode.raw,
            any_hit_function_entry_point: copy_bytes(any_hit_function_entry_point),
            any_hit_function_bytecode: any_hit_function_bytecode.raw,
        }
    }

    /// Interpret the outcome of a combine-compile-and-link call, exactly as
    /// for [`IRCompiler::alloc_compile_and_link`].
    pub fn alloc_combine_compile_and_link(&self, raw_object: u64, error: Option<IRError>) -> (r: Result<IRObject, CompilerError>)
        requires
            error is Some || raw_object != 0,
            self.wf(),
        ensures
            (match error {
                Some(e) => r matches Err(CompilerError(ce)) && ce == e,
                None => r matches Ok(obj) && obj.wf() && obj.spec_raw() == raw_object
                    && obj.spec_table() == self.spec_table(),
            }),
    {
        match error {
            Some(e) => Err(CompilerError(e)),
            None => Ok(IRObject { raw: raw_object, table: self.table.clone() }),
        }
    }

    /// Consume the compiler and name the one call that must destroy it.
    pub fn release(self) -> (c: NativeCall)
        ensures
            c == (NativeCall::CompilerDestroy { compiler: self.spec_raw() }),
    {
        NativeCall::CompilerDestroy { compiler: self.raw }
    }
}

/// A compiled object: raw input bytecode, or the module a compile-and-link
/// call produced. Read-only after creation.
#[derive(Debug)]
pub struct IRObject {
    raw: u64,
    table: FunctionTable,
}

impl IRObject {
    /// The raw native handle.
    pub closed spec fn spec_raw(&self) -> u64 {
        self.raw
    }

    /// The share of the function table this object was constructed from.
    pub closed spec fn spec_table(&self) -> Seq<u64> {
        self.table.spec_addrs()
    }

    /// An object always holds a non-null handle and a whole table share.
    pub open spec fn wf(&self) -> bool {
        &&& self.spec_raw() != 0
        &&& self.spec_table().len() == SYMBOL_COUNT
    }

    /// The call that gathers the ray-tracing intrinsics an entry point
    /// uses; its result is a plain mask and passes through unchanged.
    pub fn gather_raytracing_intrinsics_call(&self, entry_point: &Vec<u8>) -> (c: NativeCall)
        ensures
            c matches NativeCall::ObjectGatherRaytracingIntrinsics { object, entry_point: e }
                && object == self.spec_raw() && e@ == entry_point@,
    {
        NativeCall::ObjectGatherRaytracingIntrinsics {
            object: self.raw,
            entry_point: copy_bytes(entry_point),
        }
    }

    /// The call that reports the object's kind; its result is a native code
    /// and passes through unchanged.
    pub fn object_type_call(&self) -> (c: NativeCall)
        ensures
            c == (NativeCall::ObjectGetType { object: self.spec_raw() }),
    {
        NativeCall::ObjectGetType { object: self.raw }
    }

    /// The call that reports the shader stage the object was compiled for;
    /// its result is a native code and passes through unchanged.
    pub fn metal_ir_shader_stage_call(&self) -> (c: NativeCall)
        ensures
            c == (NativeCall::ObjectGetMetalIrShaderStage { object: self.spec_raw() }),
    {
        NativeCall::ObjectGetMetalIrShaderStage { object: self.raw }
    }

    /// The call that fills a fresh output binary, created beforehand by
    /// [`IRMetalLibBinary::create_call`], with the object's compiled
    /// bytecode for a stage.
    pub fn metal_lib_binary_call(&self, stage: u32, binary_raw: u64) -> (c: NativeCall)
        requires
            binary_raw != 0,
        ensures
            c == (NativeCall::ObjectGetMetalLibBinary {
                object: self.spec_raw(),
                stage,
                binary: binary_raw,
            }),
    {
        NativeCall::ObjectGetMetalLibBinary { object: self.raw, stage, binary: binary_raw }
    }

    /// Interpret the outcome of that call. When the native side reported
    /// bytecode, the filled binary is returned; when it reported none — an
    /// expected absence, for instance on an object that is still raw input
    /// bytecode — the destroy call owed for the container is returned
    /// instead, so neither path leaks and neither path aborts.
    pub fn metal_lib_binary(&self, binary_raw: u64, filled: bool) -> (r: BinaryOutcome)
        requires
            binary_raw != 0,
            self.wf(),
        ensures
            (if filled {
                r matches BinaryOutcome::Filled(b) && b.wf() && b.spec_raw() == binary_raw
                    && b.spec_table() == self.spec_table()
            } else {
                r == BinaryOutcome::Dispose(NativeCall::MetalLibBinaryDestroy { binary: binary_raw })
            }),
    {
        if filled {
            BinaryOutcome::Filled(IRMetalLibBinary { raw: binary_raw, table: self.table.clone() })
        } else {
            BinaryOutcome::Dispose(NativeCall::MetalLibBinaryDestroy { binary: binary_raw })
        }
    }

    /// The call that fills a fresh reflection, created beforehand by
    /// [`IRShaderReflection::create_call`], with the object's reflection
    /// data for a stage.
    pub fn reflection_call(&self, stage: u32, reflection_raw: u64) -> (c: NativeCall)
        requires
            reflection_raw != 0,
        ensures
            c == (NativeCall::ObjectGetReflection {
                object: self.spec_raw(),
                stage,
                reflection: reflection_raw,
            }),
    {
        NativeCall::ObjectGetReflection { object: self.raw, stage, reflection: reflection_raw }
    }

    /// Interpret the outcome of that call, exactly as for
    /// [`IRObject::metal_lib_binary`]: the filled reflection, or the destroy
    /// call owed for the container on an expected absence.
    pub fn reflection(&self, reflection_raw: u64, filled: bool) -> (r: ReflectionOutcome)
        requires
            reflection_raw != 0,
            self.wf(),
        ensures
            (if filled {
                r matches ReflectionOutcome::Filled(refl) && refl.wf()
                    && refl.spec_raw() == reflection_raw
                    && refl.spec_table() == self.spec_table()
            } else {
                r == ReflectionOutcome::Dispose(NativeCall::ShaderReflectionDestroy {
                    reflection: reflection_raw,
                })
            }),
    {
        if filled {
            ReflectionOutcome::Filled(IRShaderReflection::from_parts(
                reflection_raw,
                self.table.clone(),
            ))
        } else {
            ReflectionOutcome::Dispose(NativeCall::ShaderReflectionDestroy {
                reflection: reflection_raw,
            })
        }
    }

    /// Consume the object and name the one call that must destroy it.
    pub fn release(self) -> (c: NativeCall)
        ensures
            c == (NativeCall::ObjectDestroy { object: self.spec_raw() }),
    {
        NativeCall::ObjectDestroy { object: self.raw }
    }
}

/// An output binary: compiled target bytecode extracted from an object.
#[derive(Debug)]
pub struct IRMetalLibBinary {
    raw: u64,
    table: FunctionTable,
}

impl IRMetalLibBinary {
    /// The raw native handle.
    pub closed spec fn spec_raw(&self) -> u64 {
        self.raw
    }

    /// The share of the function table this binary was constructed from.
    pub closed spec fn spec_table(&self) -> Seq<u64> {
        self.table.spec_addrs()
    }

    /// A binary always holds a non-null handle and a whole table share.
    pub open spec fn wf(&self) -> bool {
        &&& self.spec_raw() != 0
        &&& self.spec_table().len() == SYMBOL_COUNT
    }

    /// The call that creates an empty output binary, to be filled by an
    /// extraction or synthesis call.
    pub fn create_call() -> (c: NativeCall)
        ensures
            c == NativeCall::MetalLibBinaryCreate,
    {
        NativeCall::MetalLibBinaryCreate
    }

    /// The call that queries the exact byte length of the binary.
    pub fn byte_code_size_call(&self) -> (c: NativeCall)
        ensures
            c == (NativeCall::MetalLibGetBytecodeSize { binary: self.spec_raw() }),
    {
        NativeCall::MetalLibGetBytecodeSize { binary: self.raw }
    }

    /// The call that copies the binary's bytes out.
    pub fn byte_code_call(&self) -> (c: NativeCall)
        ensures
            c == (NativeCall::MetalLibGetBytecode { binary: self.spec_raw() }),
    {
        NativeCall::MetalLibGetBytecode { binary: self.raw }
    }

    /// Check the copied bytes against the length the size query reported.
    /// They are returned exactly when the two agree; a mismatch is an
    /// internal-consistency fault between the wrapper and the native
    /// library, and the caller must treat it as fatal.
    pub fn byte_code(&self, size_in_bytes: usize, bytes: Vec<u8>) -> (r: Option<Vec<u8>>)
        ensures
            r is Some <==> bytes@.len() == size_in_bytes,
            (match r {
                Some(b) => b@ == bytes@,
                None => true,
            }),
    {
        if bytes.len() == size_in_bytes {
            Some(bytes)
        } else {
            None
        }
    }

    /// Consume the binary and name the one call that must destroy it.
    pub fn release(self) -> (c: NativeCall)
        ensures
            c == (NativeCall::MetalLibBinaryDestroy { binary: self.spec_raw() }),
    {
        NativeCall::MetalLibBinaryDestroy { binary: self.raw }
    }
}

/// A native root signature built from a descriptor.
#[derive(Debug)]
pub struct IRRootSignature {
    raw: u64,
    table: FunctionTable,
}

impl IRRootSignature {
    /// The raw native handle.
    pub closed spec fn spec_raw(&self) -> u64 {
        self.raw
    }

    /// The share of the function table this root signature was constructed
    /// from.
    pub closed spec fn spec_table(&self) -> Seq<u64> {
        self.table.spec_addrs()
    }

    /// A root signature always holds a non-null handle and a whole table
    /// share.
    pub open spec fn wf(&self) -> bool {
        &&& self.spec_raw() != 0
        &&& self.spec_table().len() == SYMBOL_COUNT
    }

    /// The call that queries how many resources the root signature
    /// references.
    pub fn resource_count_call(&self) -> (c: NativeCall)
        ensures
            c == (NativeCall::RootSignatureGetResourceCount { root_signature: self.spec_raw() }),
    {
        NativeCall::RootSignatureGetResourceCount { root_signature: self.raw }
    }

    /// The call that reads the locations of every referenced resource.
    pub fn resource_locations_call(&self) -> (c: NativeCall)
        ensures
            c == (NativeCall::RootSignatureGetResourceLocations { root_signature: self.spec_raw() }),
    {
        NativeCall::RootSignatureGetResourceLocations { root_signature: self.raw }
    }

    /// Check the locations read back against the count the count query
    /// reported. They are returned exactly when the two agree; a mismatch is
    /// an internal-consistency fault between the wrapper and the native
    /// library, and the caller must treat it as fatal.
    pub fn resource_locations(&self, n_resources: usize, locations: Vec<IRResourceLocation>) -> (r: Option<Vec<IRResourceLocation>>)
        ensures
            r is Some <==> locations@.len() == n_resources,
            (match r {
                Some(l) => l@ == locations@,
                None => true,
            }),
    {
        if locations.len() == n_resources {
            Some(locations)
        } else {
            None
        }
    }

    /// Consume the root signature and name the one call that must destroy
    /// it.
    pub fn release(self) -> (c: NativeCall)
        ensures
            c == (NativeCall::RootSignatureDestroy { root_signature: self.spec_raw() }),
    {
        NativeCall::RootSignatureDestroy { root_signature: self.raw }
    }
}

} // verus!
