//! Reflection of a compiled object, stage by stage.
//!
//! A reflection hands out one versioned record per shader stage kind. Each
//! record kind is its own type, fixed at compile time to the copy entry point
//! that creates it and the release entry point that must free it, so a
//! mismatched release cannot be written. Asking for a stage the object does
//! not have is an expected absence: the accessor returns nothing, and the
//! record created for the attempt is never built.

use vstd::prelude::*;

use crate::calls::NativeCall;
use crate::table::FunctionTable;
use crate::table::Symbol;

verus! {

/// The shader stage kinds a reflection can report on.
#[derive(Clone, Copy, Debug, PartialEq, Eq, Structural)]
pub enum ReflectionStage {
    /// The compute stage.
    Compute,
    /// The vertex stage.
    Vertex,
    /// The fragment stage.
    Fragment,
    /// The geometry stage.
    Geometry,
    /// The hull stage.
    Hull,
    /// The domain stage.
    Domain,
    /// The mesh stage.
    Mesh,
    /// The amplification stage.
    Amplification,
    /// The raytracing stage.
    Raytracing,
}

/// The entry point that copies a stage's versioned record.
pub open spec fn spec_copy_symbol(s: ReflectionStage) -> Symbol {
    match s {
        ReflectionStage::Compute => Symbol::ShaderReflectionCopyComputeInfo,
        ReflectionStage::Vertex => Symbol::ShaderReflectionCopyVertexInfo,
        ReflectionStage::Fragment => Symbol::ShaderReflectionCopyFragmentInfo,
        ReflectionStage::Geometry => Symbol::ShaderReflectionCopyGeometryInfo,
        ReflectionStage::Hull => Symbol::ShaderReflectionCopyHullInfo,
        ReflectionStage::Domain => Symbol::ShaderReflectionCopyDomainInfo,
        ReflectionStage::Mesh => Symbol::ShaderReflectionCopyMeshInfo,
        ReflectionStage::Amplification => Symbol::ShaderReflectionCopyAmplificationInfo,
        ReflectionStage::Raytracing => Symbol::ShaderReflectionCopyRaytracingInfo,
    }
}

/// The entry point that releases a stage's versioned record.
pub open spec fn spec_release_symbol(s: ReflectionStage) -> Symbol {
    match s {
        ReflectionStage::Compute => Symbol::ShaderReflectionReleaseComputeInfo,
        ReflectionStage::Vertex => Symbol::ShaderReflectionReleaseVertexInfo,
        ReflectionStage::Fragment => Symbol::ShaderReflectionReleaseFragmentInfo,
        ReflectionStage::Geometry => Symbol::ShaderReflectionReleaseGeometryInfo,
        ReflectionStage::Hull => Symbol::ShaderReflectionReleaseHullInfo,
        ReflectionStage::Domain => Symbol::ShaderReflectionReleaseDomainInfo,
        ReflectionStage::Mesh => Symbol::ShaderReflectionReleaseMeshInfo,
        ReflectionStage::Amplification => Symbol::ShaderReflectionReleaseAmplificationInfo,
        ReflectionStage::Raytracing => Symbol::ShaderReflectionReleaseRaytracingInfo,
    }
}

/// The release entry point paired with a copy entry point, for the entry
/// points that copy stage records.
pub open spec fn spec_paired_release(copy: Symbol) -> Option<Symbol> {
    match copy {
        Symbol::ShaderReflectionCopyComputeInfo => Some(Symbol::ShaderReflectionReleaseComputeInfo),
        Symbol::ShaderReflectionCopyVertexInfo => Some(Symbol::ShaderReflectionReleaseVertexInfo),
        Symbol::ShaderReflectionCopyFragmentInfo => Some(Symbol::ShaderReflectionReleaseFragmentInfo),
        Symbol::ShaderReflectionCopyGeometryInfo => Some(Symbol::ShaderReflectionReleaseGeometryInfo),
        Symbol::ShaderReflectionCopyHullInfo => Some(Symbol::ShaderReflectionReleaseHullInfo),
        Symbol::ShaderReflectionCopyDomainInfo => Some(Symbol::ShaderReflectionReleaseDomainInfo),
        Symbol::ShaderReflectionCopyMeshInfo => Some(Symbol::ShaderReflectionReleaseMeshInfo),
        Symbol::ShaderReflectionCopyAmplificationInfo => Some(Symbol::ShaderReflectionReleaseAmplificationInfo),
        Symbol::ShaderReflectionCopyRaytracingInfo => Some(Symbol::ShaderReflectionReleaseRaytracingInfo),
        _ => None,
    }
}

/// Every stage record is released through exactly the entry point paired
/// with the one that copied it.
pub proof fn lemma_stage_release_pairing(s: ReflectionStage)
    ensures
        spec_paired_release(spec_copy_symbol(s)) == Some(spec_release_symbol(s)),
{
}

/// Compute-stage reflection payload.
#[derive(Clone, Copy, Debug, PartialEq, Eq)]
pub struct IRCSInfo {
    /// Threadgroup size, one count per dimension.
    pub threadgroupSize: [u32; 3],
}

/// A reflection session tied to one compiled object.
#[derive(Debug)]
pub struct IRShaderReflection {
    raw: u64,
    table: FunctionTable,
}

impl IRShaderReflection {
    /// The raw native handle.
    pub closed spec fn spec_raw(&self) -> u64 {
        self.raw
    }

    /// The share of the function table this reflection was constructed from.
    pub closed spec fn spec_table(&self) -> Seq<u64> {
        self.table.spec_addrs()
    }

    /// A reflection always holds a non-null handle and a whole table share.
    pub open spec fn wf(&self) -> bool {
        &&& self.spec_raw() != 0
        &&& self.spec_table().len() == crate::table::SYMBOL_COUNT
    }

    /// Wrap a filled reflection handle with its table share.
    pub(crate) fn from_parts(raw: u64, table: FunctionTable) -> (r: Self)
        ensures
            r.spec_raw() == raw,
            r.spec_table() == table.spec_addrs(),
    {
        Self { raw, table }
    }

    /// The raw native handle, for naming it inside a call description.
    pub(crate) fn raw_handle(&self) -> (r: u64)
        ensures
            r == self.spec_raw(),
    {
        self.raw
    }

    /// The call that creates an empty reflection, to be filled by
    /// [`crate::handles::IRObject::reflection_call`].
    pub fn create_call() -> (c: NativeCall)
        ensures
            c == NativeCall::ShaderReflectionCreate,
    {
        NativeCall::ShaderReflectionCreate
    }

    /// Consume the reflection and name the one call that must destroy it.
    pub fn release(self) -> (c: NativeCall)
        ensures
            c == (NativeCall::ShaderReflectionDestroy { reflection: self.spec_raw() }),
    {
        NativeCall::ShaderReflectionDestroy { reflection: self.raw }
    }

    /// The call that copies the compute-stage record of this version,
    /// if the reflection has one.
    pub fn compute_info_call(&self, version: u32) -> (c: NativeCall)
        ensures
            c == (NativeCall::ShaderReflectionCopyStageInfo {
                reflection: self.spec_raw(),
                stage: ReflectionStage::Compute,
                version,
            }),
            c.symbol() == spec_copy_symbol(ReflectionStage::Compute),
    {
        NativeCall::ShaderReflectionCopyStageInfo {
            reflection: self.raw,
            stage: ReflectionStage::Compute,
            version,
        }
    }

    /// Interpret the outcome of that call: the copied payload and the
    /// record identifier the shim assigned, or nothing if the native side
    /// reported that no such record exists. Absence is expected, not an
    /// error.
    pub fn compute_info(&self, version: u32, copied: Option<(IRCSInfo, u64)>) -> (r: Option<IRVersionedCSInfo>)
        ensures
            r is Some <==> copied is Some,
            (match (r, copied) {
                (Some(info), Some((payload, id))) => {
                    &&& info.spec_version() == version
                    &&& info.spec_payload() == payload
                    &&& info.spec_info_id() == id
                },
                _ => true,
            }),
    {
        match copied {
            Some((payload, id)) => Some(IRVersionedCSInfo {
                version,
                payload,
                info_id: id,
            }),
            None => None,
        }
    }

    /// The call that copies the vertex-stage record of this version,
    /// if the reflection has one.
    pub fn vertex_info_call(&self, version: u32) -> (c: NativeCall)
        ensures
            c == (NativeCall::ShaderReflectionCopyStageInfo {
                reflection: self.spec_raw(),
                stage: ReflectionStage::Vertex,
                version,
            }),
            c.symbol() == spec_copy_symbol(ReflectionStage::Vertex),
    {
        NativeCall::ShaderReflectionCopyStageInfo {
            reflection: self.raw,
            stage: ReflectionStage::Vertex,
            version,
        }
    }

    /// Interpret the outcome of that call: the copied payload and the
    /// record identifier the shim assigned, or nothing if the native side
    /// reported that no such record exists. Absence is expected, not an
    /// error.
    pub fn vertex_info(&self, version: u32, copied: Option<(Vec<u8>, u64)>) -> (r: Option<IRVersionedVSInfo>)
        ensures
            r is Some <==> copied is Some,
            (match (r, copied) {
                (Some(info), Some((payload, id))) => {
                    &&& info.spec_version() == version
                    &&& info.spec_payload() == payload@
                    &&& info.spec_info_id() == id
                },
                _ => true,
            }),
    {
        match copied {
            Some((payload, id)) => Some(IRVersionedVSInfo {
                version,
                payload,
                info_id: id,
            }),
            None => None,
        }
    }

    /// The call that copies the fragment-stage record of this version,
    /// if the reflection has one.
    pub fn fragment_info_call(&self, version: u32) -> (c: NativeCall)
        ensures
            c == (NativeCall::ShaderReflectionCopyStageInfo {
                reflection: self.spec_raw(),
                stage: ReflectionStage::Fragment,
                version,
            }),
            c.symbol() == spec_copy_symbol(ReflectionStage::Fragment),
    {
        NativeCall::ShaderReflectionCopyStageInfo {
            reflection: self.raw,
            stage: ReflectionStage::Fragment,
            version,
        }
    }

    /// Interpret the outcome of that call: the copied payload and the
    /// record identifier the shim assigned, or nothing if the native side
    /// reported that no such record exists. Absence is expected, not an
    /// error.
    pub fn fragment_info(&self, version: u32, copied: Option<(Vec<u8>, u64)>) -> (r: Option<IRVersionedFSInfo>)
        ensures
            r is Some <==> copied is Some,
            (match (r, copied) {
                (Some(info), Some((payload, id))) => {
                    &&& info.spec_version() == version
                    &&& info.spec_payload() == payload@
                    &&& info.spec_info_id() == id
                },
                _ => true,
            }),
    {
        match copied {
            Some((payload, id)) => Some(IRVersionedFSInfo {
                version,
                payload,
                info_id: id,
            }),
            None => None,
        }
    }

    /// The call that copies the geometry-stage record of this version,
    /// if the reflection has one.
    pub fn geometry_info_call(&self, version: u32) -> (c: NativeCall)
        ensures
            c == (NativeCall::ShaderReflectionCopyStageInfo {
                reflection: self.spec_raw(),
                stage: ReflectionStage::Geometry,
                version,
            }),
            c.symbol() == spec_copy_symbol(ReflectionStage::Geometry),
    {
        NativeCall::ShaderReflectionCopyStageInfo {
            reflection: self.raw,
            stage: ReflectionStage::Geometry,
            version,
        }
    }

    /// Interpret the outcome of that call: the copied payload and the
    /// record identifier the shim assigned, or nothing if the native side
    /// reported that no such record exists. Absence is expected, not an
    /// error.
    pub fn geometry_info(&self, version: u32, copied: Option<(Vec<u8>, u64)>) -> (r: Option<IRVersionedGSInfo>)
        ensures
            r is Some <==> copied is Some,
            (match (r, copied) {
                (Some(info), Some((payload, id))) => {
                    &&& info.spec_version() == version
                    &&& info.spec_payload() == payload@
                    &&& info.spec_info_id() == id
                },
                _ => true,
            }),
    {
        match copied {
            Some((payload, id)) => Some(IRVersionedGSInfo {
                version,
                payload,
                info_id: id,
            }),
            None => None,
        }
    }

    /// The call that copies the hull-stage record of this version,
    /// if the reflection has one.
    pub fn hull_info_call(&self, version: u32) -> (c: NativeCall)
        ensures
            c == (NativeCall::ShaderReflectionCopyStageInfo {
                reflection: self.spec_raw(),
                stage: ReflectionStage::Hull,
                version,
            }),
            c.symbol() == spec_copy_symbol(ReflectionStage::Hull),
    {
        NativeCall::ShaderReflectionCopyStageInfo {
            reflection: self.raw,
            stage: ReflectionStage::Hull,
            version,
        }
    }

    /// Interpret the outcome of that call: the copied payload and the
    /// record identifier the shim assigned, or nothing if the native side
    /// reported that no such record exists. Absence is expected, not an
    /// error.
    pub fn hull_info(&self, version: u32, copied: Option<(Vec<u8>, u64)>) -> (r: Option<IRVersionedHSInfo>)
        ensures
            r is Some <==> copied is Some,
            (match (r, copied) {
                (Some(info), Some((payload, id))) => {
                    &&& info.spec_version() == version
                    &&& info.spec_payload() == payload@
                    &&& info.spec_info_id() == id
                },
                _ => true,
            }),
    {
        match copied {
            Some((payload, id)) => Some(IRVersionedHSInfo {
                version,
                payload,
                info_id: id,
            }),
            None => None,
        }
    }

    /// The call that copies the domain-stage record of this version,
    /// if the reflection has one.
    pub fn domain_info_call(&self, version: u32) -> (c: NativeCall)
        ensures
            c == (NativeCall::ShaderReflectionCopyStageInfo {
                reflection: self.spec_raw(),
                stage: ReflectionStage::Domain,
                version,
            }),
            c.symbol() == spec_copy_symbol(ReflectionStage::Domain),
    {
        NativeCall::ShaderReflectionCopyStageInfo {
            reflection: self.raw,
            stage: ReflectionStage::Domain,
            version,
        }
    }

    /// Interpret the outcome of that call: the copied payload and the
    /// record identifier the shim assigned, or nothing if the native side
    /// reported that no such record exists. Absence is expected, not an
    /// error.
    pub fn domain_info(&self, version: u32, copied: Option<(Vec<u8>, u64)>) -> (r: Option<IRVersionedDSInfo>)
        ensures
            r is Some <==> copied is Some,
            (match (r, copied) {
                (Some(info), Some((payload, id))) => {
                    &&& info.spec_version() == version
                    &&& info.spec_payload() == payload@
                    &&& info.spec_info_id() == id
                },
                _ => true,
            }),
    {
        match copied {
            Some((payload, id)) => Some(IRVersionedDSInfo {
                version,
                payload,
                info_id: id,
            }),
            None => None,
        }
    }

    /// The call that copies the mesh-stage record of this version,
    /// if the reflection has one.
    pub fn mesh_info_call(&self, version: u32) -> (c: NativeCall)
        ensures
            c == (NativeCall::ShaderReflectionCopyStageInfo {
                reflection: self.spec_raw(),
                stage: ReflectionStage::Mesh,
                version,
            }),
            c.symbol() == spec_copy_symbol(ReflectionStage::Mesh),
    {
        NativeCall::ShaderReflectionCopyStageInfo {
            reflection: self.raw,
            stage: ReflectionStage::Mesh,
            version,
        }
    }

    /// Interpret the outcome of that call: the copied payload and the
    /// record identifier the shim assigned, or nothing if the native side
    /// reported that no such record exists. Absence is expected, not an
    /// error.
    pub fn mesh_info(&self, version: u32, copied: Option<(Vec<u8>, u64)>) -> (r: Option<IRVersionedMSInfo>)
        ensures
            r is Some <==> copied is Some,
            (match (r, copied) {
                (Some(info), Some((payload, id))) => {
                    &&& info.spec_version() == version
                    &&& info.spec_payload() == payload@
                    &&& info.spec_info_id() == id
                },
                _ => true,
            }),
    {
        match copied {
            Some((payload, id)) => Some(IRVersionedMSInfo {
                version,
                payload,
                info_id: id,
            }),
            None => None,
        }
    }

    /// The call that copies the amplification-stage record of this version,
    /// if the reflection has one.
    pub fn amplification_info_call(&self, version: u32) -> (c: NativeCall)
        ensures
            c == (NativeCall::ShaderReflectionCopyStageInfo {
                reflection: self.spec_raw(),
                stage: ReflectionStage::Amplification,
                version,
            }),
            c.symbol() == spec_copy_symbol(ReflectionStage::Amplification),
    {
        NativeCall::ShaderReflectionCopyStageInfo {
            reflection: self.raw,
            stage: ReflectionStage::Amplification,
            version,
        }
    }

    /// Interpret the outcome of that call: the copied payload and the
    /// record identifier the shim assigned, or nothing if the native side
    /// reported that no such record exists. Absence is expected, not an
    /// error.
    pub fn amplification_info(&self, version: u32, copied: Option<(Vec<u8>, u64)>) -> (r: Option<IRVersionedASInfo>)
        ensures
            r is Some <==> copied is Some,
            (match (r, copied) {
                (Some(info), Some((payload, id))) => {
                    &&& info.spec_version() == version
                    &&& info.spec_payload() == payload@
                    &&& info.spec_info_id() == id
                },
                _ => true,
            }),
    {
        match copied {
            Some((payload, id)) => Some(IRVersionedASInfo {
                version,
                payload,
                info_id: id,
            }),
            None => None,
        }
    }

    /// The call that copies the raytracing-stage record of this version,
    /// if the reflection has one.
    pub fn raytracing_info_call(&self, version: u32) -> (c: NativeCall)
        ensures
            c == (NativeCall::ShaderReflectionCopyStageInfo {
                reflection: self.spec_raw(),
                stage: ReflectionStage::Raytracing,
                version,
            }),
            c.symbol() == spec_copy_symbol(ReflectionStage::Raytracing),
    {
        NativeCall::ShaderReflectionCopyStageInfo {
            reflection: self.raw,
            stage: ReflectionStage::Raytracing,
            version,
        }
    }

    /// Interpret the outcome of that call: the copied payload and the
    /// record identifier the shim assigned, or nothing if the native side
    /// reported that no such record exists. Absence is expected, not an
    /// error.
    pub fn raytracing_info(&self, version: u32, copied: Option<(Vec<u8>, u64)>) -> (r: Option<IRVersionedRTInfo>)
        ensures
            r is Some <==> copied is Some,
            (match (r, copied) {
                (Some(info), Some((payload, id))) => {
                    &&& info.spec_version() == version
                    &&& info.spec_payload() == payload@
                    &&& info.spec_info_id() == id
                },
                _ => true,
            }),
    {
        match copied {
            Some((payload, id)) => Some(IRVersionedRTInfo {
                version,
                payload,
                info_id: id,
            }),
            None => None,
        }
    }
}

/// The compute-stage versioned reflection record. It can only be
/// released through the entry point paired with the accessor that copied it.
#[derive(Debug)]
pub struct IRVersionedCSInfo {
    version: u32,
    payload: IRCSInfo,
    info_id: u64,
}

impl IRVersionedCSInfo {
    /// Native code of the record's version.
    pub closed spec fn spec_version(&self) -> u32 {
        self.version
    }

    /// The copied payload.
    pub closed spec fn spec_payload(&self) -> IRCSInfo {
        self.payload
    }

    /// Identifier the shim assigned to the record when it was copied.
    pub closed spec fn spec_info_id(&self) -> u64 {
        self.info_id
    }

    /// Native code of the record's version.
    pub fn version(&self) -> (r: u32)
        ensures
            r == self.spec_version(),
    {
        self.version
    }

    /// Read the copied payload.
    pub fn payload(&self) -> (r: &IRCSInfo)
        ensures
            r == self.spec_payload(),
    {
        &self.payload
    }

    /// Consume the record and name the one call that must release it: the
    /// release entry point paired with the compute-stage accessor.
    pub fn release(self) -> (c: NativeCall)
        ensures
            c == (NativeCall::ShaderReflectionReleaseStageInfo {
                stage: ReflectionStage::Compute,
                info: self.spec_info_id(),
            }),
            c.symbol() == spec_release_symbol(ReflectionStage::Compute),
            Some(c.symbol()) == spec_paired_release(spec_copy_symbol(ReflectionStage::Compute)),
    {
        NativeCall::ShaderReflectionReleaseStageInfo {
            stage: ReflectionStage::Compute,
            info: self.info_id,
        }
    }
}

/// The vertex-stage versioned reflection record. It can only be
/// released through the entry point paired with the accessor that copied it.
#[derive(Debug)]
pub struct IRVersionedVSInfo {
    version: u32,
    payload: Vec<u8>,
    info_id: u64,
}

impl IRVersionedVSInfo {
    /// Native code of the record's version.
    pub closed spec fn spec_version(&self) -> u32 {
        self.version
    }

    /// The copied payload.
    pub closed spec fn spec_payload(&self) -> Seq<u8> {
        self.payload@
    }

    /// Identifier the shim assigned to the record when it was copied.
    pub closed spec fn spec_info_id(&self) -> u64 {
        self.info_id
    }

    /// Native code of the record's version.
    pub fn version(&self) -> (r: u32)
        ensures
            r == self.spec_version(),
    {
        self.version
    }

    /// Read the copied payload.
    pub fn payload(&self) -> (r: &Vec<u8>)
        ensures
            r@ == self.spec_payload(),
    {
        &self.payload
    }

    /// Consume the record and name the one call that must release it: the
    /// release entry point paired with the vertex-stage accessor.
    pub fn release(self) -> (c: NativeCall)
        ensures
            c == (NativeCall::ShaderReflectionReleaseStageInfo {
                stage: ReflectionStage::Vertex,
                info: self.spec_info_id(),
            }),
            c.symbol() == spec_release_symbol(ReflectionStage::Vertex),
            Some(c.symbol()) == spec_paired_release(spec_copy_symbol(ReflectionStage::Vertex)),
    {
        NativeCall::ShaderReflectionReleaseStageInfo {
            stage: ReflectionStage::Vertex,
            info: self.info_id,
        }
    }
}

/// The fragment-stage versioned reflection record. It can only be
/// released through the entry point paired with the accessor that copied it.
#[derive(Debug)]
pub struct IRVersionedFSInfo {
    version: u32,
    payload: Vec<u8>,
    info_id: u64,
}

impl IRVersionedFSInfo {
    /// Native code of the record's version.
    pub closed spec fn spec_version(&self) -> u32 {
        self.version
    }

    /// The copied payload.
    pub closed spec fn spec_payload(&self) -> Seq<u8> {
        self.payload@
    }

    /// Identifier the shim assigned to the record when it was copied.
    pub closed spec fn spec_info_id(&self) -> u64 {
        self.info_id
    }

    /// Native code of the record's version.
    pub fn version(&self) -> (r: u32)
        ensures
            r == self.spec_version(),
    {
        self.version
    }

    /// Read the copied payload.
    pub fn payload(&self) -> (r: &Vec<u8>)
        ensures
            r@ == self.spec_payload(),
    {
        &self.payload
    }

    /// Consume the record and name the one call that must release it: the
    /// release entry point paired with the fragment-stage accessor.
    pub fn release(self) -> (c: NativeCall)
        ensures
            c == (NativeCall::ShaderReflectionReleaseStageInfo {
                stage: ReflectionStage::Fragment,
                info: self.spec_info_id(),
            }),
            c.symbol() == spec_release_symbol(ReflectionStage::Fragment),
            Some(c.symbol()) == spec_paired_release(spec_copy_symbol(ReflectionStage::Fragment)),
    {
        NativeCall::ShaderReflectionReleaseStageInfo {
            stage: ReflectionStage::Fragment,
            info: self.info_id,
        }
    }
}

/// The geometry-stage versioned reflection record. It can only be
/// released through the entry point paired with the accessor that copied it.
#[derive(Debug)]
pub struct IRVersionedGSInfo {
    version: u32,
    payload: Vec<u8>,
    info_id: u64,
}

impl IRVersionedGSInfo {
    /// Native code of the record's version.
    pub closed spec fn spec_version(&self) -> u32 {
        self.version
    }

    /// The copied payload.
    pub closed spec fn spec_payload(&self) -> Seq<u8> {
        self.payload@
    }

    /// Identifier the shim assigned to the record when it was copied.
    pub closed spec fn spec_info_id(&self) -> u64 {
        self.info_id
    }

    /// Native code of the record's version.
    pub fn version(&self) -> (r: u32)
        ensures
            r == self.spec_version(),
    {
        self.version
    }

    /// Read the copied payload.
    pub fn payload(&self) -> (r: &Vec<u8>)
        ensures
            r@ == self.spec_payload(),
    {
        &self.payload
    }

    /// Consume the record and name the one call that must release it: the
    /// release entry point paired with the geometry-stage accessor.
    pub fn release(self) -> (c: NativeCall)
        ensures
            c == (NativeCall::ShaderReflectionReleaseStageInfo {
                stage: ReflectionStage::Geometry,
                info: self.spec_info_id(),
            }),
            c.symbol() == spec_release_symbol(ReflectionStage::Geometry),
            Some(c.symbol()) == spec_paired_release(spec_copy_symbol(ReflectionStage::Geometry)),
    {
        NativeCall::ShaderReflectionReleaseStageInfo {
            stage: ReflectionStage::Geometry,
            info: self.info_id,
        }
    }
}

/// The hull-stage versioned reflection record. It can only be
/// released through the entry point paired with the accessor that copied it.
#[derive(Debug)]
pub struct IRVersionedHSInfo {
    version: u32,
    payload: Vec<u8>,
    info_id: u64,
}

impl IRVersionedHSInfo {
    /// Native code of the record's version.
    pub closed spec fn spec_version(&self) -> u32 {
        self.version
    }

    /// The copied payload.
    pub closed spec fn spec_payload(&self) -> Seq<u8> {
        self.payload@
    }

    /// Identifier the shim assigned to the record when it was copied.
    pub closed spec fn spec_info_id(&self) -> u64 {
        self.info_id
    }

    /// Native code of the record's version.
    pub fn version(&self) -> (r: u32)
        ensures
            r == self.spec_version(),
    {
        self.version
    }

    /// Read the copied payload.
    pub fn payload(&self) -> (r: &Vec<u8>)
        ensures
            r@ == self.spec_payload(),
    {
        &self.payload
    }

    /// Consume the record and name the one call that must release it: the
    /// release entry point paired with the hull-stage accessor.
    pub fn release(self) -> (c: NativeCall)
        ensures
            c == (NativeCall::ShaderReflectionReleaseStageInfo {
                stage: ReflectionStage::Hull,
                info: self.spec_info_id(),
            }),
            c.symbol() == spec_release_symbol(ReflectionStage::Hull),
            Some(c.symbol()) == spec_paired_release(spec_copy_symbol(ReflectionStage::Hull)),
    {
        NativeCall::ShaderReflectionReleaseStageInfo {
            stage: ReflectionStage::Hull,
            info: self.info_id,
        }
    }
}

/// The domain-stage versioned reflection record. It can only be
/// released through the entry point paired with the accessor that copied it.
#[derive(Debug)]
pub struct IRVersionedDSInfo {
    version: u32,
    payload: Vec<u8>,
    info_id: u64,
}

impl IRVersionedDSInfo {
    /// Native code of the record's version.
    pub closed spec fn spec_version(&self) -> u32 {
        self.version
    }

    /// The copied payload.
    pub closed spec fn spec_payload(&self) -> Seq<u8> {
        self.payload@
    }

    /// Identifier the shim assigned to the record when it was copied.
    pub closed spec fn spec_info_id(&self) -> u64 {
        self.info_id
    }

    /// Native code of the record's version.
    pub fn version(&self) -> (r: u32)
        ensures
            r == self.spec_version(),
    {
        self.version
    }

    /// Read the copied payload.
    pub fn payload(&self) -> (r: &Vec<u8>)
        ensures
            r@ == self.spec_payload(),
    {
        &self.payload
    }

    /// Consume the record and name the one call that must release it: the
    /// release entry point paired with the domain-stage accessor.
    pub fn release(self) -> (c: NativeCall)
        ensures
            c == (NativeCall::ShaderReflectionReleaseStageInfo {
                stage: ReflectionStage::Domain,
                info: self.spec_info_id(),
            }),
            c.symbol() == spec_release_symbol(ReflectionStage::Domain),
            Some(c.symbol()) == spec_paired_release(spec_copy_symbol(ReflectionStage::Domain)),
    {
        NativeCall::ShaderReflectionReleaseStageInfo {
            stage: ReflectionStage::Domain,
            info: self.info_id,
        }
    }
}

/// The mesh-stage versioned reflection record. It can only be
/// released through the entry point paired with the accessor that copied it.
#[derive(Debug)]
pub struct IRVersionedMSInfo {
    version: u32,
    payload: Vec<u8>,
    info_id: u64,
}

impl IRVersionedMSInfo {
    /// Native code of the record's version.
    pub closed spec fn spec_version(&self) -> u32 {
        self.version
    }

    /// The copied payload.
    pub closed spec fn spec_payload(&self) -> Seq<u8> {
        self.payload@
    }

    /// Identifier the shim assigned to the record when it was copied.
    pub closed spec fn spec_info_id(&self) -> u64 {
        self.info_id
    }

    /// Native code of the record's version.
    pub fn version(&self) -> (r: u32)
        ensures
            r == self.spec_version(),
    {
        self.version
    }

    /// Read the copied payload.
    pub fn payload(&self) -> (r: &Vec<u8>)
        ensures
            r@ == self.spec_payload(),
    {
        &self.payload
    }

    /// Consume the record and name the one call that must release it: the
    /// release entry point paired with the mesh-stage accessor.
    pub fn release(self) -> (c: NativeCall)
        ensures
            c == (NativeCall::ShaderReflectionReleaseStageInfo {
                stage: ReflectionStage::Mesh,
                info: self.spec_info_id(),
            }),
            c.symbol() == spec_release_symbol(ReflectionStage::Mesh),
            Some(c.symbol()) == spec_paired_release(spec_copy_symbol(ReflectionStage::Mesh)),
    {
        NativeCall::ShaderReflectionReleaseStageInfo {
            stage: ReflectionStage::Mesh,
            info: self.info_id,
        }
    }
}

/// The amplification-stage versioned reflection record. It can only be
/// released through the entry point paired with the accessor that copied it.
#[derive(Debug)]
pub struct IRVersionedASInfo {
    version: u32,
    payload: Vec<u8>,
    info_id: u64,
}

impl IRVersionedASInfo {
    /// Native code of the record's version.
    pub closed spec fn spec_version(&self) -> u32 {
        self.version
    }

    /// The copied payload.
    pub closed spec fn spec_payload(&self) -> Seq<u8> {
        self.payload@
    }

    /// Identifier the shim assigned to the record when it was copied.
    pub closed spec fn spec_info_id(&self) -> u64 {
        self.info_id
    }

    /// Native code of the record's version.
    pub fn version(&self) -> (r: u32)
        ensures
            r == self.spec_version(),
    {
        self.version
    }

    /// Read the copied payload.
    pub fn payload(&self) -> (r: &Vec<u8>)
        ensures
            r@ == self.spec_payload(),
    {
        &self.payload
    }

    /// Consume the record and name the one call that must release it: the
    /// release entry point paired with the amplification-stage accessor.
    pub fn release(self) -> (c: NativeCall)
        ensures
            c == (NativeCall::ShaderReflectionReleaseStageInfo {
                stage: ReflectionStage::Amplification,
                info: self.spec_info_id(),
            }),
            c.symbol() == spec_release_symbol(ReflectionStage::Amplification),
            Some(c.symbol()) == spec_paired_release(spec_copy_symbol(ReflectionStage::Amplification)),
    {
        NativeCall::ShaderReflectionReleaseStageInfo {
            stage: ReflectionStage::Amplification,
            info: self.info_id,
        }
    }
}

/// The raytracing-stage versioned reflection record. It can only be
/// released through the entry point paired with the accessor that copied it.
#[derive(Debug)]
pub struct IRVersionedRTInfo {
    version: u32,
    payload: Vec<u8>,
    info_id: u64,
}

impl IRVersionedRTInfo {
    /// Native code of the record's version.
    pub closed spec fn spec_version(&self) -> u32 {
        self.version
    }

    /// The copied payload.
    pub closed spec fn spec_payload(&self) -> Seq<u8> {
        self.payload@
    }

    /// Identifier the shim assigned to the record when it was copied.
    pub closed spec fn spec_info_id(&self) -> u64 {
        self.info_id
    }

    /// Native code of the record's version.
    pub fn version(&self) -> (r: u32)
        ensures
            r == self.spec_version(),
    {
        self.version
    }

    /// Read the copied payload.
    pub fn payload(&self) -> (r: &Vec<u8>)
        ensures
            r@ == self.spec_payload(),
    {
        &self.payload
    }

    /// Consume the record and name the one call that must release it: the
    /// release entry point paired with the raytracing-stage accessor.
    pub fn release(self) -> (c: NativeCall)
        ensures
            c == (NativeCall::ShaderReflectionReleaseStageInfo {
                stage: ReflectionStage::Raytracing,
                info: self.spec_info_id(),
            }),
            c.symbol() == spec_release_symbol(ReflectionStage::Raytracing),
            Some(c.symbol()) == spec_paired_release(spec_copy_symbol(ReflectionStage::Raytracing)),
    {
        NativeCall::ShaderReflectionReleaseStageInfo {
            stage: ReflectionStage::Raytracing,
            info: self.info_id,
        }
    }
}

} // verus!
