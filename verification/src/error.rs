//! Translation of native error objects.
//!
//! A failed native call hands back an opaque error handle. The shim reads the
//! numeric code and the diagnostic payload out of it; the verified layer maps
//! the code onto the closed taxonomy below. A wrapped error can only exist
//! with its payload already read, so the payload is always read before the
//! native object is destroyed; and the destroy call is only reachable by
//! consuming the wrapper.

use vstd::prelude::*;

use crate::calls::NativeCall;

verus! {

/// The closed taxonomy of native error codes.
#[derive(Clone, Copy, Debug, PartialEq, Eq, Structural)]
pub enum IRErrorCode {
    /// No error.
    NoError,
    /// The shader requires a root signature.
    ShaderRequiresRootSignature,
    /// The root-signature descriptor was not recognized.
    UnrecognizedRootSignatureDescriptor,
    /// A parameter type in the root signature was not recognized.
    UnrecognizedParameterTypeInRootSignature,
    /// A resource is not referenced by the root signature.
    ResourceNotReferencedByRootSignature,
    /// The shader is incompatible with dual-source blending.
    ShaderIncompatibleWithDualSourceBlending,
    /// The wave size is unsupported.
    UnsupportedWaveSize,
    /// An instruction is unsupported.
    UnsupportedInstruction,
    /// Compilation failed.
    CompilationError,
    /// A stage-in function could not be synthesized.
    FailedToSynthesizeStageInFunction,
    /// A stream-out function could not be synthesized.
    FailedToSynthesizeStreamOutFunction,
    /// An indirect intersection function could not be synthesized.
    FailedToSynthesizeIndirectIntersectionFunction,
    /// The module could not be verified.
    UnableToVerifyModule,
    /// The module could not be linked.
    UnableToLinkModule,
    /// The input bytecode header was not recognized.
    UnrecognizedDXILHeader,
    /// A ray-tracing attribute is invalid.
    InvalidRaytracingAttribute,
    /// An unknown failure.
    Unknown,
}

/// The numeric value of each error code in the native ABI.
pub open spec fn spec_error_code_value(c: IRErrorCode) -> u32 {
    match c {
        IRErrorCode::NoError => 0,
        IRErrorCode::ShaderRequiresRootSignature => 1,
        IRErrorCode::UnrecognizedRootSignatureDescriptor => 2,
        IRErrorCode::UnrecognizedParameterTypeInRootSignature => 3,
        IRErrorCode::ResourceNotReferencedByRootSignature => 4,
        IRErrorCode::ShaderIncompatibleWithDualSourceBlending => 5,
        IRErrorCode::UnsupportedWaveSize => 6,
        IRErrorCode::UnsupportedInstruction => 7,
        IRErrorCode::CompilationError => 8,
        IRErrorCode::FailedToSynthesizeStageInFunction => 9,
        IRErrorCode::FailedToSynthesizeStreamOutFunction => 10,
        IRErrorCode::FailedToSynthesizeIndirectIntersectionFunction => 11,
        IRErrorCode::UnableToVerifyModule => 12,
        IRErrorCode::UnableToLinkModule => 13,
        IRErrorCode::UnrecognizedDXILHeader => 14,
        IRErrorCode::InvalidRaytracingAttribute => 15,
        IRErrorCode::Unknown => 16,
    }
}

impl IRErrorCode {
    /// The numeric value of this code in the native ABI.
    pub fn value(self) -> (r: u32)
        ensures
            r == spec_error_code_value(self),
    {
        match self {
            IRErrorCode::NoError => 0,
            IRErrorCode::ShaderRequiresRootSignature => 1,
            IRErrorCode::UnrecognizedRootSignatureDescriptor => 2,
            IRErrorCode::UnrecognizedParameterTypeInRootSignature => 3,
            IRErrorCode::ResourceNotReferencedByRootSignature => 4,
            IRErrorCode::ShaderIncompatibleWithDualSourceBlending => 5,
            IRErrorCode::UnsupportedWaveSize => 6,
            IRErrorCode::UnsupportedInstruction => 7,
            IRErrorCode::CompilationError => 8,
            IRErrorCode::FailedToSynthesizeStageInFunction => 9,
            IRErrorCode::FailedToSynthesizeStreamOutFunction => 10,
            IRErrorCode::FailedToSynthesizeIndirectIntersectionFunction => 11,
            IRErrorCode::UnableToVerifyModule => 12,
            IRErrorCode::UnableToLinkModule => 13,
            IRErrorCode::UnrecognizedDXILHeader => 14,
            IRErrorCode::InvalidRaytracingAttribute => 15,
            IRErrorCode::Unknown => 16,
        }
    }

    /// The error code with a given numeric value. Every value up to and
    /// including [`IRErrorCode::Unknown`]'s maps to exactly one code; any
    /// other value is an ABI mismatch with the native library and maps to
    /// nothing.
    pub fn from_raw(raw: u32) -> (r: Option<IRErrorCode>)
        ensures
            r is Some <==> raw <= spec_error_code_value(IRErrorCode::Unknown),
            (match r {
                Some(c) => spec_error_code_value(c) == raw,
                None => true,
            }),
    {
        match raw {
            0 => Some(IRErrorCode::NoError),
            1 => Some(IRErrorCode::ShaderRequiresRootSignature),
            2 => Some(IRErrorCode::UnrecognizedRootSignatureDescriptor),
            3 => Some(IRErrorCode::UnrecognizedParameterTypeInRootSignature),
            4 => Some(IRErrorCode::ResourceNotReferencedByRootSignature),
            5 => Some(IRErrorCode::ShaderIncompatibleWithDualSourceBlending),
            6 => Some(IRErrorCode::UnsupportedWaveSize),
            7 => Some(IRErrorCode::UnsupportedInstruction),
            8 => Some(IRErrorCode::CompilationError),
            9 => Some(IRErrorCode::FailedToSynthesizeStageInFunction),
            10 => Some(IRErrorCode::FailedToSynthesizeStreamOutFunction),
            11 => Some(IRErrorCode::FailedToSynthesizeIndirectIntersectionFunction),
            12 => Some(IRErrorCode::UnableToVerifyModule),
            13 => Some(IRErrorCode::UnableToLinkModule),
            14 => Some(IRErrorCode::UnrecognizedDXILHeader),
            15 => Some(IRErrorCode::InvalidRaytracingAttribute),
            16 => Some(IRErrorCode::Unknown),
            _ => None,
        }
    }
}

/// A wrapped native error: its translated code and its diagnostic payload,
/// read before wrapping, plus the handle that still has to be destroyed.
#[derive(Debug)]
pub struct IRError {
    raw: u64,
    code: IRErrorCode,
    payload: Vec<u8>,
}

impl IRError {
    /// The raw native handle.
    pub closed spec fn spec_raw(&self) -> u64 {
        self.raw
    }

    /// The translated code.
    pub closed spec fn spec_code(&self) -> IRErrorCode {
        self.code
    }

    /// The diagnostic payload.
    pub closed spec fn spec_payload(&self) -> Seq<u8> {
        self.payload@
    }

    /// The call that reads an error's numeric code.
    pub fn code_call(raw: u64) -> (c: NativeCall)
        requires
            raw != 0,
        ensures
            c == (NativeCall::ErrorGetCode { error: raw }),
    {
        NativeCall::ErrorGetCode { error: raw }
    }

    /// The call that reads an error's diagnostic payload.
    pub fn payload_call(raw: u64) -> (c: NativeCall)
        requires
            raw != 0,
        ensures
            c == (NativeCall::ErrorGetPayload { error: raw }),
    {
        NativeCall::ErrorGetPayload { error: raw }
    }

    /// Wrap a native error from its handle, its numeric code and its payload.
    /// A code outside the taxonomy is an ABI mismatch with the native
    /// library: nothing is wrapped, and the caller must treat the fault as
    /// fatal.
    pub fn wrap(raw: u64, raw_code: u32, payload: Vec<u8>) -> (r: Option<IRError>)
        requires
            raw != 0,
        ensures
            r is Some <==> raw_code <= spec_error_code_value(IRErrorCode::Unknown),
            (match r {
                Some(e) => {
                    &&& e.spec_raw() == raw
                    &&& spec_error_code_value(e.spec_code()) == raw_code
                    &&& e.spec_payload() == payload@
                },
                None => true,
            }),
    {
        match IRErrorCode::from_raw(raw_code) {
            Some(code) => Some(IRError { raw, code, payload }),
            None => None,
        }
    }

    /// The translated code.
    pub fn code(&self) -> (r: IRErrorCode)
        ensures
            r == self.spec_code(),
    {
        self.code
    }

    /// The diagnostic payload, as the bytes of the native C string.
    pub fn payload(&self) -> (r: &Vec<u8>)
        ensures
            r@ == self.spec_payload(),
    {
        &self.payload
    }

    /// Consume the wrapper and name the one call that must destroy the
    /// native error.
    pub fn release(self) -> (c: NativeCall)
        ensures
            c == (NativeCall::ErrorDestroy { error: self.spec_raw() }),
    {
        NativeCall::ErrorDestroy { error: self.raw }
    }
}

} // verus!
