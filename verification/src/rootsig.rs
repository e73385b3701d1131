//! Caller-built description of a root signature.
//!
//! A root signature declares how shader-visible resources are bound: a list
//! of binding parameters, a list of static samplers, and flags. The
//! description here is a plain value; the unverified shim lowers it to the
//! native layout for the one call that consumes it, and the native side never
//! keeps a reference to it past that call.

use vstd::prelude::*;

verus! {

/// A run of root constants: 32-bit values bound directly through the root
/// signature.
#[derive(Clone, Copy, Debug, PartialEq, Eq, Structural)]
pub struct IRRootConstants {
    /// Register space of the constants.
    pub RegisterSpace: u32,
    /// First shader register of the constants.
    pub ShaderRegister: u32,
    /// Number of 32-bit values.
    pub Num32BitValues: u32,
}

/// One range of a descriptor table.
#[derive(Clone, Copy, Debug, PartialEq, Eq, Structural)]
pub struct IRDescriptorRange1 {
    /// Native code of the range kind.
    pub RangeType: u32,
    /// Number of descriptors in the range.
    pub NumDescriptors: u32,
    /// First shader register of the range.
    pub BaseShaderRegister: u32,
    /// Register space of the range.
    pub RegisterSpace: u32,
    /// Native range flags.
    pub Flags: u32,
    /// Offset of the range from the start of the table, in descriptors.
    pub OffsetInDescriptorsFromTableStart: u32,
}

/// One root descriptor: a single buffer view bound directly through the root
/// signature.
#[derive(Clone, Copy, Debug, PartialEq, Eq, Structural)]
pub struct IRRootDescriptor1 {
    /// Shader register of the descriptor.
    pub ShaderRegister: u32,
    /// Register space of the descriptor.
    pub RegisterSpace: u32,
    /// Native descriptor flags.
    pub Flags: u32,
}

/// Payload of one root parameter; the variant is the parameter's type.
#[derive(Clone, Debug, PartialEq, Eq)]
pub enum IRRootParameterData {
    /// A descriptor table of one or more ranges.
    DescriptorTable(Vec<IRDescriptorRange1>),
    /// Root constants.
    Constants(IRRootConstants),
    /// A root constant-buffer view.
    Cbv(IRRootDescriptor1),
    /// A root shader-resource view.
    Srv(IRRootDescriptor1),
    /// A root unordered-access view.
    Uav(IRRootDescriptor1),
}

impl IRRootParameterData {
    /// The native parameter-type code of this payload.
    pub fn parameter_type_code(&self) -> (r: u32)
        ensures
            r == match self {
                IRRootParameterData::DescriptorTable(_) => 0u32,
                IRRootParameterData::Constants(_) => 1u32,
                IRRootParameterData::Cbv(_) => 2u32,
                IRRootParameterData::Srv(_) => 3u32,
                IRRootParameterData::Uav(_) => 4u32,
            },
    {
        match self {
            IRRootParameterData::DescriptorTable(_) => 0,
            IRRootParameterData::Constants(_) => 1,
            IRRootParameterData::Cbv(_) => 2,
            IRRootParameterData::Srv(_) => 3,
            IRRootParameterData::Uav(_) => 4,
        }
    }
}

/// One root parameter of a v1.1 root signature.
#[derive(Clone, Debug, PartialEq, Eq)]
pub struct IRRootParameter1 {
    /// Native code of the shader stages that see the parameter.
    pub ShaderVisibility: u32,
    /// The parameter's payload, which also fixes its type.
    pub data: IRRootParameterData,
}

/// One static sampler of a root signature. The level-of-detail fields carry
/// the raw bit patterns of their f32 values.
#[derive(Clone, Copy, Debug, PartialEq, Eq, Structural)]
pub struct IRStaticSamplerDescriptor {
    /// Native filter code.
    pub Filter: u32,
    /// Native address mode along U.
    pub AddressU: u32,
    /// Native address mode along V.
    pub AddressV: u32,
    /// Native address mode along W.
    pub AddressW: u32,
    /// Raw bit pattern of the mip level-of-detail bias.
    pub MipLODBiasBits: u32,
    /// Maximum anisotropy.
    pub MaxAnisotropy: u32,
    /// Native comparison function code.
    pub ComparisonFunc: u32,
    /// Native static border color code.
    pub BorderColor: u32,
    /// Raw bit pattern of the minimum level of detail.
    pub MinLODBits: u32,
    /// Raw bit pattern of the maximum level of detail.
    pub MaxLODBits: u32,
    /// Shader register of the sampler.
    pub ShaderRegister: u32,
    /// Register space of the sampler.
    pub RegisterSpace: u32,
    /// Native code of the shader stages that see the sampler.
    pub ShaderVisibility: u32,
}

/// A v1.1 root-signature description: parameters, static samplers, flags.
#[derive(Clone, Debug, PartialEq, Eq)]
pub struct IRRootSignatureDescriptor1 {
    /// Native root-signature flags.
    pub Flags: u32,
    /// The root parameters, in binding order.
    pub parameters: Vec<IRRootParameter1>,
    /// The static samplers, in binding order.
    pub static_samplers: Vec<IRStaticSamplerDescriptor>,
}

/// A version-tagged root-signature description.
#[derive(Clone, Debug, PartialEq, Eq)]
pub enum IRVersionedRootSignatureDescriptor {
    /// The v1.1 layout.
    Descriptor1_1(IRRootSignatureDescriptor1),
}

/// Location of one resource referenced by a root signature, as the native
/// side reports it back.
#[derive(Clone, Debug, PartialEq, Eq)]
pub struct IRResourceLocation {
    /// Native code of the resource kind.
    pub resourceType: u32,
    /// Register space of the resource.
    pub space: u32,
    /// Slot of the resource.
    pub slot: u32,
    /// Offset of the resource in the top-level argument buffer.
    pub topLevelOffset: u64,
    /// Size of the resource's entry in bytes.
    pub sizeBytes: u64,
    /// Name of the resource, as bytes of its C string.
    pub resourceName: Vec<u8>,
}

} // verus!
