//! Bit-exact encoders for descriptor-table entries.
//!
//! A descriptor-table entry is a 24-byte record (three 8-byte words) that a
//! translated shader reads to locate one bound resource. The layout is a fixed
//! wire contract with the GPU shader ABI: every constructor pins all three
//! words exactly, and the metadata word of a buffer view packs the buffer size,
//! the texture-view element offset and the typed-buffer flag at fixed bit
//! positions.

use vstd::prelude::*;

verus! {

/// Bit offset of the buffer size inside a buffer view's metadata word.
pub const kIRBufSizeOffset: u64 = 0;
/// Mask of the buffer size inside a buffer view's metadata word.
pub const kIRBufSizeMask: u64 = 0xFFFF_FFFF;
/// Bit offset of the texture-view element offset inside the metadata word.
pub const kIRTexViewOffset: u64 = 32;
/// Mask of the texture-view element offset inside the metadata word.
pub const kIRTexViewMask: u64 = 0xFF;
/// Bit position of the typed-buffer flag inside the metadata word.
pub const kIRTypedBufferOffset: u64 = 63;

/// One descriptor-table entry: three 8-byte words, written verbatim into
/// GPU-visible argument-buffer memory.
#[derive(Clone, Copy, Debug, PartialEq, Eq, Structural)]
pub struct IRDescriptorTableEntry {
    /// GPU virtual address of the bound resource, where one applies.
    pub gpuVA: u64,
    /// GPU resource id of the bound texture view, where one applies.
    pub textureViewID: u64,
    /// Packed metadata word.
    pub metadata: u64,
}

/// A buffer binding described by plain values: the buffer by its GPU address,
/// an optional texture view over it by its GPU resource id.
#[derive(Clone, Copy, Debug, PartialEq, Eq, Structural)]
pub struct BufferView {
    /// GPU address of the start of the buffer.
    pub buffer_gpu_address: u64,
    /// Byte offset of the viewed range inside the buffer.
    pub buffer_offset: u64,
    /// Size in bytes of the viewed range.
    pub buffer_size: u64,
    /// GPU resource id of a texture view over the buffer, if one is attached.
    pub texture_buffer_view: Option<u64>,
    /// Offset of the texture view into the buffer, in elements.
    pub texture_view_offset_in_elements: u32,
    /// Whether the buffer is a typed buffer.
    pub typed_buffer: bool,
}

/// The packed metadata word of a buffer view: bits [0, 32) hold the buffer
/// size, bits [32, 40) the texture-view element offset, bit 63 the
/// typed-buffer flag.
pub open spec fn buffer_view_metadata(buffer_size: u64, texture_view_offset_in_elements: u32, typed_buffer: bool) -> u64 {
    ((buffer_size & kIRBufSizeMask) << kIRBufSizeOffset)
        | (((texture_view_offset_in_elements as u64) & kIRTexViewMask) << kIRTexViewOffset)
        | ((if typed_buffer { 1u64 } else { 0u64 }) << kIRTypedBufferOffset)
}

/// The GPU resource id stored in the texture-view word of a buffer view's
/// entry: the id if a texture view is attached, zero otherwise.
pub open spec fn texture_view_word(texture_buffer_view: Option<u64>) -> u64 {
    match texture_buffer_view {
        Some(id) => id,
        None => 0,
    }
}

impl IRDescriptorTableEntry {
    /// Encode a buffer descriptor from its GPU address and a caller-packed
    /// metadata word.
    pub fn buffer(gpu_address: u64, metadata: u64) -> (r: Self)
        ensures
            r.gpuVA == gpu_address,
            r.textureViewID == 0,
            r.metadata == metadata,
    {
        Self { gpuVA: gpu_address, textureViewID: 0, metadata }
    }

    /// Encode a buffer view descriptor: address word is the buffer address
    /// plus the view's offset, texture word is the attached view's id or zero,
    /// metadata is packed by [`buffer_view_metadata`].
    pub fn buffer_view(view: &BufferView) -> (r: Self)
        requires
            view.buffer_gpu_address + view.buffer_offset <= u64::MAX,
        ensures
            r.gpuVA == view.buffer_gpu_address + view.buffer_offset,
            r.textureViewID == texture_view_word(view.texture_buffer_view),
            r.metadata == buffer_view_metadata(
                view.buffer_size,
                view.texture_view_offset_in_elements,
                view.typed_buffer,
            ),
    {
        Self {
            gpuVA: view.buffer_gpu_address + view.buffer_offset,
            textureViewID: match view.texture_buffer_view {
                Some(id) => id,
                None => 0,
            },
            metadata: Self::buffer_metadata(view),
        }
    }

    /// Encode a texture descriptor from the texture's GPU resource id and the
    /// raw bit pattern of its minimum level-of-detail clamp. The upper 32 bits
    /// of the metadata word are reserved and left zero.
    pub fn texture(gpu_resource_id: u64, min_lod_clamp_bits: u32) -> (r: Self)
        ensures
            r.gpuVA == 0,
            r.textureViewID == gpu_resource_id,
            r.metadata == min_lod_clamp_bits as u64,
    {
        Self {
            gpuVA: 0,
            textureViewID: gpu_resource_id,
            metadata: min_lod_clamp_bits as u64,
        }
    }

    /// Encode a sampler descriptor from the sampler's GPU resource id and the
    /// raw bit pattern of its level-of-detail bias.
    pub fn sampler(gpu_resource_id: u64, lod_bias_bits: u32) -> (r: Self)
        ensures
            r.gpuVA == gpu_resource_id,
            r.textureViewID == 0,
            r.metadata == lod_bias_bits as u64,
    {
        Self {
            gpuVA: gpu_resource_id,
            textureViewID: 0,
            metadata: lod_bias_bits as u64,
        }
    }

    /// Encode an acceleration-structure descriptor from its GPU address.
    pub fn acceleration_structure(gpu_address: u64) -> (r: Self)
        ensures
            r.gpuVA == gpu_address,
            r.textureViewID == 0,
            r.metadata == 0,
    {
        Self { gpuVA: gpu_address, textureViewID: 0, metadata: 0 }
    }

    /// Pack the metadata word for a buffer view.
    pub fn buffer_metadata(view: &BufferView) -> (r: u64)
        ensures
            r == buffer_view_metadata(
                view.buffer_size,
                view.texture_view_offset_in_elements,
                view.typed_buffer,
            ),
    {
        let mut metadata: u64 = (view.buffer_size & kIRBufSizeMask) << kIRBufSizeOffset;
        metadata = metadata | (((view.texture_view_offset_in_elements as u64) & kIRTexViewMask) << kIRTexViewOffset);
        metadata = metadata | ((if view.typed_buffer { 1u64 } else { 0u64 }) << kIRTypedBufferOffset);
        metadata
    }
}

/// Packing the metadata word and unpacking it again returns exactly the
/// packed fields: the buffer size truncated to 32 bits at bit 0, the
/// texture-view element offset truncated to 8 bits at bit 32, and the
/// typed-buffer flag at bit 63.
pub proof fn lemma_buffer_metadata_roundtrip(buffer_size: u64, texture_view_offset_in_elements: u32, typed_buffer: bool)
    ensures
        buffer_view_metadata(buffer_size, texture_view_offset_in_elements, typed_buffer) & 0xFFFF_FFFF
            == buffer_size & 0xFFFF_FFFF,
        (buffer_view_metadata(buffer_size, texture_view_offset_in_elements, typed_buffer) >> 32) & 0xFF
            == (texture_view_offset_in_elements as u64) & 0xFF,
        (buffer_view_metadata(buffer_size, texture_view_offset_in_elements, typed_buffer) >> 63)
            == (if typed_buffer { 1u64 } else { 0u64 }),
{
    let t: u64 = if typed_buffer { 1u64 } else { 0u64 };
    let m = buffer_view_metadata(buffer_size, texture_view_offset_in_elements, typed_buffer);
    assert(
        m == ((buffer_size & 0xFFFF_FFFF) << 0)
            | (((texture_view_offset_in_elements as u64) & 0xFF) << 32)
            | (t << 63)
    );
    assert({
        let p = ((buffer_size & 0xFFFF_FFFF) << 0)
            | (((texture_view_offset_in_elements as u64) & 0xFF) << 32)
            | (t << 63);
        &&& p & 0xFFFF_FFFF == buffer_size & 0xFFFF_FFFF
        &&& (p >> 32) & 0xFF == (texture_view_offset_in_elements as u64) & 0xFF
        &&& t <= 1 ==> (p >> 63) == t
    }) by (bit_vector);
}

} // verus!
