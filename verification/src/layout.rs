//! Caller-built description of a vertex input layout.
//!
//! A stage-in function synthesized for a vertex stage needs the input layout:
//! up to a fixed number of elements, each with a semantic name and a packed
//! element record. The native layout holds two parallel fixed-size arrays;
//! here the layout is a pair of lists kept equal in length and within the
//! cap by construction.

use vstd::prelude::*;

verus! {

/// Largest number of elements an input layout can hold.
pub const MAX_INPUT_LAYOUT_ELEMENTS: usize = 31;

/// One element of a vertex input layout.
#[derive(Clone, Copy, Debug, PartialEq, Eq, Structural)]
pub struct IRInputElementDescriptor1 {
    /// Index distinguishing elements that share a semantic name.
    pub SemanticIndex: u32,
    /// Native format code of the element.
    pub Format: u32,
    /// Input slot the element is fetched from.
    pub InputSlot: u32,
    /// Byte offset of the element inside its slot.
    pub AlignedByteOffset: u32,
    /// Native classification code: per-vertex or per-instance data.
    pub InputSlotClass: u32,
    /// Instances drawn per step of per-instance data.
    pub InstanceDataStepRate: u32,
}

/// A vertex input layout: element records with their semantic names.
#[derive(Clone, Debug, PartialEq, Eq)]
pub struct IRInputLayoutDescriptor1 {
    semantic_names: Vec<Vec<u8>>,
    input_element_descs: Vec<IRInputElementDescriptor1>,
}

impl IRInputLayoutDescriptor1 {
    /// The semantic names, one per element, as bytes of their C strings.
    pub closed spec fn spec_semantic_names(&self) -> Seq<Seq<u8>> {
        self.semantic_names@.map_values(|v: Vec<u8>| v@)
    }

    /// The element records, one per element.
    pub closed spec fn spec_elements(&self) -> Seq<IRInputElementDescriptor1> {
        self.input_element_descs@
    }

    /// A layout always holds one name per element and at most
    /// [`MAX_INPUT_LAYOUT_ELEMENTS`] elements.
    pub open spec fn wf(&self) -> bool {
        &&& self.spec_semantic_names().len() == self.spec_elements().len()
        &&& self.spec_elements().len() <= MAX_INPUT_LAYOUT_ELEMENTS
    }

    /// Build a layout from names and element records.
    pub fn new(semantic_names: Vec<Vec<u8>>, input_element_descs: Vec<IRInputElementDescriptor1>) -> (r: Self)
        requires
            semantic_names@.len() == input_element_descs@.len(),
            semantic_names@.len() <= MAX_INPUT_LAYOUT_ELEMENTS,
        ensures
            r.wf(),
            r.spec_semantic_names() == semantic_names@.map_values(|v: Vec<u8>| v@),
            r.spec_elements() == input_element_descs@,
    {
        Self { semantic_names, input_element_descs }
    }

    /// Number of elements.
    pub fn num_elements(&self) -> (r: usize)
        ensures
            r == self.spec_elements().len(),
    {
        self.input_element_descs.len()
    }

    /// The semantic names, for lowering to the native layout.
    pub fn semantic_names(&self) -> (r: &Vec<Vec<u8>>)
        ensures
            r@.map_values(|v: Vec<u8>| v@) == self.spec_semantic_names(),
    {
        &self.semantic_names
    }

    /// The element records, for lowering to the native layout.
    pub fn input_element_descs(&self) -> (r: &Vec<IRInputElementDescriptor1>)
        ensures
            r@ == self.spec_elements(),
    {
        &self.input_element_descs
    }

    /// Tag this layout with its version.
    pub fn versioned(self) -> (r: IRVersionedInputLayoutDescriptor)
        ensures
            r == IRVersionedInputLayoutDescriptor::Descriptor1(self),
    {
        IRVersionedInputLayoutDescriptor::Descriptor1(self)
    }
}

/// A version-tagged vertex input layout.
#[derive(Clone, Debug, PartialEq, Eq)]
pub enum IRVersionedInputLayoutDescriptor {
    /// The first descriptor layout.
    Descriptor1(IRInputLayoutDescriptor1),
}

} // verus!
