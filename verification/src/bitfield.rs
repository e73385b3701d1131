//! A little-endian bitfield unit over a run of bytes.
//!
//! Packed native records address their fields by bit offset and bit width
//! inside a byte array. This unit reads and writes single bits and bit runs of
//! up to 64 bits, with the first bit of each byte being its least significant
//! bit.

use vstd::prelude::*;

verus! {

/// Bit `i` of a byte sequence, counting from the least significant bit of the
/// first byte.
pub open spec fn byte_bit(s: Seq<u8>, i: int) -> bool {
    ((s[i / 8] as u64) >> ((i % 8) as u64)) & 1 == 1
}

/// Bit `j` of a 64-bit word, counting from the least significant bit.
pub open spec fn u64_bit(v: u64, j: int) -> bool {
    (v >> (j as u64)) & 1 == 1
}

/// Setting bit `i` of a word leaves every other bit as it was.
proof fn lemma_u64_or_bit(v: u64, i: u64, j: u64)
    by (bit_vector)
    requires
        i < 64,
        j < 64,
    ensures
        ((v | (1u64 << i)) >> j) & 1 == 1 <==> (j == i || (v >> j) & 1 == 1),
{
}

/// No bit of the zero word is set.
proof fn lemma_u64_zero_bits(j: u64)
    by (bit_vector)
    requires
        j < 64,
    ensures
        (0u64 >> j) & 1 != 1,
{
}

/// A fixed-layout run of bytes addressed bit by bit.
#[derive(Debug)]
pub struct __BindgenBitfieldUnit {
    storage: Vec<u8>,
}

impl __BindgenBitfieldUnit {
    /// Number of storage bytes.
    pub closed spec fn spec_len(&self) -> nat {
        self.storage@.len()
    }

    /// Bit `i` of the storage, little-endian within each byte.
    pub closed spec fn spec_bit(&self, i: int) -> bool {
        byte_bit(self.storage@, i)
    }

    /// Wrap a byte run.
    pub fn new(storage: Vec<u8>) -> (r: Self)
        ensures
            r.spec_len() == storage@.len(),
            forall|i: int| 0 <= i < 8 * storage@.len() ==> r.spec_bit(i) == byte_bit(storage@, i),
    {
        Self { storage }
    }

    /// Bit `index % 8` of a single byte.
    fn extract_bit(byte: u8, index: usize) -> (r: bool)
        ensures
            r == (((byte as u64) >> ((index % 8) as u64)) & 1 == 1),
    {
        let bit_index: usize = index % 8;
        let mask: u8 = 1u8 << bit_index;
        let r = byte & mask == mask;
        proof {
            let bi = bit_index as u64;
            assert(byte & (1u8 << (bi as u8) as u8) == (1u8 << (bi as u8) as u8)
                <==> ((byte as u64) >> bi) & 1 == 1) by (bit_vector)
                requires bi < 8;
            assert(mask == 1u8 << (bi as u8) as u8);
        }
        r
    }

    /// Read one bit.
    pub fn get_bit(&self, index: usize) -> (r: bool)
        requires
            index / 8 < self.spec_len(),
        ensures
            r == self.spec_bit(index as int),
    {
        let byte_index: usize = index / 8;
        let byte: u8 = self.storage[byte_index];
        Self::extract_bit(byte, index)
    }

    /// A byte with bit `index % 8` forced to `val` and every other bit kept.
    fn change_bit(byte: u8, index: usize, val: bool) -> (r: u8)
        ensures
            forall|k: int| 0 <= k < 8 ==> #[trigger] (((r as u64) >> (k as u64)) & 1)
                == (if k == index % 8 { if val { 1u64 } else { 0u64 } } else { ((byte as u64) >> (k as u64)) & 1 }),
    {
        let bit_index: usize = index % 8;
        let mask: u8 = 1u8 << bit_index;
        let r = if val { byte | mask } else { byte & !mask };
        proof {
            let bi = bit_index as u64;
            assert(forall|k: u64| k < 8 ==> #[trigger] (((byte | (1u8 << (bi as u8) as u8)) as u64 >> k) & 1)
                == (if k == bi { 1u64 } else { ((byte as u64) >> k) & 1 })) by (bit_vector)
                requires bi < 8;
            assert(forall|k: u64| k < 8 ==> #[trigger] (((byte & !(1u8 << (bi as u8) as u8)) as u64 >> k) & 1)
                == (if k == bi { 0u64 } else { ((byte as u64) >> k) & 1 })) by (bit_vector)
                requires bi < 8;
            assert(mask == 1u8 << (bi as u8) as u8);
            assert forall|k: int| 0 <= k < 8 implies #[trigger] (((r as u64) >> (k as u64)) & 1)
                == (if k == index % 8 { if val { 1u64 } else { 0u64 } } else { ((byte as u64) >> (k as u64)) & 1 }) by {
                assert((k as u64) < 8);
            };
        }
        r
    }

    /// Write one bit, leaving every other bit and the length unchanged.
    pub fn set_bit(&mut self, index: usize, val: bool)
        requires
            index / 8 < old(self).spec_len(),
        ensures
            final(self).spec_len() == old(self).spec_len(),
            final(self).spec_bit(index as int) == val,
            forall|j: int| 0 <= j < 8 * old(self).spec_len() && j != index
                ==> final(self).spec_bit(j) == old(self).spec_bit(j),
    {
        let byte_index: usize = index / 8;
        let byte: u8 = self.storage[byte_index];
        let changed = Self::change_bit(byte, index, val);
        self.storage.set(byte_index, changed);
        proof {
            let s_old = old(self).storage@;
            let s_new = self.storage@;
            assert forall|j: int| 0 <= j < 8 * s_old.len() implies
                #[trigger] byte_bit(s_new, j) == (if j == index { val } else { byte_bit(s_old, j) }) by {
                vstd::arithmetic::div_mod::lemma_fundamental_div_mod(j, 8);
                vstd::arithmetic::div_mod::lemma_fundamental_div_mod(index as int, 8);
                if j / 8 == byte_index {
                    assert(s_new[j / 8] == changed);
                    assert(j == index <==> j % 8 == index % 8);
                } else {
                    assert(s_new[j / 8] == s_old[j / 8]);
                    assert(j != index);
                }
            };
        }
    }

    /// Read `bit_width` bits starting at `bit_offset` into the low bits of a
    /// word; the remaining high bits of the result are zero.
    pub fn get(&self, bit_offset: usize, bit_width: u8) -> (r: u64)
        requires
            bit_width <= 64,
            bit_offset + bit_width <= usize::MAX,
            bit_offset + bit_width <= 8 * self.spec_len(),
        ensures
            forall|j: int| 0 <= j < bit_width ==> u64_bit(r, j) == self.spec_bit(bit_offset + j),
            forall|j: int| bit_width <= j < 64 ==> !u64_bit(r, j),
    {
        let mut val: u64 = 0;
        proof {
            assert forall|j: int| 0 <= j < 64 implies !u64_bit(0u64, j) by {
                lemma_u64_zero_bits(j as u64);
            };
        }
        let mut i: usize = 0;
        while i < bit_width as usize
            invariant
                i <= bit_width <= 64,
                bit_offset + bit_width <= usize::MAX,
                bit_offset + bit_width <= 8 * self.spec_len(),
                forall|j: int| 0 <= j < i ==> u64_bit(val, j) == self.spec_bit(bit_offset + j),
                forall|j: int| i <= j < 64 ==> !u64_bit(val, j),
            decreases bit_width - i,
        {
            let set_here = self.get_bit(i + bit_offset);
            let ghost val_before = val;
            if set_here {
                val = val | (1u64 << (i as u64));
            }
            proof {
                assert forall|j: int| 0 <= j < 64 implies
                    #[trigger] u64_bit(val, j) == (if j == i { set_here } else { u64_bit(val_before, j) }) by {
                    if set_here {
                        lemma_u64_or_bit(val_before, i as u64, j as u64);
                    } else {
                        if j == i {
                            assert(!u64_bit(val_before, j));
                        }
                    }
                };
            }
            i += 1;
        }
        val
    }

    /// Write the low `bit_width` bits of `val` at `bit_offset`, leaving every
    /// bit outside that window and the length unchanged.
    pub fn set(&mut self, bit_offset: usize, bit_width: u8, val: u64)
        requires
            bit_width <= 64,
            bit_offset + bit_width <= usize::MAX,
            bit_offset + bit_width <= 8 * old(self).spec_len(),
        ensures
            final(self).spec_len() == old(self).spec_len(),
            forall|j: int| 0 <= j < bit_width
                ==> final(self).spec_bit(bit_offset + j) == u64_bit(val, j),
            forall|j: int| 0 <= j < 8 * old(self).spec_len()
                && !(bit_offset <= j < bit_offset + bit_width)
                ==> final(self).spec_bit(j) == old(self).spec_bit(j),
    {
        let mut i: usize = 0;
        while i < bit_width as usize
            invariant
                i <= bit_width <= 64,
                bit_offset + bit_width <= usize::MAX,
                bit_offset + bit_width <= 8 * old(self).spec_len(),
                self.spec_len() == old(self).spec_len(),
                forall|j: int| 0 <= j < i ==> self.spec_bit(bit_offset + j) == u64_bit(val, j),
                forall|j: int| 0 <= j < 8 * old(self).spec_len()
                    && !(bit_offset <= j < bit_offset + i)
                    ==> self.spec_bit(j) == old(self).spec_bit(j),
            decreases bit_width - i,
        {
            let mask: u64 = 1u64 << (i as u64);
            let val_bit_is_set: bool = val & mask == mask;
            proof {
                assert(val & (1u64 << (i as u64)) == (1u64 << (i as u64))
                    <==> (val >> (i as u64)) & 1 == 1) by (bit_vector)
                    requires (i as u64) < 64;
            }
            self.set_bit(i + bit_offset, val_bit_is_set);
            i += 1;
        }
    }
}

/// Pack the bitfield word of a ray-tracing instance descriptor: the
/// instance id at bit 0 over 24 bits, the instance mask at bit 24 over 8,
/// the hit-group contribution at bit 32 over 24, and the flags at bit 56
/// over 8, each truncated to its width.
pub fn new_bitfield_1(
    InstanceID: u32,
    InstanceMask: u32,
    InstanceContributionToHitGroupIndex: u32,
    Flags: u32,
) -> (r: __BindgenBitfieldUnit)
    ensures
        r.spec_len() == 8,
        forall|j: int| 0 <= j < 24 ==> r.spec_bit(j) == u64_bit(InstanceID as u64, j),
        forall|j: int| 0 <= j < 8 ==> #[trigger] r.spec_bit(24 + j) == u64_bit(InstanceMask as u64, j),
        forall|j: int| 0 <= j < 24
            ==> #[trigger] r.spec_bit(32 + j) == u64_bit(InstanceContributionToHitGroupIndex as u64, j),
        forall|j: int| 0 <= j < 8 ==> #[trigger] r.spec_bit(56 + j) == u64_bit(Flags as u64, j),
{
    let mut storage: Vec<u8> = Vec::new();
    let mut i: usize = 0;
    while i < 8
        invariant
            i <= 8,
            storage@.len() == i,
        decreases 8 - i,
    {
        storage.push(0);
        i += 1;
    }
    let mut unit = __BindgenBitfieldUnit::new(storage);
    unit.set(0, 24, InstanceID as u64);
    unit.set(24, 8, InstanceMask as u64);
    unit.set(32, 24, InstanceContributionToHitGroupIndex as u64);
    unit.set(56, 8, Flags as u64);
    unit
}

} // verus!
