//! The chip's eight-bit status register and its decoded form.
use vstd::prelude::*;

verus! {

/// True when bit `n` of `v` is set.
pub open spec fn bit_set(v: u8, n: u8) -> bool {
    (v >> n) & 1u8 == 1u8
}

/// The decoded status register: one field per bit, bit 0 first.
#[derive(Clone, Copy, Debug, Default, PartialEq)]
pub struct Status {
    /// True if an internal write operation is in progress
    pub busy: bool,
    /// True if memory writes are enabled
    pub write_enabled: bool,
    /// True if the first block is write-protected
    pub block0_protected: bool,
    /// True if the second block is write-protected
    pub block1_protected: bool,
    /// True if the third block is write-protected
    pub block2_protected: bool,
    /// True if the fourth block is write-protected
    pub block3_protected: bool,
    /// True in auto-address-increment programming mode, false in byte-program mode
    pub aai_programming_mode: bool,
    /// True if the four block-protection bits are read-only
    pub bits_read_only: bool,
}

impl Status {
    /// The record that register value `v` decodes to.
    pub open spec fn decoded(v: u8) -> Status {
        Status {
            busy: bit_set(v, 0),
            write_enabled: bit_set(v, 1),
            block0_protected: bit_set(v, 2),
            block1_protected: bit_set(v, 3),
            block2_protected: bit_set(v, 4),
            block3_protected: bit_set(v, 5),
            aai_programming_mode: bit_set(v, 6),
            bits_read_only: bit_set(v, 7),
        }
    }

    /// Maps the status register bits to a record.
    pub fn from_register(data: u8) -> (r: Self)
        ensures
            r == Self::decoded(data),
    {
        proof {
            assert(((data >> 0u8) & 1u8 == 1u8) == (data & 1u8 != 0u8)) by (bit_vector);
            assert(((data >> 1u8) & 1u8 == 1u8) == (data & 2u8 != 0u8)) by (bit_vector);
            assert(((data >> 2u8) & 1u8 == 1u8) == (data & 4u8 != 0u8)) by (bit_vector);
            assert(((data >> 3u8) & 1u8 == 1u8) == (data & 8u8 != 0u8)) by (bit_vector);
            assert(((data >> 4u8) & 1u8 == 1u8) == (data & 16u8 != 0u8)) by (bit_vector);
            assert(((data >> 5u8) & 1u8 == 1u8) == (data & 32u8 != 0u8)) by (bit_vector);
            assert(((data >> 6u8) & 1u8 == 1u8) == (data & 64u8 != 0u8)) by (bit_vector);
            assert(((data >> 7u8) & 1u8 == 1u8) == (data & 128u8 != 0u8)) by (bit_vector);
        }
        Status {
            busy: data & 1u8 != 0,
            write_enabled: data & 2u8 != 0,
            block0_protected: data & 4u8 != 0,
            block1_protected: data & 8u8 != 0,
            block2_protected: data & 16u8 != 0,
            block3_protected: data & 32u8 != 0,
            aai_programming_mode: data & 64u8 != 0,
            bits_read_only: data & 128u8 != 0,
        }
    }

    /// The register value that this record encodes to: the four block-protection bits and the
    /// read-only bit at their places, every other bit clear.
    pub open spec fn encoded(self) -> u8 {
        (if self.block0_protected { 0x04u8 } else { 0u8 })
            | (if self.block1_protected { 0x08u8 } else { 0u8 })
            | (if self.block2_protected { 0x10u8 } else { 0u8 })
            | (if self.block3_protected { 0x20u8 } else { 0u8 })
            | (if self.bits_read_only { 0x80u8 } else { 0u8 })
    }

    /// Converts the status to a register byte. Only the writable bits are used.
    pub fn to_registers(&self) -> (r: u8)
        ensures
            r == self.encoded(),
    {
        let block0: u8 = if self.block0_protected { 0x04 } else { 0 };
        let block1: u8 = if self.block1_protected { 0x08 } else { 0 };
        let block2: u8 = if self.block2_protected { 0x10 } else { 0 };
        let block3: u8 = if self.block3_protected { 0x20 } else { 0 };
        let read_only: u8 = if self.bits_read_only { 0x80 } else { 0 };
        block0 | block1 | block2 | block3 | read_only
    }
}

/// The writable bits of a register value: the four block-protection bits and the read-only bit.
pub const WRITABLE_BITS: u8 = 0b1011_1100;

/// Decoding a register value and encoding the result keeps exactly the five writable bits of the
/// value and clears the other three, whatever they held.
pub proof fn lemma_status_round_trip(v: u8)
    ensures
        Status::decoded(v).encoded() == v & WRITABLE_BITS,
{
    assert((if (v >> 2u8) & 1u8 == 1u8 { 0x04u8 } else { 0u8 })
        | (if (v >> 3u8) & 1u8 == 1u8 { 0x08u8 } else { 0u8 })
        | (if (v >> 4u8) & 1u8 == 1u8 { 0x10u8 } else { 0u8 })
        | (if (v >> 5u8) & 1u8 == 1u8 { 0x20u8 } else { 0u8 })
        | (if (v >> 7u8) & 1u8 == 1u8 { 0x80u8 } else { 0u8 }) == v & 0xBCu8) by (bit_vector);
}

} // verus!
