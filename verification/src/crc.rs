//! CRC-32 as used by the firmware to check an uploaded image.
//!
//! This is the IEEE 802.3 checksum in its reflected form: the register starts
//! at all ones, every input byte is folded into the low bits and shifted out
//! in eight steps, and the final register is inverted.

use vstd::prelude::*;

verus! {

/// Reflected generator polynomial of the IEEE 802.3 CRC-32.
pub const CRC32_POLY: u32 = 0xEDB8_8320;

/// Initial value of the shift register.
pub const CRC32_INIT: u32 = 0xFFFF_FFFF;

/// One step of the shift register: the low bit leaves, and the polynomial is
/// folded in when that bit was set.
pub open spec fn crc32_shift(reg: u32) -> u32 {
    if reg & 1 != 0 {
        (reg >> 1) ^ CRC32_POLY
    } else {
        reg >> 1
    }
}

/// `n` steps of the shift register.
pub open spec fn crc32_shifts(reg: u32, n: nat) -> u32
    decreases n,
{
    if n == 0 {
        reg
    } else {
        crc32_shift(crc32_shifts(reg, (n - 1) as nat))
    }
}

/// The register after one more input byte.
pub open spec fn crc32_feed(reg: u32, byte: u8) -> u32 {
    crc32_shifts(reg ^ (byte as u32), 8)
}

/// The register after all of `data`, starting from the initial value.
pub open spec fn crc32_register(data: Seq<u8>) -> u32
    decreases data.len(),
{
    if data.len() == 0 {
        CRC32_INIT
    } else {
        crc32_feed(crc32_register(data.drop_last()), data.last())
    }
}

/// The CRC-32 of `data`: the inverted final register.
pub open spec fn crc32_spec(data: Seq<u8>) -> u32 {
    !crc32_register(data)
}

/// Computes the CRC-32 (IEEE 802.3) of `data`.
pub fn crc32(data: &[u8]) -> (crc: u32)
    ensures
        crc == crc32_spec(data@),
{
    let mut reg: u32 = CRC32_INIT;
    let mut i: usize = 0;
    while i < data.len()
        invariant
            i <= data.len(),
            reg == crc32_register(data@.take(i as int)),
        decreases data.len() - i,
    {
        let ghost before = reg;
        reg = reg ^ (data[i] as u32);
        let mut bit: u8 = 0;
        while bit < 8
            invariant
                bit <= 8,
                reg == crc32_shifts(before ^ (data@[i as int] as u32), bit as nat),
            decreases 8 - bit,
        {
            if reg & 1 != 0 {
                reg = (reg >> 1) ^ CRC32_POLY;
            } else {
                reg = reg >> 1;
            }
            bit = bit + 1;
        }
        proof {
            let next = data@.take(i + 1);
            assert(next.drop_last() == data@.take(i as int));
            assert(next.last() == data@[i as int]);
        }
        i = i + 1;
    }
    proof {
        assert(data@.take(i as int) == data@);
    }
    !reg
}

} // verus!
