//! Binary pages of instance drivers: packing of integer values into eight byte
//! buffers and placing such buffers at byte and bit positions within a page.
use vstd::prelude::*;

use crate::byte_order::{
    read_u16_be, read_u16_le, read_u32_be, read_u32_le, read_u64_be, read_u64_le, write_u16_be,
    write_u16_le, write_u32_be, write_u32_le, write_u64_be, write_u64_le,
};

verus! {

/// How a value is packed into (at most) eight bytes.
///
/// Floating point packings carry the IEEE-754 bit pattern of the value; the
/// conversion between a number and its bit pattern happens outside this crate.
#[derive(Clone, Copy, Debug, PartialEq, Eq)]
pub enum ValuePacking {
    UInt8,
    UInt16LE,
    UInt16BE,
    UInt32LE,
    UInt32BE,
    Int8,
    Int16LE,
    Int16BE,
    Int32LE,
    Int32BE,
    Float32LE,
    Float32BE,
    Float64LE,
    Float64BE,
}

/// Number of bytes a packing occupies.
pub open spec fn packing_width(p: ValuePacking) -> int {
    match p {
        ValuePacking::UInt8 | ValuePacking::Int8 => 1,
        ValuePacking::UInt16LE | ValuePacking::UInt16BE | ValuePacking::Int16LE
        | ValuePacking::Int16BE => 2,
        ValuePacking::UInt32LE | ValuePacking::UInt32BE | ValuePacking::Int32LE
        | ValuePacking::Int32BE | ValuePacking::Float32LE | ValuePacking::Float32BE => 4,
        ValuePacking::Float64LE | ValuePacking::Float64BE => 8,
    }
}

/// Whether a packing stores the most significant byte first.
pub open spec fn packing_big_endian(p: ValuePacking) -> bool {
    match p {
        ValuePacking::UInt16BE | ValuePacking::UInt32BE | ValuePacking::Int16BE
        | ValuePacking::Int32BE | ValuePacking::Float32BE | ValuePacking::Float64BE => true,
        _ => false,
    }
}

/// The `k`-th least significant byte of `raw`.
pub open spec fn byte_of(raw: u64, k: int) -> u8 {
    if k == 0 {
        raw as u8
    } else if k == 1 {
        (raw >> 8u64) as u8
    } else if k == 2 {
        (raw >> 16u64) as u8
    } else if k == 3 {
        (raw >> 24u64) as u8
    } else if k == 4 {
        (raw >> 32u64) as u8
    } else if k == 5 {
        (raw >> 40u64) as u8
    } else if k == 6 {
        (raw >> 48u64) as u8
    } else {
        (raw >> 56u64) as u8
    }
}

/// The eight byte buffer holding the low `packing_width(p)` bytes of `raw` in
/// the byte order of `p`, followed by zeroes.
pub open spec fn packed_bytes(raw: u64, p: ValuePacking) -> Seq<u8> {
    let w = packing_width(p);
    Seq::new(
        8,
        |i: int|
            if i < w {
                if packing_big_endian(p) {
                    byte_of(raw, w - 1 - i)
                } else {
                    byte_of(raw, i)
                }
            } else {
                0u8
            },
    )
}

/// The integer whose `k`-th least significant byte is `b[k]`, for `k < w`.
pub open spec fn le_value(b: Seq<u8>, w: int) -> u64 {
    if w == 1 {
        b[0] as u64
    } else if w == 2 {
        (b[0] as u64) | ((b[1] as u64) << 8u64)
    } else if w == 4 {
        (b[0] as u64) | ((b[1] as u64) << 8u64) | ((b[2] as u64) << 16u64) | ((b[3] as u64)
            << 24u64)
    } else {
        (b[0] as u64) | ((b[1] as u64) << 8u64) | ((b[2] as u64) << 16u64) | ((b[3] as u64)
            << 24u64) | ((b[4] as u64) << 32u64) | ((b[5] as u64) << 40u64) | ((b[6] as u64)
            << 48u64) | ((b[7] as u64) << 56u64)
    }
}

/// The value of the first `packing_width(p)` bytes of `b` read in the byte
/// order of `p`, zero-extended.
pub open spec fn unpacked_value(b: Seq<u8>, p: ValuePacking) -> u64 {
    let w = packing_width(p);
    if packing_big_endian(p) {
        le_value(Seq::new(w as nat, |i: int| b[w - 1 - i]), w)
    } else {
        le_value(b, w)
    }
}

/// The low `packing_width(p)` bytes of `raw`.
pub open spec fn width_mask(raw: u64, p: ValuePacking) -> u64 {
    let w = packing_width(p);
    if w == 1 {
        raw & 0xffu64
    } else if w == 2 {
        raw & 0xffffu64
    } else if w == 4 {
        raw & 0xffff_ffffu64
    } else {
        raw
    }
}

proof fn lemma_bytes_of_casts(raw: u64)
    ensures
        (raw as u16) as u8 == byte_of(raw, 0),
        ((raw as u16) >> 8) as u8 == byte_of(raw, 1),
        (raw as u32) as u8 == byte_of(raw, 0),
        ((raw as u32) >> 8) as u8 == byte_of(raw, 1),
        ((raw as u32) >> 16) as u8 == byte_of(raw, 2),
        ((raw as u32) >> 24) as u8 == byte_of(raw, 3),
{
    assert((raw as u16) as u8 == raw as u8) by (bit_vector);
    assert(((raw as u16) >> 8) as u8 == (raw >> 8u64) as u8) by (bit_vector);
    assert((raw as u32) as u8 == raw as u8) by (bit_vector);
    assert(((raw as u32) >> 8) as u8 == (raw >> 8u64) as u8) by (bit_vector);
    assert(((raw as u32) >> 16) as u8 == (raw >> 16u64) as u8) by (bit_vector);
    assert(((raw as u32) >> 24) as u8 == (raw >> 24u64) as u8) by (bit_vector);
}

/// Packs the low bytes of `raw` into an eight byte buffer according to
/// `packing`; the bytes beyond the packing's width are zero.
pub fn pack_raw(raw: u64, packing: &ValuePacking) -> (buf: [u8; 8])
    ensures
        buf@ == packed_bytes(raw, *packing),
{
    let mut buf = [0u8; 8];
    proof {
        lemma_bytes_of_casts(raw);
    }
    match packing {
        ValuePacking::UInt8 | ValuePacking::Int8 => {
            buf[0] = raw as u8;
        },
        ValuePacking::UInt16LE | ValuePacking::Int16LE => write_u16_le(&mut buf, raw as u16),
        ValuePacking::UInt16BE | ValuePacking::Int16BE => write_u16_be(&mut buf, raw as u16),
        ValuePacking::UInt32LE | ValuePacking::Int32LE | ValuePacking::Float32LE => write_u32_le(
            &mut buf,
            raw as u32,
        ),
        ValuePacking::UInt32BE | ValuePacking::Int32BE | ValuePacking::Float32BE => write_u32_be(
            &mut buf,
            raw as u32,
        ),
        ValuePacking::Float64LE => write_u64_le(&mut buf, raw),
        ValuePacking::Float64BE => write_u64_be(&mut buf, raw),
    }
    assert(buf@ =~= packed_bytes(raw, *packing));
    buf
}

/// Reads the value packed at the start of `buffer` according to `packing`,
/// zero-extended to 64 bits.
pub fn unpack_raw(buffer: &[u8; 8], packing: &ValuePacking) -> (raw: u64)
    ensures
        raw == unpacked_value(buffer@, *packing),
{
    let ghost b0 = buffer@[0];
    let ghost b1 = buffer@[1];
    let ghost b2 = buffer@[2];
    let ghost b3 = buffer@[3];
    let ghost b4 = buffer@[4];
    let ghost b5 = buffer@[5];
    let ghost b6 = buffer@[6];
    let ghost b7 = buffer@[7];
    let ghost be2 = Seq::new(2, |i: int| buffer@[2 - 1 - i]);
    let ghost be4 = Seq::new(4, |i: int| buffer@[4 - 1 - i]);
    let ghost be8 = Seq::new(8, |i: int| buffer@[8 - 1 - i]);
    match packing {
        ValuePacking::UInt8 | ValuePacking::Int8 => buffer[0] as u64,
        ValuePacking::UInt16LE | ValuePacking::Int16LE => {
            let n = read_u16_le(buffer);
            assert(n as u64 == (b0 as u64) | ((b1 as u64) << 8u64)) by (bit_vector)
                requires
                    n == (b0 as u16) | ((b1 as u16) << 8),
            ;
            n as u64
        },
        ValuePacking::UInt16BE | ValuePacking::Int16BE => {
            let n = read_u16_be(buffer);
            assert(n as u64 == (b1 as u64) | ((b0 as u64) << 8u64)) by (bit_vector)
                requires
                    n == ((b0 as u16) << 8) | (b1 as u16),
            ;
            assert(be2[0] == b1 && be2[1] == b0);
            n as u64
        },
        ValuePacking::UInt32LE | ValuePacking::Int32LE | ValuePacking::Float32LE => {
            let n = read_u32_le(buffer);
            assert(n as u64 == (b0 as u64) | ((b1 as u64) << 8u64) | ((b2 as u64) << 16u64) | ((
            b3 as u64) << 24u64)) by (bit_vector)
                requires
                    n == (b0 as u32) | ((b1 as u32) << 8) | ((b2 as u32) << 16) | ((b3 as u32)
                        << 24),
            ;
            n as u64
        },
        ValuePacking::UInt32BE | ValuePacking::Int32BE | ValuePacking::Float32BE => {
            let n = read_u32_be(buffer);
            assert(n as u64 == (b3 as u64) | ((b2 as u64) << 8u64) | ((b1 as u64) << 16u64) | ((
            b0 as u64) << 24u64)) by (bit_vector)
                requires
                    n == ((b0 as u32) << 24) | ((b1 as u32) << 16) | ((b2 as u32) << 8) | (b3
                        as u32),
            ;
            assert(be4[0] == b3 && be4[1] == b2 && be4[2] == b1 && be4[3] == b0);
            n as u64
        },
        ValuePacking::Float64LE => read_u64_le(buffer),
        ValuePacking::Float64BE => {
            let n = read_u64_be(buffer);
            assert(be8[0] == b7 && be8[1] == b6 && be8[2] == b5 && be8[3] == b4 && be8[4] == b3
                && be8[5] == b2 && be8[6] == b1 && be8[7] == b0);
            assert(n == (b7 as u64) | ((b6 as u64) << 8u64) | ((b5 as u64) << 16u64) | ((
            b4 as u64) << 24u64) | ((b3 as u64) << 32u64) | ((b2 as u64) << 40u64) | ((b1 as u64)
                << 48u64) | ((b0 as u64) << 56u64)) by (bit_vector)
                requires
                    n == ((b0 as u64) << 56) | ((b1 as u64) << 48) | ((b2 as u64) << 40) | ((
                    b3 as u64) << 32) | ((b4 as u64) << 24) | ((b5 as u64) << 16) | ((b6 as u64)
                        << 8) | (b7 as u64),
            ;
            n
        },
    }
}

/// The byte order of each packing: little-endian packings store the least
/// significant byte first, big-endian ones (names ending in `BE`) the most
/// significant byte first; one, two, four or eight bytes are used, the rest
/// of the buffer is zero.
pub proof fn law_packing_byte_order(raw: u64)
    ensures
        packed_bytes(raw, ValuePacking::UInt8) == seq![raw as u8, 0u8, 0u8, 0u8, 0u8, 0u8, 0u8, 0u8],
        packed_bytes(raw, ValuePacking::Int8) == seq![raw as u8, 0u8, 0u8, 0u8, 0u8, 0u8, 0u8, 0u8],
        packed_bytes(raw, ValuePacking::UInt16LE) == seq![raw as u8, (raw >> 8u64) as u8, 0u8, 0u8, 0u8, 0u8, 0u8, 0u8],
        packed_bytes(raw, ValuePacking::Int16LE) == seq![raw as u8, (raw >> 8u64) as u8, 0u8, 0u8, 0u8, 0u8, 0u8, 0u8],
        packed_bytes(raw, ValuePacking::UInt16BE) == seq![(raw >> 8u64) as u8, raw as u8, 0u8, 0u8, 0u8, 0u8, 0u8, 0u8],
        packed_bytes(raw, ValuePacking::Int16BE) == seq![(raw >> 8u64) as u8, raw as u8, 0u8, 0u8, 0u8, 0u8, 0u8, 0u8],
        packed_bytes(raw, ValuePacking::UInt32LE) == seq![raw as u8, (raw >> 8u64) as u8, (raw >> 16u64) as u8, (raw >> 24u64) as u8, 0u8, 0u8, 0u8, 0u8],
        packed_bytes(raw, ValuePacking::Int32LE) == seq![raw as u8, (raw >> 8u64) as u8, (raw >> 16u64) as u8, (raw >> 24u64) as u8, 0u8, 0u8, 0u8, 0u8],
        packed_bytes(raw, ValuePacking::Float32LE) == seq![raw as u8, (raw >> 8u64) as u8, (raw >> 16u64) as u8, (raw >> 24u64) as u8, 0u8, 0u8, 0u8, 0u8],
        packed_bytes(raw, ValuePacking::UInt32BE) == seq![(raw >> 24u64) as u8, (raw >> 16u64) as u8, (raw >> 8u64) as u8, raw as u8, 0u8, 0u8, 0u8, 0u8],
        packed_bytes(raw, ValuePacking::Int32BE) == seq![(raw >> 24u64) as u8, (raw >> 16u64) as u8, (raw >> 8u64) as u8, raw as u8, 0u8, 0u8, 0u8, 0u8],
        packed_bytes(raw, ValuePacking::Float32BE) == seq![(raw >> 24u64) as u8, (raw >> 16u64) as u8, (raw >> 8u64) as u8, raw as u8, 0u8, 0u8, 0u8, 0u8],
        packed_bytes(raw, ValuePacking::Float64LE) == seq![raw as u8, (raw >> 8u64) as u8, (raw >> 16u64) as u8, (raw >> 24u64) as u8, (raw >> 32u64) as u8, (raw >> 40u64) as u8, (raw >> 48u64) as u8, (raw >> 56u64) as u8],
        packed_bytes(raw, ValuePacking::Float64BE) == seq![(raw >> 56u64) as u8, (raw >> 48u64) as u8, (raw >> 40u64) as u8, (raw >> 32u64) as u8, (raw >> 24u64) as u8, (raw >> 16u64) as u8, (raw >> 8u64) as u8, raw as u8],
{
    assert(packed_bytes(raw, ValuePacking::UInt8) =~= seq![raw as u8, 0u8, 0u8, 0u8, 0u8, 0u8, 0u8, 0u8]);
    assert(packed_bytes(raw, ValuePacking::Int8) =~= seq![raw as u8, 0u8, 0u8, 0u8, 0u8, 0u8, 0u8, 0u8]);
    assert(packed_bytes(raw, ValuePacking::UInt16LE) =~= seq![raw as u8, (raw >> 8u64) as u8, 0u8, 0u8, 0u8, 0u8, 0u8, 0u8]);
    assert(packed_bytes(raw, ValuePacking::Int16LE) =~= seq![raw as u8, (raw >> 8u64) as u8, 0u8, 0u8, 0u8, 0u8, 0u8, 0u8]);
    assert(packed_bytes(raw, ValuePacking::UInt16BE) =~= seq![(raw >> 8u64) as u8, raw as u8, 0u8, 0u8, 0u8, 0u8, 0u8, 0u8]);
    assert(packed_bytes(raw, ValuePacking::Int16BE) =~= seq![(raw >> 8u64) as u8, raw as u8, 0u8, 0u8, 0u8, 0u8, 0u8, 0u8]);
    assert(packed_bytes(raw, ValuePacking::UInt32LE) =~= seq![raw as u8, (raw >> 8u64) as u8, (raw >> 16u64) as u8, (raw >> 24u64) as u8, 0u8, 0u8, 0u8, 0u8]);
    assert(packed_bytes(raw, ValuePacking::Int32LE) =~= seq![raw as u8, (raw >> 8u64) as u8, (raw >> 16u64) as u8, (raw >> 24u64) as u8, 0u8, 0u8, 0u8, 0u8]);
    assert(packed_bytes(raw, ValuePacking::Float32LE) =~= seq![raw as u8, (raw >> 8u64) as u8, (raw >> 16u64) as u8, (raw >> 24u64) as u8, 0u8, 0u8, 0u8, 0u8]);
    assert(packed_bytes(raw, ValuePacking::UInt32BE) =~= seq![(raw >> 24u64) as u8, (raw >> 16u64) as u8, (raw >> 8u64) as u8, raw as u8, 0u8, 0u8, 0u8, 0u8]);
    assert(packed_bytes(raw, ValuePacking::Int32BE) =~= seq![(raw >> 24u64) as u8, (raw >> 16u64) as u8, (raw >> 8u64) as u8, raw as u8, 0u8, 0u8, 0u8, 0u8]);
    assert(packed_bytes(raw, ValuePacking::Float32BE) =~= seq![(raw >> 24u64) as u8, (raw >> 16u64) as u8, (raw >> 8u64) as u8, raw as u8, 0u8, 0u8, 0u8, 0u8]);
    assert(packed_bytes(raw, ValuePacking::Float64LE) =~= seq![raw as u8, (raw >> 8u64) as u8, (raw >> 16u64) as u8, (raw >> 24u64) as u8, (raw >> 32u64) as u8, (raw >> 40u64) as u8, (raw >> 48u64) as u8, (raw >> 56u64) as u8]);
    assert(packed_bytes(raw, ValuePacking::Float64BE) =~= seq![(raw >> 56u64) as u8, (raw >> 48u64) as u8, (raw >> 40u64) as u8, (raw >> 32u64) as u8, (raw >> 24u64) as u8, (raw >> 16u64) as u8, (raw >> 8u64) as u8, raw as u8]);
}

/// Reading a packed value takes its bytes in the packing's order: the first
/// byte of the buffer is the least significant for little-endian packings
/// and the most significant for big-endian ones (names ending in `BE`).
pub proof fn law_unpacking_byte_order(b: Seq<u8>)
    requires
        b.len() == 8,
    ensures
        unpacked_value(b, ValuePacking::UInt8) == (b[0] as u64),
        unpacked_value(b, ValuePacking::Int8) == (b[0] as u64),
        unpacked_value(b, ValuePacking::UInt16LE) == (b[0] as u64) | ((b[1] as u64) << 8u64),
        unpacked_value(b, ValuePacking::Int16LE) == (b[0] as u64) | ((b[1] as u64) << 8u64),
        unpacked_value(b, ValuePacking::UInt16BE) == (b[1] as u64) | ((b[0] as u64) << 8u64),
        unpacked_value(b, ValuePacking::Int16BE) == (b[1] as u64) | ((b[0] as u64) << 8u64),
        unpacked_value(b, ValuePacking::UInt32LE) == (b[0] as u64) | ((b[1] as u64) << 8u64) | ((b[2] as u64) << 16u64) | ((b[3] as u64) << 24u64),
        unpacked_value(b, ValuePacking::Int32LE) == (b[0] as u64) | ((b[1] as u64) << 8u64) | ((b[2] as u64) << 16u64) | ((b[3] as u64) << 24u64),
        unpacked_value(b, ValuePacking::Float32LE) == (b[0] as u64) | ((b[1] as u64) << 8u64) | ((b[2] as u64) << 16u64) | ((b[3] as u64) << 24u64),
        unpacked_value(b, ValuePacking::UInt32BE) == (b[3] as u64) | ((b[2] as u64) << 8u64) | ((b[1] as u64) << 16u64) | ((b[0] as u64) << 24u64),
        unpacked_value(b, ValuePacking::Int32BE) == (b[3] as u64) | ((b[2] as u64) << 8u64) | ((b[1] as u64) << 16u64) | ((b[0] as u64) << 24u64),
        unpacked_value(b, ValuePacking::Float32BE) == (b[3] as u64) | ((b[2] as u64) << 8u64) | ((b[1] as u64) << 16u64) | ((b[0] as u64) << 24u64),
        unpacked_value(b, ValuePacking::Float64LE) == (b[0] as u64) | ((b[1] as u64) << 8u64) | ((b[2] as u64) << 16u64) | ((b[3] as u64) << 24u64) | ((b[4] as u64) << 32u64) | ((b[5] as u64) << 40u64) | ((b[6] as u64) << 48u64) | ((b[7] as u64) << 56u64),
        unpacked_value(b, ValuePacking::Float64BE) == (b[7] as u64) | ((b[6] as u64) << 8u64) | ((b[5] as u64) << 16u64) | ((b[4] as u64) << 24u64) | ((b[3] as u64) << 32u64) | ((b[2] as u64) << 40u64) | ((b[1] as u64) << 48u64) | ((b[0] as u64) << 56u64),
{
}

/// Reading back a packed value gives the low `packing_width(p)` bytes of the
/// value that was packed.
pub proof fn law_unpack_after_pack(raw: u64, p: ValuePacking)
    ensures
        unpacked_value(packed_bytes(raw, p), p) == width_mask(raw, p),
{
    let b = packed_bytes(raw, p);
    let c0 = raw as u8;
    let c1 = (raw >> 8u64) as u8;
    let c2 = (raw >> 16u64) as u8;
    let c3 = (raw >> 24u64) as u8;
    let c4 = (raw >> 32u64) as u8;
    let c5 = (raw >> 40u64) as u8;
    let c6 = (raw >> 48u64) as u8;
    let c7 = (raw >> 56u64) as u8;
    assert((c0 as u64) == raw & 0xffu64) by (bit_vector)
        requires
            c0 == raw as u8,
    ;
    assert((c0 as u64) | ((c1 as u64) << 8u64) == raw & 0xffffu64) by (bit_vector)
        requires
            c0 == raw as u8,
            c1 == (raw >> 8u64) as u8,
    ;
    assert((c0 as u64) | ((c1 as u64) << 8u64) | ((c2 as u64) << 16u64) | ((c3 as u64) << 24u64)
        == raw & 0xffff_ffffu64) by (bit_vector)
        requires
            c0 == raw as u8,
            c1 == (raw >> 8u64) as u8,
            c2 == (raw >> 16u64) as u8,
            c3 == (raw >> 24u64) as u8,
    ;
    assert((c0 as u64) | ((c1 as u64) << 8u64) | ((c2 as u64) << 16u64) | ((c3 as u64) << 24u64)
        | ((c4 as u64) << 32u64) | ((c5 as u64) << 40u64) | ((c6 as u64) << 48u64) | ((c7 as u64)
        << 56u64) == raw) by (bit_vector)
        requires
            c0 == raw as u8,
            c1 == (raw >> 8u64) as u8,
            c2 == (raw >> 16u64) as u8,
            c3 == (raw >> 24u64) as u8,
            c4 == (raw >> 32u64) as u8,
            c5 == (raw >> 40u64) as u8,
            c6 == (raw >> 48u64) as u8,
            c7 == (raw >> 56u64) as u8,
    ;
    let w = packing_width(p);
    if packing_big_endian(p) {
        let r = Seq::new(w as nat, |i: int| b[w - 1 - i]);
        assert(forall|i: int| 0 <= i < w ==> r[i] == byte_of(raw, i));
        assert(r[0] == c0);
        if w >= 2 {
            assert(r[1] == c1);
        }
        if w >= 4 {
            assert(r[2] == c2 && r[3] == c3);
        }
        if w >= 8 {
            assert(r[4] == c4 && r[5] == c5 && r[6] == c6 && r[7] == c7);
        }
    } else {
        assert(b[0] == c0);
        if w >= 2 {
            assert(b[1] == c1);
        }
        if w >= 4 {
            assert(b[2] == c2 && b[3] == c3);
        }
        if w >= 8 {
            assert(b[4] == c4 && b[5] == c5 && b[6] == c6 && b[7] == c7);
        }
    }
}

/// Where within a page a value is placed.
#[derive(Clone, Debug, PartialEq, Eq)]
pub enum BinaryPosition {
    /// A whole byte at the given offset.
    Byte(u32),
    /// Consecutive bytes; writing covers the offsets `from..=to`, reading
    /// covers `from..to`, in both cases at most eight bytes.
    Bytes(u32, u32),
    /// A single bit: the byte offset and the bit within that byte (taken
    /// modulo eight).
    Bit(u32, u32),
    /// A list of half-open ranges of absolute bit numbers; bit `n` is bit
    /// `n % 8` of byte `n / 8`. The value's bits are consumed in order.
    BitRange(Vec<(u32, u32)>),
}

/// The single-bit mask for bit `q % 8` of a byte.
pub open spec fn bit_mask(q: u32) -> u8 {
    1u8 << ((q % 8) as u8)
}

/// Byte `b` with bit `q % 8` set to `on`.
pub open spec fn with_bit(b: u8, q: u32, on: bool) -> u8 {
    if on {
        b | bit_mask(q)
    } else {
        b & !bit_mask(q)
    }
}

/// Whether bit `q % 8` of byte `b` is set.
pub open spec fn bit_is_set(b: u8, q: u32) -> bool {
    b & bit_mask(q) != 0
}

/// Whether absolute bit number `bit` of a page is set.
pub open spec fn page_bit(page: Seq<u8>, bit: u32) -> bool {
    bit_is_set(page[(bit / 8) as int], bit)
}

/// Whether bit `k` of an eight byte value (bit `k % 8` of byte `k / 8`) is set.
pub open spec fn value_bit(value: Seq<u8>, k: int) -> bool {
    bit_is_set(value[k / 8], (k % 8) as u32)
}

/// The bit numbers `s, s + 1, .., e - 1` (empty when `e <= s`).
pub open spec fn span(s: u32, e: u32) -> Seq<u32> {
    Seq::new(if s < e { (e - s) as nat } else { 0 }, |i: int| (s + i) as u32)
}

/// All bit numbers of a list of ranges, in order.
pub open spec fn range_bits(ranges: Seq<(u32, u32)>) -> Seq<u32>
    decreases ranges.len(),
{
    if ranges.len() == 0 {
        Seq::empty()
    } else {
        range_bits(ranges.drop_last()) + span(ranges.last().0, ranges.last().1)
    }
}

/// The page after bit `k` of `value` has been stored at page bit `bits[k]`,
/// for each `k` in order.
pub open spec fn write_bits(page: Seq<u8>, value: Seq<u8>, bits: Seq<u32>) -> Seq<u8>
    decreases bits.len(),
{
    if bits.len() == 0 {
        page
    } else {
        let p = write_bits(page, value, bits.drop_last());
        let b = bits.last();
        let k = bits.len() - 1;
        p.update((b / 8) as int, with_bit(p[(b / 8) as int], b, value_bit(value, k)))
    }
}

/// Eight zero bytes.
pub open spec fn zero_buffer() -> Seq<u8> {
    Seq::new(8, |i: int| 0u8)
}

/// The eight byte buffer whose bit `k` is page bit `bits[k]`, for each `k`,
/// and whose other bits are clear.
pub open spec fn read_bits(page: Seq<u8>, bits: Seq<u32>) -> Seq<u8>
    decreases bits.len(),
{
    if bits.len() == 0 {
        zero_buffer()
    } else {
        let r = read_bits(page, bits.drop_last());
        let k = bits.len() - 1;
        if page_bit(page, bits.last()) {
            r.update(k / 8, r[k / 8] | bit_mask((k % 8) as u32))
        } else {
            r
        }
    }
}

/// Number of bytes written for `Bytes(from, to)`: the inclusive span, at most
/// eight.
pub open spec fn write_span_len(from: u32, to: u32) -> int {
    if to + 1 - from < 8 {
        to + 1 - from
    } else {
        8
    }
}

/// Number of bytes read for `Bytes(from, to)`: the exclusive span, at most
/// eight.
pub open spec fn read_span_len(from: u32, to: u32) -> int {
    if to - from < 8 {
        to - from
    } else {
        8
    }
}

/// The positions at which a value may be written into a page of `len` bytes.
pub open spec fn position_writable(pos: BinaryPosition, len: int) -> bool {
    match pos {
        BinaryPosition::Byte(b) => b < len,
        BinaryPosition::Bytes(from, to) => from <= to + 1 && to < len,
        BinaryPosition::Bit(b, _) => b < len,
        BinaryPosition::BitRange(r) => {
            &&& range_bits(r@).len() <= 64
            &&& forall|i: int| 0 <= i < range_bits(r@).len() ==> range_bits(r@)[i] / 8 < len
        },
    }
}

/// The positions from which a value may be read from a page of `len` bytes.
pub open spec fn position_readable(pos: BinaryPosition, len: int) -> bool {
    match pos {
        BinaryPosition::Bytes(from, to) => from <= to && to <= len,
        _ => position_writable(pos, len),
    }
}

/// The page after `value` has been written at `pos`.
pub open spec fn written_page(page: Seq<u8>, value: Seq<u8>, pos: BinaryPosition) -> Seq<u8> {
    match pos {
        BinaryPosition::Byte(b) => page.update(b as int, value[0]),
        BinaryPosition::Bytes(from, to) => Seq::new(
            page.len(),
            |j: int|
                if from <= j < from + write_span_len(from, to) {
                    value[j - from]
                } else {
                    page[j]
                },
        ),
        BinaryPosition::Bit(b, q) => page.update(b as int, with_bit(page[b as int], q, value[0] != 0)),
        BinaryPosition::BitRange(r) => write_bits(page, value, range_bits(r@)),
    }
}

/// The eight byte buffer read from `page` at `pos`.
pub open spec fn read_page(page: Seq<u8>, pos: BinaryPosition) -> Seq<u8> {
    match pos {
        BinaryPosition::Byte(b) => zero_buffer().update(0, page[b as int]),
        BinaryPosition::Bytes(from, to) => Seq::new(
            8,
            |i: int|
                if i < read_span_len(from, to) {
                    page[from + i]
                } else {
                    0u8
                },
        ),
        BinaryPosition::Bit(b, q) => zero_buffer().update(
            0,
            if bit_is_set(page[b as int], q) {
                1u8
            } else {
                0u8
            },
        ),
        BinaryPosition::BitRange(r) => read_bits(page, range_bits(r@)),
    }
}

/// `b` is a prefix of `a`.
pub open spec fn is_prefix_of(b: Seq<u32>, a: Seq<u32>) -> bool {
    b.len() <= a.len() && forall|i: int| 0 <= i < b.len() ==> b[i] == a[i]
}

proof fn lemma_range_bits_step(ranges: Seq<(u32, u32)>, i: int)
    requires
        0 <= i < ranges.len(),
    ensures
        range_bits(ranges.take(i + 1)) == range_bits(ranges.take(i)) + span(ranges[i].0, ranges[i].1),
{
    assert(ranges.take(i + 1).drop_last() =~= ranges.take(i));
}

proof fn lemma_range_bits_prefix(ranges: Seq<(u32, u32)>, i: int)
    requires
        0 <= i <= ranges.len(),
    ensures
        is_prefix_of(range_bits(ranges.take(i)), range_bits(ranges)),
    decreases ranges.len() - i,
{
    if i < ranges.len() {
        lemma_range_bits_step(ranges, i);
        lemma_range_bits_prefix(ranges, i + 1);
    } else {
        assert(ranges.take(i) =~= ranges);
    }
}

proof fn lemma_span_push(s: u32, b: u32)
    requires
        s <= b < u32::MAX,
    ensures
        span(s, (b + 1) as u32) == span(s, b).push(b),
{
    assert(span(s, (b + 1) as u32) =~= span(s, b).push(b));
}

/// The bits consumed so far while walking range `i` up to (excluding) `b`
/// form a prefix of all bits of the ranges.
proof fn lemma_partial_prefix(ranges: Seq<(u32, u32)>, i: int, b: u32)
    requires
        0 <= i < ranges.len(),
        ranges[i].0 <= b <= ranges[i].1,
    ensures
        is_prefix_of(range_bits(ranges.take(i)) + span(ranges[i].0, b), range_bits(ranges)),
{
    lemma_range_bits_step(ranges, i);
    lemma_range_bits_prefix(ranges, i + 1);
}

proof fn lemma_or_zero(x: u8)
    ensures
        x | 0u8 == x,
{
    assert(x | 0u8 == x) by (bit_vector);
}

/// Writes `value` into `page` at `position`.
pub fn write_binary_within_page(page: &mut [u8], value: [u8; 8], position: &BinaryPosition)
    requires
        position_writable(*position, old(page)@.len() as int),
    ensures
        final(page)@ == written_page(old(page)@, value@, *position),
{
    match position {
        BinaryPosition::Byte(byte) => {
            page[*byte as usize] = value[0];
        },
        BinaryPosition::Bytes(from, to) => {
            let from = *from as usize;
            let to = *to as usize;
            let len = page.len();
            assert(to < len);
            let span_len = to + 1 - from;
            let n = if span_len < 8 {
                span_len
            } else {
                8
            };
            let ghost old_page = page@;
            let mut i: usize = 0;
            while i < n
                invariant
                    0 <= i <= n,
                    n == write_span_len(from as u32, to as u32),
                    from + n <= old_page.len(),
                    page@.len() == old_page.len(),
                    forall|j: int|
                        0 <= j < page@.len() ==> page@[j] == if from <= j < from + i {
                            value@[j - from]
                        } else {
                            old_page[j]
                        },
                decreases n - i,
            {
                page[from + i] = value[i];
                i += 1;
            }
            assert(page@ =~= written_page(old_page, value@, *position));
        },
        BinaryPosition::Bit(byte, bit) => {
            let mask: u8 = 1u8 << ((*bit % 8) as u8);
            let idx = *byte as usize;
            let data = page[idx];
            page[idx] = if value[0] == 0 {
                data & !mask
            } else {
                data | mask
            };
        },
        BinaryPosition::BitRange(ranges) => {
            let ghost old_page = page@;
            let ghost all = range_bits(ranges@);
            let mut bit_pos: usize = 0;
            let mut ri: usize = 0;
            while ri < ranges.len()
                invariant
                    0 <= ri <= ranges.len(),
                    all == range_bits(ranges@),
                    all.len() <= 64,
                    forall|i: int| 0 <= i < all.len() ==> all[i] / 8 < old_page.len(),
                    page@.len() == old_page.len(),
                    bit_pos == range_bits(ranges@.take(ri as int)).len(),
                    page@ == write_bits(old_page, value@, range_bits(ranges@.take(ri as int))),
                decreases ranges.len() - ri,
            {
                let (start, end) = ranges[ri];
                let ghost before = range_bits(ranges@.take(ri as int));
                let mut bit = start;
                proof {
                    assert(span(start, bit) =~= Seq::<u32>::empty());
                    assert(before + span(start, bit) =~= before);
                }
                while bit < end
                    invariant
                        0 <= ri < ranges.len(),
                        (start, end) == ranges@[ri as int],
                        start <= bit,
                        start < end ==> bit <= end,
                        start >= end ==> bit == start,
                        all == range_bits(ranges@),
                        all.len() <= 64,
                        forall|i: int| 0 <= i < all.len() ==> all[i] / 8 < old_page.len(),
                        page@.len() == old_page.len(),
                        before == range_bits(ranges@.take(ri as int)),
                        bit_pos == (before + span(start, bit)).len(),
                        page@ == write_bits(old_page, value@, before + span(start, bit)),
                    decreases end - bit,
                {
                    proof {
                        lemma_partial_prefix(ranges@, ri as int, (bit + 1) as u32);
                        lemma_span_push(start, bit);
                        assert(before + span(start, (bit + 1) as u32) =~= (before + span(
                            start,
                            bit,
                        )).push(bit));
                        let cur = before + span(start, (bit + 1) as u32);
                        assert(cur[bit_pos as int] == bit);
                        assert(all[bit_pos as int] == bit);
                        assert(cur.drop_last() =~= before + span(start, bit));
                    }
                    let mask: u8 = 1u8 << ((bit % 8) as u8);
                    let on = (value[bit_pos / 8] & (1u8 << ((bit_pos % 8) as u8))) != 0;
                    let idx = (bit / 8) as usize;
                    let data = page[idx];
                    page[idx] = if on {
                        data | mask
                    } else {
                        data & !mask
                    };
                    bit_pos += 1;
                    bit += 1;
                }
                proof {
                    lemma_range_bits_step(ranges@, ri as int);
                    if start >= end {
                        assert(span(start, bit) =~= span(start, end));
                    } else {
                        assert(bit == end);
                    }
                }
                ri += 1;
            }
            assert(ranges@.take(ranges@.len() as int) =~= ranges@);
        },
    }
}

/// Whether the bits of `ranges` number at most 64 and all lie in a page of
/// `len` bytes.
fn bit_ranges_fit(ranges: &Vec<(u32, u32)>, len: usize) -> (r: bool)
    ensures
        r == (range_bits(ranges@).len() <= 64 && forall|i: int|
            0 <= i < range_bits(ranges@).len() ==> range_bits(ranges@)[i] / 8 < len),
{
    let mut total: u64 = 0;
    let mut ri: usize = 0;
    while ri < ranges.len()
        invariant
            0 <= ri <= ranges.len(),
            total == range_bits(ranges@.take(ri as int)).len(),
            total <= 64,
            forall|i: int|
                0 <= i < total ==> range_bits(ranges@.take(ri as int))[i] / 8 < len,
        decreases ranges.len() - ri,
    {
        let (start, end) = ranges[ri];
        proof {
            lemma_range_bits_step(ranges@, ri as int);
            lemma_range_bits_prefix(ranges@, ri + 1);
        }
        let ghost before = range_bits(ranges@.take(ri as int));
        let ghost after = range_bits(ranges@.take(ri + 1));
        if start < end {
            let n = (end - start) as u64;
            if total + n > 64 {
                return false;
            }
            if ((end - 1) / 8) as usize >= len {
                assert(after[total + n - 1] == end - 1);
                return false;
            }
            assert forall|i: int| 0 <= i < total + n implies after[i] / 8 < len by {
                if i >= total {
                    assert(after[i] == start + (i - total));
                }
            }
            total = total + n;
        } else {
            assert(after =~= before);
        }
        ri += 1;
    }
    assert(ranges@.take(ranges@.len() as int) =~= ranges@);
    true
}

/// Whether a value may be written at `position` in a page of `len` bytes.
pub fn position_writable_in(position: &BinaryPosition, len: usize) -> (r: bool)
    ensures
        r == position_writable(*position, len as int),
{
    match position {
        BinaryPosition::Byte(b) => (*b as usize) < len,
        BinaryPosition::Bytes(from, to) => (*from as u64) <= (*to as u64) + 1 && (*to as usize)
            < len,
        BinaryPosition::Bit(b, _) => (*b as usize) < len,
        BinaryPosition::BitRange(r) => bit_ranges_fit(r, len),
    }
}

/// Whether a value may be read from `position` in a page of `len` bytes.
pub fn position_readable_in(position: &BinaryPosition, len: usize) -> (r: bool)
    ensures
        r == position_readable(*position, len as int),
{
    match position {
        BinaryPosition::Bytes(from, to) => *from <= *to && (*to as usize) <= len,
        _ => position_writable_in(position, len),
    }
}

/// Reads the eight byte buffer stored in `page` at `position`.
pub fn read_binary_within_page(page: &[u8], position: &BinaryPosition) -> (buffer: [u8; 8])
    requires
        position_readable(*position, page@.len() as int),
    ensures
        buffer@ == read_page(page@, *position),
{
    let mut buffer = [0u8; 8];
    assert(buffer@ =~= zero_buffer());
    match position {
        BinaryPosition::Byte(byte) => {
            buffer[0] = page[*byte as usize];
        },
        BinaryPosition::Bytes(from, to) => {
            let from = *from as usize;
            let to = *to as usize;
            let len = page.len();
            let span_len = to - from;
            let n = if span_len < 8 {
                span_len
            } else {
                8
            };
            let mut i: usize = 0;
            while i < n
                invariant
                    0 <= i <= n,
                    n == read_span_len(from as u32, to as u32),
                    from + n <= page@.len(),
                    page@.len() == len,
                    forall|j: int|
                        0 <= j < 8 ==> buffer@[j] == if j < i {
                            page@[from + j]
                        } else {
                            0u8
                        },
                decreases n - i,
            {
                buffer[i] = page[from + i];
                i += 1;
            }
            assert(buffer@ =~= read_page(page@, *position));
        },
        BinaryPosition::Bit(byte, bit) => {
            let b = *byte as usize;
            buffer[0] = if page[b] & (1u8 << ((*bit % 8) as u8)) == 0 {
                0
            } else {
                1
            };
        },
        BinaryPosition::BitRange(ranges) => {
            let ghost all = range_bits(ranges@);
            let mut bit_pos: usize = 0;
            let mut ri: usize = 0;
            while ri < ranges.len()
                invariant
                    0 <= ri <= ranges.len(),
                    all == range_bits(ranges@),
                    all.len() <= 64,
                    forall|i: int| 0 <= i < all.len() ==> all[i] / 8 < page@.len(),
                    bit_pos == range_bits(ranges@.take(ri as int)).len(),
                    buffer@ == read_bits(page@, range_bits(ranges@.take(ri as int))),
                decreases ranges.len() - ri,
            {
                let (start, end) = ranges[ri];
                let ghost before = range_bits(ranges@.take(ri as int));
                let mut bit = start;
                proof {
                    assert(before + span(start, bit) =~= before);
                }
                while bit < end
                    invariant
                        0 <= ri < ranges.len(),
                        (start, end) == ranges@[ri as int],
                        start <= bit,
                        start < end ==> bit <= end,
                        start >= end ==> bit == start,
                        all == range_bits(ranges@),
                        all.len() <= 64,
                        forall|i: int| 0 <= i < all.len() ==> all[i] / 8 < page@.len(),
                        before == range_bits(ranges@.take(ri as int)),
                        bit_pos == (before + span(start, bit)).len(),
                        buffer@ == read_bits(page@, before + span(start, bit)),
                    decreases end - bit,
                {
                    proof {
                        lemma_partial_prefix(ranges@, ri as int, (bit + 1) as u32);
                        lemma_span_push(start, bit);
                        assert(before + span(start, (bit + 1) as u32) =~= (before + span(
                            start,
                            bit,
                        )).push(bit));
                        let cur = before + span(start, (bit + 1) as u32);
                        assert(cur[bit_pos as int] == bit);
                        assert(all[bit_pos as int] == bit);
                        assert(cur.drop_last() =~= before + span(start, bit));
                    }
                    let set = page[(bit / 8) as usize] & (1u8 << ((bit % 8) as u8)) != 0;
                    let add: u8 = if set {
                        1u8 << ((bit_pos % 8) as u8)
                    } else {
                        0
                    };
                    let old_byte = buffer[bit_pos / 8];
                    proof {
                        lemma_or_zero(old_byte);
                    }
                    buffer[bit_pos / 8] = old_byte | add;
                    bit_pos += 1;
                    bit += 1;
                }
                proof {
                    lemma_range_bits_step(ranges@, ri as int);
                    if start >= end {
                        assert(span(start, bit) =~= span(start, end));
                    } else {
                        assert(bit == end);
                    }
                }
                ri += 1;
            }
            assert(ranges@.take(ranges@.len() as int) =~= ranges@);
        },
    }
    buffer
}

proof fn lemma_with_bit_same(x: u8, q: u32, on: bool)
    ensures
        bit_is_set(with_bit(x, q, on), q) == on,
{
    let m = (q % 8) as u8;
    assert(m < 8);
    if on {
        assert((x | (1u8 << m)) & (1u8 << m) != 0) by (bit_vector)
            requires
                m < 8,
        ;
    } else {
        assert((x & !(1u8 << m)) & (1u8 << m) == 0) by (bit_vector)
            requires
                m < 8,
        ;
    }
}

proof fn lemma_with_bit_other(x: u8, a: u32, b: u32, on: bool)
    requires
        a % 8 != b % 8,
    ensures
        bit_is_set(with_bit(x, a, on), b) == bit_is_set(x, b),
{
    let ma = (a % 8) as u8;
    let mb = (b % 8) as u8;
    assert(ma < 8 && mb < 8 && ma != mb);
    assert(((x | (1u8 << ma)) & (1u8 << mb) != 0) == (x & (1u8 << mb) != 0)) by (bit_vector)
        requires
            ma < 8,
            mb < 8,
            ma != mb,
    ;
    assert(((x & !(1u8 << ma)) & (1u8 << mb) != 0) == (x & (1u8 << mb) != 0)) by (bit_vector)
        requires
            ma < 8,
            mb < 8,
            ma != mb,
    ;
}

proof fn lemma_or_bit(x: u8, a: u32, b: u32)
    ensures
        bit_is_set(x | bit_mask(a), b) == (bit_is_set(x, b) || a % 8 == b % 8),
{
    let ma = (a % 8) as u8;
    let mb = (b % 8) as u8;
    assert(ma < 8 && mb < 8);
    assert(((x | (1u8 << ma)) & (1u8 << mb) != 0) == ((x & (1u8 << mb) != 0) || ma == mb))
        by (bit_vector)
        requires
            ma < 8,
            mb < 8,
    ;
}

proof fn lemma_zero_bits(q: u32)
    ensures
        !bit_is_set(0u8, q),
{
    let m = (q % 8) as u8;
    assert(m < 8);
    assert(0u8 & (1u8 << m) == 0) by (bit_vector);
}

/// Bits of a buffer read at `bits`: bit `k` is the page bit `bits[k]` when
/// `k < bits.len()`, clear otherwise.
proof fn lemma_read_bits_bit(page: Seq<u8>, bits: Seq<u32>, k: int)
    requires
        bits.len() <= 64,
        0 <= k < 64,
    ensures
        read_bits(page, bits).len() == 8,
        bit_is_set(read_bits(page, bits)[k / 8], (k % 8) as u32) == (k < bits.len() && page_bit(
            page,
            bits[k],
        )),
    decreases bits.len(),
{
    if bits.len() == 0 {
        lemma_zero_bits((k % 8) as u32);
    } else {
        let pre = bits.drop_last();
        let r = read_bits(page, pre);
        let n = bits.len() - 1;
        lemma_read_bits_bit(page, pre, k);
        lemma_read_bits_bit(page, pre, n);
        if page_bit(page, bits.last()) {
            lemma_or_bit(r[n / 8], (n % 8) as u32, (k % 8) as u32);
            if k / 8 == n / 8 {
                assert((k % 8 == n % 8) == (k == n));
            }
        }
        if k < n {
            assert(pre[k] == bits[k]);
        }
    }
}

/// Page bits after writing at distinct bit numbers hold the written value
/// bits.
proof fn lemma_write_bits_bit(page: Seq<u8>, value: Seq<u8>, bits: Seq<u32>, k: int)
    requires
        forall|i: int| 0 <= i < bits.len() ==> bits[i] / 8 < page.len(),
        forall|i: int, j: int| 0 <= i < j < bits.len() ==> bits[i] != bits[j],
        0 <= k < bits.len(),
    ensures
        write_bits(page, value, bits).len() == page.len(),
        page_bit(write_bits(page, value, bits), bits[k]) == value_bit(value, k),
    decreases bits.len(),
{
    let pre = bits.drop_last();
    let n = bits.len() - 1;
    let b = bits.last();
    lemma_write_bits_len(page, value, pre);
    let p = write_bits(page, value, pre);
    if k == n {
        lemma_with_bit_same(p[(b / 8) as int], b, value_bit(value, n));
    } else {
        lemma_write_bits_bit(page, value, pre, k);
        assert(pre[k] == bits[k]);
        let c = bits[k];
        assert(c != b);
        if c / 8 == b / 8 {
            assert(c % 8 != b % 8);
            lemma_with_bit_other(p[(b / 8) as int], b, c, value_bit(value, n));
        }
    }
}

proof fn lemma_write_bits_len(page: Seq<u8>, value: Seq<u8>, bits: Seq<u32>)
    requires
        forall|i: int| 0 <= i < bits.len() ==> bits[i] / 8 < page.len(),
    ensures
        write_bits(page, value, bits).len() == page.len(),
    decreases bits.len(),
{
    if bits.len() > 0 {
        lemma_write_bits_len(page, value, bits.drop_last());
    }
}

/// Writing at bit numbers changes no byte that none of them lies in.
proof fn lemma_write_bits_frame(page: Seq<u8>, value: Seq<u8>, bits: Seq<u32>, j: int)
    requires
        forall|i: int| 0 <= i < bits.len() ==> bits[i] / 8 < page.len(),
        0 <= j < page.len(),
        forall|i: int| 0 <= i < bits.len() ==> bits[i] / 8 != j,
    ensures
        write_bits(page, value, bits)[j] == page[j],
    decreases bits.len(),
{
    if bits.len() > 0 {
        lemma_write_bits_frame(page, value, bits.drop_last(), j);
        lemma_write_bits_len(page, value, bits.drop_last());
        assert(bits.last() / 8 != j);
    }
}

proof fn lemma_write_bits_bit_frame(page: Seq<u8>, value: Seq<u8>, bits: Seq<u32>, c: u32)
    requires
        forall|i: int| 0 <= i < bits.len() ==> bits[i] / 8 < page.len(),
        c / 8 < page.len(),
        forall|i: int| 0 <= i < bits.len() ==> bits[i] != c,
    ensures
        page_bit(write_bits(page, value, bits), c) == page_bit(page, c),
    decreases bits.len(),
{
    if bits.len() > 0 {
        let pre = bits.drop_last();
        let b = bits.last();
        lemma_write_bits_bit_frame(page, value, pre, c);
        lemma_write_bits_len(page, value, pre);
        let p = write_bits(page, value, pre);
        if c / 8 == b / 8 {
            assert(c != b);
            assert(c % 8 != b % 8);
            lemma_with_bit_other(p[(b / 8) as int], b, c, value_bit(value, bits.len() - 1));
        }
    }
}

/// Reading a byte back after writing it gives the first byte of the value.
pub proof fn law_byte_read_after_write(page: Seq<u8>, value: Seq<u8>, b: u32)
    requires
        b < page.len(),
        value.len() == 8,
    ensures
        read_page(written_page(page, value, BinaryPosition::Byte(b)), BinaryPosition::Byte(b))
            == zero_buffer().update(0, value[0]),
{
}

/// Reading a bit back after writing it gives 1 when the value's first byte is
/// non-zero and 0 otherwise.
pub proof fn law_bit_read_after_write(page: Seq<u8>, value: Seq<u8>, b: u32, q: u32)
    requires
        b < page.len(),
        value.len() == 8,
    ensures
        read_page(written_page(page, value, BinaryPosition::Bit(b, q)), BinaryPosition::Bit(b, q))
            == zero_buffer().update(
            0,
            if value[0] != 0 {
                1u8
            } else {
                0u8
            },
        ),
{
    lemma_with_bit_same(page[b as int], q, value[0] != 0);
}

/// Reading `Bytes(from, to)` after writing there gives the first
/// `min(to - from, 8)` bytes of the value (writing covers one byte more than
/// reading).
pub proof fn law_bytes_read_after_write(page: Seq<u8>, value: Seq<u8>, from: u32, to: u32)
    requires
        from <= to < page.len(),
        value.len() == 8,
    ensures
        read_page(
            written_page(page, value, BinaryPosition::Bytes(from, to)),
            BinaryPosition::Bytes(from, to),
        ) == Seq::new(
            8,
            |i: int|
                if i < read_span_len(from, to) {
                    value[i]
                } else {
                    0u8
                },
        ),
{
    let w = written_page(page, value, BinaryPosition::Bytes(from, to));
    assert(read_page(w, BinaryPosition::Bytes(from, to)) =~= Seq::new(
        8,
        |i: int|
            if i < read_span_len(from, to) {
                value[i]
            } else {
                0u8
            },
    ));
}

/// Reading a bit range back after writing it gives the first `n` bits of the
/// value, where `n` is the number of bits of the ranges, and clear bits above;
/// this holds when no bit number occurs twice in the ranges.
pub proof fn law_bit_range_read_after_write(
    page: Seq<u8>,
    value: Seq<u8>,
    ranges: Seq<(u32, u32)>,
    k: int,
)
    requires
        value.len() == 8,
        range_bits(ranges).len() <= 64,
        forall|i: int| 0 <= i < range_bits(ranges).len() ==> range_bits(ranges)[i] / 8 < page.len(),
        forall|i: int, j: int|
            0 <= i < j < range_bits(ranges).len() ==> range_bits(ranges)[i] != range_bits(
                ranges,
            )[j],
        0 <= k < 64,
    ensures
        ({
            let r = read_bits(write_bits(page, value, range_bits(ranges)), range_bits(ranges));
            bit_is_set(r[k / 8], (k % 8) as u32) == (k < range_bits(ranges).len() && value_bit(
                value,
                k,
            ))
        }),
{
    let bits = range_bits(ranges);
    let w = write_bits(page, value, bits);
    lemma_read_bits_bit(w, bits, k);
    if k < bits.len() {
        lemma_write_bits_bit(page, value, bits, k);
    }
}

/// Writing a bit range changes no byte that none of its bits lies in.
pub proof fn law_bit_range_write_frame(
    page: Seq<u8>,
    value: Seq<u8>,
    ranges: Seq<(u32, u32)>,
    j: int,
)
    requires
        forall|i: int| 0 <= i < range_bits(ranges).len() ==> range_bits(ranges)[i] / 8 < page.len(),
        0 <= j < page.len(),
        forall|i: int| 0 <= i < range_bits(ranges).len() ==> range_bits(ranges)[i] / 8 != j,
    ensures
        write_bits(page, value, range_bits(ranges))[j] == page[j],
{
    lemma_write_bits_frame(page, value, range_bits(ranges), j);
}

/// Writing a bit range sets the `k`-th bit it visits (ranges in order, bits
/// ascending) to bit `k` of the value, when no bit number occurs twice, and
/// leaves every page bit outside the ranges as it was.
pub proof fn law_bit_range_write_bits(
    page: Seq<u8>,
    value: Seq<u8>,
    ranges: Seq<(u32, u32)>,
    k: int,
    c: u32,
)
    requires
        forall|i: int| 0 <= i < range_bits(ranges).len() ==> range_bits(ranges)[i] / 8 < page.len(),
        forall|i: int, j: int|
            0 <= i < j < range_bits(ranges).len() ==> range_bits(ranges)[i] != range_bits(
                ranges,
            )[j],
    ensures
        0 <= k < range_bits(ranges).len() ==> page_bit(
            write_bits(page, value, range_bits(ranges)),
            range_bits(ranges)[k],
        ) == value_bit(value, k),
        (c / 8 < page.len() && forall|i: int|
            0 <= i < range_bits(ranges).len() ==> range_bits(ranges)[i] != c) ==> page_bit(
            write_bits(page, value, range_bits(ranges)),
            c,
        ) == page_bit(page, c),
{
    let bits = range_bits(ranges);
    if 0 <= k < bits.len() {
        lemma_write_bits_bit(page, value, bits, k);
    }
    if c / 8 < page.len() && forall|i: int| 0 <= i < bits.len() ==> bits[i] != c {
        lemma_write_bits_bit_frame(page, value, bits, c);
    }
}

} // verus!
