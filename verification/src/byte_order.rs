//! Fixed-width integer encoding into an eight byte buffer, through the
//! `byteorder` crate.
use byteorder::{BigEndian, ByteOrder, LittleEndian};
use vstd::prelude::*;

verus! {

/// `LittleEndian::write_u16` writes `n` least significant byte first into the
/// first two bytes of the buffer and leaves the others alone.
#[verifier::external_body]
pub(crate) fn write_u16_le(buf: &mut [u8; 8], n: u16)
    ensures
        final(buf)@ == old(buf)@.update(0, n as u8).update(1, (n >> 8) as u8),
{
    LittleEndian::write_u16(&mut buf[..], n)
}

/// `BigEndian::write_u16` writes `n` most significant byte first into the
/// first two bytes of the buffer and leaves the others alone.
#[verifier::external_body]
pub(crate) fn write_u16_be(buf: &mut [u8; 8], n: u16)
    ensures
        final(buf)@ == old(buf)@.update(0, (n >> 8) as u8).update(1, n as u8),
{
    BigEndian::write_u16(&mut buf[..], n)
}

/// `LittleEndian::write_u32` writes `n` least significant byte first into the
/// first four bytes of the buffer and leaves the others alone.
#[verifier::external_body]
pub(crate) fn write_u32_le(buf: &mut [u8; 8], n: u32)
    ensures
        final(buf)@ == old(buf)@.update(0, n as u8).update(1, (n >> 8) as u8).update(
            2,
            (n >> 16) as u8,
        ).update(3, (n >> 24) as u8),
{
    LittleEndian::write_u32(&mut buf[..], n)
}

/// `BigEndian::write_u32` writes `n` most significant byte first into the
/// first four bytes of the buffer and leaves the others alone.
#[verifier::external_body]
pub(crate) fn write_u32_be(buf: &mut [u8; 8], n: u32)
    ensures
        final(buf)@ == old(buf)@.update(0, (n >> 24) as u8).update(1, (n >> 16) as u8).update(
            2,
            (n >> 8) as u8,
        ).update(3, n as u8),
{
    BigEndian::write_u32(&mut buf[..], n)
}

/// `LittleEndian::write_u64` writes all eight bytes of `n`, least significant
/// first.
#[verifier::external_body]
pub(crate) fn write_u64_le(buf: &mut [u8; 8], n: u64)
    ensures
        final(buf)@ == seq![
            n as u8,
            (n >> 8) as u8,
            (n >> 16) as u8,
            (n >> 24) as u8,
            (n >> 32) as u8,
            (n >> 40) as u8,
            (n >> 48) as u8,
            (n >> 56) as u8,
        ],
{
    LittleEndian::write_u64(&mut buf[..], n)
}

/// `BigEndian::write_u64` writes all eight bytes of `n`, most significant
/// first.
#[verifier::external_body]
pub(crate) fn write_u64_be(buf: &mut [u8; 8], n: u64)
    ensures
        final(buf)@ == seq![
            (n >> 56) as u8,
            (n >> 48) as u8,
            (n >> 40) as u8,
            (n >> 32) as u8,
            (n >> 24) as u8,
            (n >> 16) as u8,
            (n >> 8) as u8,
            n as u8,
        ],
{
    BigEndian::write_u64(&mut buf[..], n)
}

/// `LittleEndian::read_u16` reads the first two bytes, least significant first.
#[verifier::external_body]
pub(crate) fn read_u16_le(buf: &[u8; 8]) -> (n: u16)
    ensures
        n == (buf@[0] as u16) | ((buf@[1] as u16) << 8),
{
    LittleEndian::read_u16(&buf[..])
}

/// `BigEndian::read_u16` reads the first two bytes, most significant first.
#[verifier::external_body]
pub(crate) fn read_u16_be(buf: &[u8; 8]) -> (n: u16)
    ensures
        n == ((buf@[0] as u16) << 8) | (buf@[1] as u16),
{
    BigEndian::read_u16(&buf[..])
}

/// `LittleEndian::read_u32` reads the first four bytes, least significant first.
#[verifier::external_body]
pub(crate) fn read_u32_le(buf: &[u8; 8]) -> (n: u32)
    ensures
        n == (buf@[0] as u32) | ((buf@[1] as u32) << 8) | ((buf@[2] as u32) << 16) | ((
        buf@[3] as u32) << 24),
{
    LittleEndian::read_u32(&buf[..])
}

/// `BigEndian::read_u32` reads the first four bytes, most significant first.
#[verifier::external_body]
pub(crate) fn read_u32_be(buf: &[u8; 8]) -> (n: u32)
    ensures
        n == ((buf@[0] as u32) << 24) | ((buf@[1] as u32) << 16) | ((buf@[2] as u32) << 8) | (
        buf@[3] as u32),
{
    BigEndian::read_u32(&buf[..])
}

/// `LittleEndian::read_u64` reads all eight bytes, least significant first.
#[verifier::external_body]
pub(crate) fn read_u64_le(buf: &[u8; 8]) -> (n: u64)
    ensures
        n == (buf@[0] as u64) | ((buf@[1] as u64) << 8) | ((buf@[2] as u64) << 16) | ((
        buf@[3] as u64) << 24) | ((buf@[4] as u64) << 32) | ((buf@[5] as u64) << 40) | ((
        buf@[6] as u64) << 48) | ((buf@[7] as u64) << 56),
{
    LittleEndian::read_u64(&buf[..])
}

/// `BigEndian::read_u64` reads all eight bytes, most significant first.
#[verifier::external_body]
pub(crate) fn read_u64_be(buf: &[u8; 8]) -> (n: u64)
    ensures
        n == ((buf@[0] as u64) << 56) | ((buf@[1] as u64) << 48) | ((buf@[2] as u64) << 40) | ((
        buf@[3] as u64) << 32) | ((buf@[4] as u64) << 24) | ((buf@[5] as u64) << 16) | ((
        buf@[6] as u64) << 8) | (buf@[7] as u64),
{
    BigEndian::read_u64(&buf[..])
}

} // verus!
