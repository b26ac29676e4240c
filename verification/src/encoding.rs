//! The four-byte little-endian layout of a `u32`, as a mathematical model.

use vstd::prelude::*;

verus! {

/// The number that four bytes denote in little-endian order: the first byte
/// is the least significant one.
pub open spec fn u32_from_le(bytes: Seq<u8>) -> u32
    recommends
        bytes.len() == 4,
{
    (bytes[0] as int + bytes[1] as int * 0x100 + bytes[2] as int * 0x1_0000 + bytes[3] as int
        * 0x100_0000) as u32
}

/// The four bytes that denote `value` in little-endian order.
pub open spec fn u32_to_le(value: u32) -> Seq<u8> {
    seq![
        (value % 0x100) as u8,
        (value / 0x100 % 0x100) as u8,
        (value / 0x1_0000 % 0x100) as u8,
        (value / 0x100_0000) as u8,
    ]
}

/// Encoding a number and decoding the bytes gives the number back, and the
/// encoding is always four bytes long.
pub proof fn lemma_decode_encode(value: u32)
    ensures
        u32_to_le(value).len() == 4,
        u32_from_le(u32_to_le(value)) == value,
{
}

/// Decoding four bytes and encoding the number gives the same four bytes back.
pub proof fn lemma_encode_decode(bytes: Seq<u8>)
    requires
        bytes.len() == 4,
    ensures
        u32_to_le(u32_from_le(bytes)) == bytes,
{
    let b0 = bytes[0] as int;
    let b1 = bytes[1] as int;
    let b2 = bytes[2] as int;
    let b3 = bytes[3] as int;
    let high = b1 + b2 * 0x100 + b3 * 0x1_0000;
    let higher = b2 + b3 * 0x100;
    let value = u32_from_le(bytes);
    assert(value == b0 + high * 0x100);
    lemma_low_byte_splits(b0, high);
    lemma_low_byte_splits(b1, higher);
    lemma_low_byte_splits(b2, b3);
    assert(value / 0x1_0000 == (value / 0x100) / 0x100);
    assert(value / 0x100_0000 == (value / 0x1_0000) / 0x100);
    assert(u32_to_le(value) =~= bytes);
}

/// A number written as a byte below a multiple of 256 gives the byte back as
/// its remainder and the multiplier as its quotient.
proof fn lemma_low_byte_splits(low: int, rest: int)
    requires
        0 <= low < 0x100,
    ensures
        (low + rest * 0x100) % 0x100 == low,
        (low + rest * 0x100) / 0x100 == rest,
{
}

/// The error that the borsh crate reports; nothing is known of its contents.
#[verifier::external_type_specification]
#[verifier::external_body]
pub struct ExIoError(std::io::Error);

/// Calls borsh's `BorshDeserialize::try_from_slice` for `u32`.
///
/// Trusted: borsh reads exactly four bytes, takes them as a little-endian
/// number, and reports an error when fewer than four bytes are there or when
/// bytes are left over.
#[verifier::external_body]
pub(crate) fn borsh_read_u32(bytes: &[u8]) -> (outcome: Result<u32, std::io::Error>)
    ensures
        match outcome {
            Ok(value) => bytes@.len() == 4 && value == u32_from_le(bytes@),
            Err(_) => bytes@.len() != 4,
        },
{
    <u32 as borsh::BorshDeserialize>::try_from_slice(bytes)
}

/// Calls borsh's `BorshSerialize::serialize` for `u32`, with the slice as the
/// writer.
///
/// Trusted: borsh hands the four little-endian bytes of the number to the
/// writer in one piece. A slice of at least four bytes takes them at its
/// front and keeps the rest; a shorter one makes the call fail. The length of
/// the slice never changes.
#[verifier::external_body]
pub(crate) fn borsh_write_u32(value: u32, dest: &mut [u8]) -> (outcome: Result<(), std::io::Error>)
    ensures
        final(dest)@.len() == old(dest)@.len(),
        outcome is Ok <==> old(dest)@.len() >= 4,
        outcome is Ok ==> final(dest)@ == u32_to_le(value) + old(dest)@.skip(4),
{
    let mut writer: &mut [u8] = dest;
    borsh::BorshSerialize::serialize(&value, &mut writer)
}

} // verus!
