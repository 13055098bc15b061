//! The recorded charge: the one value that is carried from poll to poll.
//!
//! It is kept as four bytes, an unsigned 32-bit number with the least
//! significant byte first. A record that is absent or shorter than that reads
//! as a full battery: to a first run, any charge is a fall from full.

use vstd::prelude::*;

verus! {

/// The charge assumed where no usable record exists.
pub const DEFAULT_PERCENTAGE: u32 = 100;

/// The number of bytes in a record.
pub const RECORD_LEN: usize = 4;

/// The four bytes of `p`, least significant first.
pub open spec fn le_bytes(p: u32) -> Seq<u8> {
    seq![
        (p % 256) as u8,
        (p / 256 % 256) as u8,
        (p / 65536 % 256) as u8,
        (p / 16777216) as u8,
    ]
}

/// The number whose least significant byte is `b[0]`, and so on up to `b[3]`.
pub open spec fn le_value(b: Seq<u8>) -> int
    recommends
        b.len() >= 4,
{
    b[0] + 256 * b[1] + 65536 * b[2] + 16777216 * b[3]
}

/// The charge that a record holds: the number in its first four bytes, or
/// the default where it has fewer.
pub open spec fn recorded(bytes: Seq<u8>) -> int {
    if bytes.len() < 4 {
        100
    } else {
        le_value(bytes)
    }
}

/// The name of the file, within the system's temporary directory, that holds
/// the record.
pub fn state_file_name() -> (name: &'static str)
    ensures
        name@ == "bn_state"@,
{
    "bn_state"
}

/// Lays out a charge as a record.
pub fn encode(percentage: u32) -> (bytes: Vec<u8>)
    ensures
        bytes@ == le_bytes(percentage),
{
    let mut bytes: Vec<u8> = Vec::with_capacity(RECORD_LEN);
    bytes.push((percentage % 256) as u8);
    bytes.push((percentage / 256 % 256) as u8);
    bytes.push((percentage / 65536 % 256) as u8);
    bytes.push((percentage / 16777216) as u8);
    assert(bytes@ =~= le_bytes(percentage));
    bytes
}

/// Reads the charge out of a record. Bytes after the fourth are ignored; a
/// record of fewer than four bytes yields the default.
pub fn decode(bytes: &[u8]) -> (percentage: u32)
    ensures
        percentage == recorded(bytes@),
{
    if bytes.len() < RECORD_LEN {
        return DEFAULT_PERCENTAGE;
    }
    let b0: u32 = bytes[0] as u32;
    let b1: u32 = bytes[1] as u32;
    let b2: u32 = bytes[2] as u32;
    let b3: u32 = bytes[3] as u32;
    b0 + 256 * b1 + 65536 * b2 + 16777216 * b3
}

/// The charge recorded by the previous poll, given the contents of the state
/// file, or `None` where the file is missing or could not be read.
pub fn load(contents: &Option<Vec<u8>>) -> (percentage: u32)
    ensures
        percentage == match *contents {
            Some(bytes) => recorded(bytes@),
            None => 100,
        },
{
    match contents {
        Some(bytes) => decode(bytes.as_slice()),
        None => DEFAULT_PERCENTAGE,
    }
}

/// A record is four bytes long.
pub proof fn lemma_record_len(p: u32)
    ensures
        le_bytes(p).len() == 4,
{
}

/// A charge that is written and read back comes out unchanged.
pub proof fn lemma_round_trip(p: u32)
    ensures
        recorded(le_bytes(p)) == p,
{
    let b = le_bytes(p);
    assert(b[0] == p % 256);
    assert(b[1] == p / 256 % 256);
    assert(b[2] == p / 65536 % 256);
    assert(b[3] == p / 16777216);
}

/// A record too short to hold a number reads as the default, whatever its
/// bytes are.
pub proof fn lemma_short_record_is_default(bytes: Seq<u8>)
    requires
        bytes.len() < 4,
    ensures
        recorded(bytes) == 100,
{
}

/// A record and the same record with further bytes after it read alike.
pub proof fn lemma_trailing_bytes_ignored(bytes: Seq<u8>, rest: Seq<u8>)
    requires
        bytes.len() == 4,
    ensures
        recorded(bytes + rest) == recorded(bytes),
{
}

} // verus!
