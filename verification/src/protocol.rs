//! The synchronization protocol's data: the 8-byte little-endian channel
//! messages exchanged between parent and child, and the identity-map lines
//! the parent writes for the child's user namespace.

use vstd::prelude::*;
use vstd::bytes::{
    lemma_auto_spec_u64_to_from_le_bytes, spec_u64_from_le_bytes, spec_u64_to_le_bytes,
    u64_from_le_bytes, u64_to_le_bytes,
};
use vstd::string::StringExecFns;

use crate::errors::Error;

verus! {

/// Every channel message is exactly this many bytes.
pub const MESSAGE_SIZE: usize = 8;

/// First host id that container ids are mapped onto.
pub const USERNS_OFFSET: u32 = 0;

/// Number of ids covered by the mapping: the whole unsigned 32-bit space.
pub const USERNS_COUNT: u32 = 4294967295;

/// Encode a value as one channel message: 8 bytes, little endian.
pub fn encode_message(value: u64) -> (r: Vec<u8>)
    ensures
        r@ == spec_u64_to_le_bytes(value),
        r@.len() == MESSAGE_SIZE,
{
    proof {
        lemma_auto_spec_u64_to_from_le_bytes();
    }
    u64_to_le_bytes(value)
}

/// Decode one channel message. A buffer that is not exactly 8 bytes is no
/// message of this protocol and is rejected.
pub fn decode_message(bytes: &Vec<u8>) -> (r: Result<u64, Error>)
    ensures
        bytes@.len() != MESSAGE_SIZE ==> r == Err::<u64, Error>(Error::ProtocolError),
        bytes@.len() == MESSAGE_SIZE ==> r == Ok::<u64, Error>(spec_u64_from_le_bytes(bytes@)),
{
    if bytes.len() != MESSAGE_SIZE {
        return Err(Error::ProtocolError);
    }
    Ok(u64_from_le_bytes(bytes.as_slice()))
}

/// The capability flag the child sends after attempting to unshare into a
/// new user namespace: 1 when the namespace was created, else 0.
pub fn capability_message(has_userns: bool) -> (r: Vec<u8>)
    ensures
        r@ == spec_u64_to_le_bytes(if has_userns { 1u64 } else { 0u64 }),
        r@.len() == MESSAGE_SIZE,
{
    if has_userns {
        encode_message(1)
    } else {
        encode_message(0)
    }
}

/// The acknowledgement the parent sends once the identity maps are handled:
/// 8 bytes encoding 0 (success).
pub fn ack_message() -> (r: Vec<u8>)
    ensures
        r@ == spec_u64_to_le_bytes(0),
        r@.len() == MESSAGE_SIZE,
        spec_u64_from_le_bytes(r@) == 0,
{
    proof {
        lemma_auto_spec_u64_to_from_le_bytes();
    }
    encode_message(0)
}

/// Read the child's capability flag out of a received message: any nonzero
/// value means the child entered a new user namespace.
pub fn read_capability(bytes: &Vec<u8>) -> (r: Result<bool, Error>)
    ensures
        bytes@.len() != MESSAGE_SIZE ==> r == Err::<bool, Error>(Error::ProtocolError),
        bytes@.len() == MESSAGE_SIZE ==> r == Ok::<bool, Error>(
            spec_u64_from_le_bytes(bytes@) != 0,
        ),
{
    match decode_message(bytes) {
        Ok(v) => Ok(v != 0),
        Err(e) => Err(e),
    }
}

/// A message always decodes back to the value it was encoded from, and every
/// encoded message is exactly 8 bytes. In particular the acknowledgement is
/// exactly 8 bytes encoding 0.
pub proof fn lemma_message_round_trip(value: u64)
    ensures
        spec_u64_to_le_bytes(value).len() == MESSAGE_SIZE,
        spec_u64_from_le_bytes(spec_u64_to_le_bytes(value)) == value,
{
    lemma_auto_spec_u64_to_from_le_bytes();
}

/// The capability flag survives the channel: the message encoding the
/// child's flag is a full message and decodes to the same flag on the
/// parent's side, nonzero exactly when a new user namespace exists.
pub proof fn lemma_capability_round_trip(has_userns: bool)
    ensures
        spec_u64_to_le_bytes(if has_userns { 1u64 } else { 0u64 }).len() == MESSAGE_SIZE,
        (spec_u64_from_le_bytes(spec_u64_to_le_bytes(if has_userns { 1u64 } else { 0u64 })) != 0)
            == has_userns,
{
    lemma_auto_spec_u64_to_from_le_bytes();
}

/// The decimal digits of `n`, most significant first.
pub open spec fn spec_decimal(n: nat) -> Seq<char>
    decreases n,
{
    if n < 10 {
        seq![spec_digit(n)]
    } else {
        spec_decimal(n / 10).push(spec_digit(n % 10))
    }
}

/// The character for one decimal digit.
pub open spec fn spec_digit(d: nat) -> char {
    if d == 0 {
        '0'
    } else if d == 1 {
        '1'
    } else if d == 2 {
        '2'
    } else if d == 3 {
        '3'
    } else if d == 4 {
        '4'
    } else if d == 5 {
        '5'
    } else if d == 6 {
        '6'
    } else if d == 7 {
        '7'
    } else if d == 8 {
        '8'
    } else {
        '9'
    }
}

/// One decimal digit as a string slice.
fn digit_str(d: u64) -> (r: &'static str)
    requires
        d < 10,
    ensures
        r@ == seq![spec_digit(d as nat)],
{
    proof {
        reveal_strlit("0");
        reveal_strlit("1");
        reveal_strlit("2");
        reveal_strlit("3");
        reveal_strlit("4");
        reveal_strlit("5");
        reveal_strlit("6");
        reveal_strlit("7");
        reveal_strlit("8");
        reveal_strlit("9");
    }
    let r = if d == 0 {
        "0"
    } else if d == 1 {
        "1"
    } else if d == 2 {
        "2"
    } else if d == 3 {
        "3"
    } else if d == 4 {
        "4"
    } else if d == 5 {
        "5"
    } else if d == 6 {
        "6"
    } else if d == 7 {
        "7"
    } else if d == 8 {
        "8"
    } else {
        "9"
    };
    proof {
        assert(r@ =~= seq![spec_digit(d as nat)]);
    }
    r
}

/// Render `n` in decimal.
pub fn decimal_string(n: u64) -> (r: String)
    ensures
        r@ == spec_decimal(n as nat),
    decreases n,
{
    if n < 10 {
        let d = digit_str(n);
        let r = d.to_owned();
        proof {
            assert(r@ =~= spec_decimal(n as nat));
        }
        r
    } else {
        let prefix = decimal_string(n / 10);
        let r = prefix.concat(digit_str(n % 10));
        proof {
            assert(r@ =~= spec_decimal(n as nat));
        }
        r
    }
}

/// The single mapping line written into an identity-map file:
/// `0 <offset> <count>` and a newline, mapping id 0 inside the namespace
/// onto `offset` outside, for `count` consecutive ids.
pub open spec fn spec_id_map_line(offset: nat, count: nat) -> Seq<char> {
    seq!['0', ' '] + spec_decimal(offset) + seq![' '] + spec_decimal(count) + seq!['\n']
}

/// Build the identity-map line for the given mapping window.
pub fn id_map_line(offset: u32, count: u32) -> (r: String)
    ensures
        r@ == spec_id_map_line(offset as nat, count as nat),
{
    proof {
        reveal_strlit("0 ");
        reveal_strlit(" ");
        reveal_strlit("\n");
    }
    let mut s = "0 ".to_owned();
    s.append(decimal_string(offset as u64).as_str());
    s.append(" ");
    s.append(decimal_string(count as u64).as_str());
    s.append("\n");
    proof {
        assert(s@ =~= spec_id_map_line(offset as nat, count as nat));
    }
    s
}

/// The kernel-exposed identity-map file for a process: `/proc/<pid>/<name>`.
pub open spec fn spec_proc_map_path(pid: nat, name: Seq<char>) -> Seq<char> {
    "/proc/"@ + spec_decimal(pid) + "/"@ + name
}

/// Path of the user-id map file of the process `pid`.
pub fn uid_map_path(pid: u32) -> (r: String)
    ensures
        r@ == spec_proc_map_path(pid as nat, "uid_map"@),
{
    proc_map_path(pid, "uid_map")
}

/// Path of the group-id map file of the process `pid`.
pub fn gid_map_path(pid: u32) -> (r: String)
    ensures
        r@ == spec_proc_map_path(pid as nat, "gid_map"@),
{
    proc_map_path(pid, "gid_map")
}

/// Path of one identity-map file of the process `pid`.
fn proc_map_path(pid: u32, name: &str) -> (r: String)
    ensures
        r@ == spec_proc_map_path(pid as nat, name@),
{
    proof {
        reveal_strlit("/proc/");
        reveal_strlit("/");
    }
    let mut s = "/proc/".to_owned();
    s.append(decimal_string(pid as u64).as_str());
    s.append("/");
    s.append(name);
    proof {
        assert(s@ =~= spec_proc_map_path(pid as nat, name@));
    }
    s
}

} // verus!
