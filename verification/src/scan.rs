//! Device discovery filtering and the command endpoint identifier.
//!
//! Discovery selects the first advertising device whose name contains a
//! fixed marker. The command endpoint is addressed by a 128-bit UUID
//! derived from a well-known 16-bit identifier through the standard
//! Bluetooth base UUID.

use vstd::prelude::*;

verus! {

/// The 16-bit identifier of the fixture's writable command endpoint.
pub const COMMAND_ENDPOINT_SHORT_ID: u16 = 0x1001;

/// The needle `needle` occurs in `haystack` starting at index `i`.
pub open spec fn match_at(haystack: Seq<u8>, needle: Seq<u8>, i: int) -> bool {
    &&& 0 <= i
    &&& i + needle.len() <= haystack.len()
    &&& haystack.subrange(i, i + needle.len() as int) == needle
}

/// The needle occurs somewhere in the haystack.
pub open spec fn contains_slice(haystack: Seq<u8>, needle: Seq<u8>) -> bool {
    exists|i: int| match_at(haystack, needle, i)
}

/// The marker that an advertised device name must contain to be selected:
/// the bytes of `"Light"`.
pub open spec fn name_marker() -> Seq<u8> {
    seq![0x4Cu8, 0x69u8, 0x67u8, 0x68u8, 0x74u8]
}

/// Compares `needle` against `haystack` at offset `i`.
fn matches_at(haystack: &[u8], needle: &[u8], i: usize) -> (found: bool)
    requires
        i + needle@.len() <= haystack@.len(),
    ensures
        found == match_at(haystack@, needle@, i as int),
{
    let hl: usize = haystack.len();
    let mut k: usize = 0;
    while k < needle.len()
        invariant
            i + needle@.len() <= haystack@.len(),
            haystack@.len() == hl,
            k <= needle@.len(),
            forall|t: int| 0 <= t < k ==> haystack@[i + t] == needle@[t],
        decreases needle@.len() - k,
    {
        if haystack[i + k] != needle[k] {
            proof {
                assert(!match_at(haystack@, needle@, i as int)) by {
                    if match_at(haystack@, needle@, i as int) {
                        assert(haystack@.subrange(
                            i as int,
                            i + needle@.len() as int,
                        )[k as int] == needle@[k as int]);
                    }
                }
            }
            return false;
        }
        k += 1;
    }
    proof {
        assert(haystack@.subrange(i as int, i + needle@.len() as int) =~= needle@);
    }
    true
}

/// Decides whether `needle` occurs anywhere in `haystack`.
pub fn contains_subslice(haystack: &[u8], needle: &[u8]) -> (found: bool)
    ensures
        found == contains_slice(haystack@, needle@),
{
    if needle.len() == 0 {
        proof {
            assert(haystack@.subrange(0, 0) =~= needle@);
            assert(match_at(haystack@, needle@, 0));
        }
        return true;
    }
    if needle.len() > haystack.len() {
        proof {
            assert(forall|i: int| !match_at(haystack@, needle@, i));
        }
        return false;
    }
    let last: usize = haystack.len() - needle.len();
    let mut i: usize = 0;
    while i <= last
        invariant
            0 < needle@.len() <= haystack@.len(),
            last == haystack@.len() - needle@.len(),
            last < usize::MAX,
            i <= last + 1,
            forall|j: int| 0 <= j < i ==> !match_at(haystack@, needle@, j),
        decreases last + 1 - i,
    {
        if matches_at(haystack, needle, i) {
            return true;
        }
        i += 1;
    }
    proof {
        assert(forall|j: int| !match_at(haystack@, needle@, j));
    }
    false
}

/// True exactly when an advertised device name (as bytes) contains the
/// fixed marker `"Light"`; such a device is taken for the fixture.
pub fn device_name_matches(name: &[u8]) -> (selected: bool)
    ensures
        selected == contains_slice(name@, name_marker()),
{
    let marker: Vec<u8> = vec![0x4Cu8, 0x69u8, 0x67u8, 0x68u8, 0x74u8];
    proof {
        assert(marker@ =~= name_marker());
    }
    contains_subslice(name, marker.as_slice())
}

/// The byte layout of the 128-bit UUID that a 16-bit Bluetooth identifier
/// expands to: the identifier sits big-endian in bytes 2 and 3 of the
/// Bluetooth base UUID `00000000-0000-1000-8000-00805F9B34FB`.
pub open spec fn short_uuid_bytes(short_id: u16) -> Seq<u8> {
    seq![
        0x00u8,
        0x00u8,
        (short_id / 256) as u8,
        (short_id % 256) as u8,
        0x00u8,
        0x00u8,
        0x10u8,
        0x00u8,
        0x80u8,
        0x00u8,
        0x00u8,
        0x80u8,
        0x5Fu8,
        0x9Bu8,
        0x34u8,
        0xFBu8,
    ]
}

/// Expands a 16-bit Bluetooth identifier to the bytes of its full
/// 128-bit UUID.
pub fn short_uuid(short_id: u16) -> (bytes: Vec<u8>)
    ensures
        bytes@ == short_uuid_bytes(short_id),
{
    let hi: u8 = (short_id / 256) as u8;
    let lo: u8 = (short_id % 256) as u8;
    let bytes: Vec<u8> = vec![
        0x00u8, 0x00u8, hi, lo, 0x00u8, 0x00u8, 0x10u8, 0x00u8, 0x80u8, 0x00u8, 0x00u8,
        0x80u8, 0x5Fu8, 0x9Bu8, 0x34u8, 0xFBu8,
    ];
    proof {
        assert(bytes@ =~= short_uuid_bytes(short_id));
    }
    bytes
}

} // verus!
