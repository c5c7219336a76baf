//! The hash that names a file in a share link.
use vstd::prelude::*;
use vstd::string::StringSliceAdditionalSpecFns;

verus! {

/// Offset basis the share-link hash starts from.
pub const FNV_OFFSET: u64 = 0xcbf29ce484222325u64;

/// Multiplier applied before each byte is added.
pub const FNV_PRIME: u64 = 0x100000001b3u64;

/// Continues the share-link hash from the running value `h` over `bytes`:
/// each byte `b` turns `h` into `h * prime + b` modulo 2^64.
pub open spec fn fnv_fold(h: u64, bytes: Seq<u8>) -> u64
    decreases bytes.len(),
{
    if bytes.len() == 0 {
        h
    } else {
        vstd::wrapping::u64_specs::wrapping_add(
            vstd::wrapping::u64_specs::wrapping_mul(fnv_fold(h, bytes.drop_last()), FNV_PRIME),
            bytes.last() as u64,
        )
    }
}

/// The share-link hash of a byte sequence: the fold from the offset basis.
pub open spec fn fnv_spec(bytes: Seq<u8>) -> u64 {
    fnv_fold(FNV_OFFSET, bytes)
}

/// Hashes the UTF-8 bytes of `s` (used to build share links).
pub fn fnv_hash(s: &str) -> (h: u64)
    ensures
        h == fnv_spec(s.spec_bytes()),
{
    let bytes = s.as_bytes();
    let mut h: u64 = FNV_OFFSET;
    let mut i: usize = 0;
    while i < bytes.len()
        invariant
            0 <= i <= bytes@.len(),
            bytes@ == s.spec_bytes(),
            h == fnv_spec(bytes@.take(i as int)),
        decreases bytes@.len() - i,
    {
        assert(bytes@.take(i + 1).drop_last() =~= bytes@.take(i as int));
        h = h.wrapping_mul(FNV_PRIME).wrapping_add(bytes[i] as u64);
        i = i + 1;
    }
    assert(bytes@.take(i as int) =~= bytes@);
    h
}

} // verus!
