//! Identifiers for the frame profiler: 32-bit FNV-1a hashes of names, folded to trace ids.
use vstd::prelude::*;

verus! {

pub const FNV_OFFSET_BASIS: u32 = 2166136261;

pub const FNV_PRIME: u32 = 16777619;

/// FNV-1a hash of a byte string: start from the offset basis, then for each
/// byte xor it in and multiply by the prime modulo 2^32.
pub open spec fn spec_fnv1a(bytes: Seq<u8>) -> u32
    decreases bytes.len(),
{
    if bytes.len() == 0 {
        FNV_OFFSET_BASIS
    } else {
        let h = spec_fnv1a(bytes.drop_last()) ^ (bytes.last() as u32);
        ((h as nat * FNV_PRIME as nat) % 0x1_0000_0000) as u32
    }
}

/// FNV-1a hash of `bytes`.
pub fn fvn1a(bytes: &[u8]) -> (r: u32)
    ensures
        r == spec_fnv1a(bytes@),
{
    let mut hash: u32 = FNV_OFFSET_BASIS;
    let mut i: usize = 0;
    while i < bytes.len()
        invariant
            i <= bytes@.len(),
            hash == spec_fnv1a(bytes@.take(i as int)),
        decreases bytes@.len() - i,
    {
        assert(bytes@.take(i + 1).drop_last() =~= bytes@.take(i as int));
        hash = hash ^ (bytes[i] as u32);
        hash = hash.wrapping_mul(FNV_PRIME);
        i = i + 1;
    }
    assert(bytes@.take(i as int) =~= bytes@);
    hash
}

/// Folds a 32-bit hash into 16 bits by xoring its halves.
pub open spec fn spec_fold16(h: u32) -> u16 {
    ((h >> 16u32) ^ (h & 0xFFFFu32)) as u16
}

/// The 16-bit trace id of a name.
pub fn fvn1a_trace_id(bytes: &[u8]) -> (r: u16)
    ensures
        r == spec_fold16(spec_fnv1a(bytes@)),
{
    let hash = fvn1a(bytes);
    let folded = (hash >> 16u32) ^ (hash & 0xFFFFu32);
    folded as u16
}

/// The 15-bit profiler id of a function: the low 15 bits of the FNV-1a hash of
/// `"{owner}::{name}"`, or of `name` alone when `owner` is empty.
pub open spec fn spec_function_id(owner: Seq<u8>, name: Seq<u8>) -> u16 {
    let input = if owner.len() == 0 { name } else { owner + seq![58u8, 58u8] + name };
    (spec_fnv1a(input) & 0x7FFFu32) as u16
}

/// The profiler id of a function (see `spec_function_id`).
pub fn function_id(owner: &[u8], name: &[u8]) -> (r: u16)
    requires
        owner@.len() + name@.len() + 2 <= usize::MAX,
    ensures
        r == spec_function_id(owner@, name@),
{
    let mut input: Vec<u8> = Vec::new();
    let mut i: usize = 0;
    while i < owner.len()
        invariant
            i <= owner@.len(),
            input@ == owner@.take(i as int),
        decreases owner@.len() - i,
    {
        input.push(owner[i]);
        i = i + 1;
        assert(input@ =~= owner@.take(i as int));
    }
    assert(owner@.take(i as int) =~= owner@);
    if owner.len() > 0 {
        input.push(58u8);
        input.push(58u8);
    }
    let ghost prefix = input@;
    let mut j: usize = 0;
    while j < name.len()
        invariant
            j <= name@.len(),
            input@ == prefix + name@.take(j as int),
        decreases name@.len() - j,
    {
        input.push(name[j]);
        j = j + 1;
        assert(input@ =~= prefix + name@.take(j as int));
    }
    assert(name@.take(j as int) =~= name@);
    proof {
        if owner@.len() == 0 {
            assert(input@ =~= name@);
        } else {
            assert(input@ =~= owner@ + seq![58u8, 58u8] + name@);
        }
    }
    let h = fvn1a(input.as_slice());
    (h & 0x7FFFu32) as u16
}

/// Reports function entry on creation and exit on drop; holds the exit signal.
pub struct ProfilingGuard(pub u16);

impl ProfilingGuard {
    /// A guard for function `id`: its exit signal is `id` with the top bit set.
    pub fn for_function_id(id: u16) -> (r: Self)
        ensures
            r.0 == id | 0x8000u16,
    {
        ProfilingGuard(id | 0x8000)
    }
}

} // verus!
