//! Instance identity: the stable hash that names one box instance within one
//! entity, used for hover matching and downstream hit-testing.

use vstd::prelude::*;

verus! {

/// Identifies a node in the scene's entity hierarchy.
pub struct EntityPath {
    pub name: String,
}

/// Identity of one instance within one entity. `Missing` is the explicit
/// sentinel for "not interactive" or "no row identifier available"; a `Keyed`
/// value pairs the entity path's hash with the instance's row key, so equal
/// identities always name the same selectable object.
#[derive(Clone, Copy, PartialEq, Eq, Structural, Debug)]
pub enum InstanceIdentityHash {
    Missing,
    Keyed { entity: u64, instance: u64 },
}

pub const FNV_OFFSET_BASIS: u64 = 0xcbf2_9ce4_8422_2325;

pub const FNV_PRIME: u64 = 0x100_0000_01b3;

/// One step of the 64-bit Fowler–Noll–Vo hash, variant 1a.
pub open spec fn fnv1a_step(h: u64, b: u8) -> u64 {
    vstd::wrapping::u64_specs::wrapping_mul(h ^ (b as u64), FNV_PRIME)
}

/// The 64-bit FNV-1a hash of the first `n` bytes of `bytes`.
pub open spec fn fnv1a_prefix(bytes: Seq<u8>, n: int) -> u64
    decreases n,
{
    if n <= 0 {
        FNV_OFFSET_BASIS
    } else {
        fnv1a_step(fnv1a_prefix(bytes, n - 1), bytes[n - 1])
    }
}

/// The 64-bit FNV-1a hash of a byte sequence.
pub open spec fn fnv1a(bytes: Seq<u8>) -> u64 {
    fnv1a_prefix(bytes, bytes.len() as int)
}

/// The hash of an entity path: FNV-1a over the UTF-8 encoding of its name.
pub open spec fn entity_path_hash(path: EntityPath) -> u64 {
    fnv1a(vstd::utf8::encode_utf8(path.name@))
}

impl EntityPath {
    /// The path's stable 64-bit hash, a pure function of the path text.
    pub fn hash64(&self) -> (h: u64)
        ensures
            h == entity_path_hash(*self),
    {
        let bytes: &[u8] = self.name.as_str().as_bytes();
        let ghost all: Seq<u8> = vstd::utf8::encode_utf8(self.name@);
        let mut h: u64 = FNV_OFFSET_BASIS;
        let mut i: usize = 0;
        let n: usize = bytes.len();
        while i < n
            invariant
                n == bytes@.len(),
                bytes@ == all,
                i <= n,
                h == fnv1a_prefix(all, i as int),
            decreases n - i,
        {
            let b: u8 = bytes[i];
            h = (h ^ (b as u64)).wrapping_mul(FNV_PRIME);
            i = i + 1;
        }
        h
    }
}

/// What `identity` returns: the sentinel when the entity is not interactive
/// or the row carries no identifier, otherwise the pair of the path hash and
/// the row key.
pub open spec fn identity_spec(path: EntityPath, row: Option<u64>, interactive: bool) -> InstanceIdentityHash {
    if !interactive {
        InstanceIdentityHash::Missing
    } else {
        match row {
            Option::Some(key) => InstanceIdentityHash::Keyed {
                entity: entity_path_hash(path),
                instance: key,
            },
            Option::None => InstanceIdentityHash::Missing,
        }
    }
}

/// Derive the identity of one instance. A non-interactive entity always gets
/// the sentinel; otherwise the identity is a pure function of the entity path
/// and the row key.
pub fn identity(path: &EntityPath, row: Option<u64>, interactive: bool) -> (h: InstanceIdentityHash)
    ensures
        h == identity_spec(*path, row, interactive),
{
    if !interactive {
        InstanceIdentityHash::Missing
    } else {
        match row {
            Option::Some(key) => InstanceIdentityHash::Keyed { entity: path.hash64(), instance: key },
            Option::None => InstanceIdentityHash::Missing,
        }
    }
}

impl InstanceIdentityHash {
    /// Whether this identity names an instance at all.
    pub fn is_some(&self) -> (r: bool)
        ensures
            r == !(*self is Missing),
    {
        match self {
            InstanceIdentityHash::Missing => false,
            InstanceIdentityHash::Keyed { .. } => true,
        }
    }
}

/// Law: identity is stable. For an interactive entity the identity is a
/// pure function of the path and the row key — every derivation for the
/// same pair, in whatever frame, yields this one keyed value.
pub proof fn lemma_identity_stable(path: EntityPath, row: u64)
    ensures
        identity_spec(path, Option::Some(row), true) == (InstanceIdentityHash::Keyed {
            entity: entity_path_hash(path),
            instance: row,
        }),
{
}

/// Law: within one entity, distinct row keys give distinct identities.
pub proof fn lemma_identity_distinct_rows(path: EntityPath, row_a: u64, row_b: u64)
    requires
        row_a != row_b,
    ensures
        identity_spec(path, Option::Some(row_a), true) != identity_spec(path, Option::Some(row_b), true),
{
}

/// Law: a non-interactive entity always gets the sentinel, whatever the row.
pub proof fn lemma_identity_not_interactive(path: EntityPath, row: Option<u64>)
    ensures
        identity_spec(path, row, false) == InstanceIdentityHash::Missing,
{
}

} // verus!
