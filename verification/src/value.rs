//! The semantics of the generated capabilities, modeled and proved.
//!
//! A generated wrapper carries one unsigned primitive value. [`IdValue`]
//! models such a wrapper: the primitive kind it was generated for together
//! with the carried value, bounded by that kind's maximum. Each operation
//! here carries the contract that the corresponding emitted capability
//! promises: stepping never wraps, the two bounds are refused exactly at
//! the edges, casts round-trip on shared representable values, and
//! equality, ordering and hashing all go by the projected value alone.

use core::hash::Hasher;
use std::collections::hash_map::DefaultHasher;
use vstd::prelude::*;
use vstd::std_specs::hash::DefaultHasherAdditionalSpecFns;
use vstd::string::StringExecFns;

verus! {

/// The unsigned primitive kinds a wrapper can carry.
#[derive(Clone, Copy, Debug, PartialEq, Eq, Hash, Structural)]
pub enum PrimKind {
    U8,
    U16,
    U32,
    U64,
    Usize,
}

/// The maximum representable value of a primitive kind.
pub open spec fn prim_max(k: PrimKind) -> nat {
    match k {
        PrimKind::U8 => u8::MAX as nat,
        PrimKind::U16 => u16::MAX as nat,
        PrimKind::U32 => u32::MAX as nat,
        PrimKind::U64 => u64::MAX as nat,
        PrimKind::Usize => usize::MAX as nat,
    }
}

/// The primitive kind named by a carried primitive's name, where the name
/// is one of the supported unsigned integer kinds.
pub open spec fn kind_of_name(s: Seq<char>) -> Option<PrimKind> {
    if s == "u8"@ {
        Some(PrimKind::U8)
    } else if s == "u16"@ {
        Some(PrimKind::U16)
    } else if s == "u32"@ {
        Some(PrimKind::U32)
    } else if s == "u64"@ {
        Some(PrimKind::U64)
    } else if s == "usize"@ {
        Some(PrimKind::Usize)
    } else {
        None
    }
}

/// Resolve a carried primitive's name to its kind: exactly the five
/// supported unsigned kinds are recognized, every other name is refused.
pub fn primitive_kind(name: &String) -> (r: Option<PrimKind>)
    ensures
        r == kind_of_name(name@),
{
    if *name == String::from_str("u8") {
        Some(PrimKind::U8)
    } else if *name == String::from_str("u16") {
        Some(PrimKind::U16)
    } else if *name == String::from_str("u32") {
        Some(PrimKind::U32)
    } else if *name == String::from_str("u64") {
        Some(PrimKind::U64)
    } else if *name == String::from_str("usize") {
        Some(PrimKind::Usize)
    } else {
        None
    }
}

/// A wrapper value: the primitive kind it was generated for and the
/// carried value. Well-formed when the value is representable in the kind.
#[derive(Clone, Copy, Debug, PartialEq, Eq, Hash, Structural)]
pub struct IdValue {
    pub kind: PrimKind,
    pub value: u64,
}

/// The primitive value an index is carried as after the index cast:
/// exact, since the cast is guarded by the kind's bound.
pub open spec fn from_index_spec(val: usize) -> u64 {
    val as u64
}

/// The index a carried value casts to: the platform's natural narrowing
/// of the primitive value to the index width.
pub open spec fn to_index_spec(v: IdValue) -> usize {
    v.value as usize
}

/// The hash of a carried value: the digest of its little-endian bytes,
/// fed to the standard hasher in one write. A function of the projected
/// value alone.
pub open spec fn id_hash_spec(value: u64) -> u64 {
    DefaultHasher::spec_finish(seq![le_bytes_of(value)])
}

/// The little-endian bytes of a carried value.
pub open spec fn le_bytes_of(v: u64) -> Seq<u8> {
    seq![
        (v % 0x100) as u8,
        ((v / 0x100) % 0x100) as u8,
        ((v / 0x10000) % 0x100) as u8,
        ((v / 0x1000000) % 0x100) as u8,
        ((v / 0x100000000) % 0x100) as u8,
        ((v / 0x10000000000) % 0x100) as u8,
        ((v / 0x1000000000000) % 0x100) as u8,
        ((v / 0x100000000000000) % 0x100) as u8,
    ]
}

impl IdValue {
    /// A wrapper value is well-formed when its carried value is
    /// representable in its primitive kind.
    pub open spec fn wf(self) -> bool {
        self.value <= prim_max(self.kind)
    }

    /// Default construction: the wrapper carrying the kind's zero value.
    pub fn zero(kind: PrimKind) -> (r: IdValue)
        ensures
            r.kind == kind,
            r.value == 0,
            r.wf(),
    {
        IdValue { kind, value: 0 }
    }

    /// The maximum sentinel: the wrapper carrying the kind's maximum
    /// representable value.
    pub fn max_value(kind: PrimKind) -> (r: IdValue)
        ensures
            r.kind == kind,
            r.value == prim_max(kind),
            r.wf(),
    {
        let value: u64 = match kind {
            PrimKind::U8 => u8::MAX as u64,
            PrimKind::U16 => u16::MAX as u64,
            PrimKind::U32 => u32::MAX as u64,
            PrimKind::U64 => u64::MAX,
            PrimKind::Usize => usize::MAX as u64,
        };
        IdValue { kind, value }
    }

    /// A wrapper carrying an arbitrary value of the kind: accepted exactly
    /// when the value is representable.
    pub fn from_raw(kind: PrimKind, value: u64) -> (r: Option<IdValue>)
        ensures
            r is Some <==> value <= prim_max(kind),
            r is Some ==> r->0 == (IdValue { kind, value }) && r->0.wf(),
    {
        let bound = Self::max_value(kind);
        if value <= bound.value {
            Some(IdValue { kind, value })
        } else {
            None
        }
    }

    /// Value projection: the carried primitive value, by copy.
    pub fn project(self) -> (r: u64)
        ensures
            r == self.value,
    {
        self.value
    }

    /// Whether this wrapper is the maximum sentinel of its kind: the one
    /// value whose successor is refused.
    pub fn is_max(self) -> (r: bool)
        ensures
            r == (self.value == prim_max(self.kind)),
    {
        let bound = Self::max_value(self.kind);
        self.value == bound.value
    }

    /// Whether this wrapper is the default (zero) of its kind: the one
    /// value whose predecessor is refused.
    pub fn is_zero(self) -> (r: bool)
        ensures
            r == (self.value == 0),
    {
        self.value == 0
    }

    /// Successor: the wrapper carrying the next representable value.
    /// Refused on the maximum sentinel; never wraps.
    pub fn next_value(self) -> (r: IdValue)
        requires
            self.wf(),
            self.value != prim_max(self.kind),
        ensures
            r.kind == self.kind,
            r.value == self.value + 1,
            r.wf(),
    {
        IdValue { kind: self.kind, value: self.value + 1 }
    }

    /// Predecessor: the wrapper carrying the previous representable value.
    /// Refused on the default (zero); never wraps.
    pub fn prev_value(self) -> (r: IdValue)
        requires
            self.value != 0,
        ensures
            r.kind == self.kind,
            r.value == self.value - 1,
    {
        IdValue { kind: self.kind, value: self.value - 1 }
    }

    /// Index cast, outward: the carried value narrowed to the platform's
    /// index width, following its natural representation.
    pub fn cast_to(self) -> (r: usize)
        ensures
            r == to_index_spec(self),
    {
        #[verifier::truncate] (self.value as usize)
    }

    /// Index cast, inward: a platform-width index carried into a wrapper
    /// of the kind. Refused where the underlying conversion would refuse
    /// it: on every index at or above the kind's maximum, except for the
    /// platform-width kind itself, which converts unconditionally.
    pub fn cast_from(kind: PrimKind, val: usize) -> (r: IdValue)
        requires
            kind is Usize || (val as nat) < prim_max(kind),
        ensures
            r.kind == kind,
            r.value == from_index_spec(val),
            r.wf(),
    {
        IdValue { kind, value: val as u64 }
    }

    /// Equality of wrappers of one kind: equality of the projected values.
    pub fn eq_value(self, other: IdValue) -> (r: bool)
        requires
            self.kind == other.kind,
        ensures
            r == (self.value == other.value),
            r == (self == other),
    {
        self.value == other.value
    }

    /// Strict order on wrappers of one kind: the order of the projected
    /// values.
    pub fn lt(self, other: IdValue) -> (r: bool)
        requires
            self.kind == other.kind,
        ensures
            r == (self.value < other.value),
    {
        self.value < other.value
    }

    /// Hash of a wrapper: the digest of its projected value's bytes. Two
    /// calls on equal projections return the same digest.
    pub fn hash_value(self) -> (r: u64)
        ensures
            r == id_hash_spec(self.value),
    {
        let v = self.value;
        let mut bytes: Vec<u8> = Vec::new();
        bytes.push((v % 0x100) as u8);
        bytes.push(((v / 0x100) % 0x100) as u8);
        bytes.push(((v / 0x10000) % 0x100) as u8);
        bytes.push(((v / 0x1000000) % 0x100) as u8);
        bytes.push(((v / 0x100000000) % 0x100) as u8);
        bytes.push(((v / 0x10000000000) % 0x100) as u8);
        bytes.push(((v / 0x1000000000000) % 0x100) as u8);
        bytes.push(((v / 0x100000000000000) % 0x100) as u8);
        proof {
            assert(bytes@ =~= le_bytes_of(v));
        }
        let mut hasher = DefaultHasher::new();
        hasher.write(bytes.as_slice());
        proof {
            assert(hasher@ =~= seq![le_bytes_of(v)]);
        }
        hasher.finish()
    }
}

/// Equality mirrors projection: two wrappers of one kind are equal exactly
/// when their projected primitive values are equal.
pub proof fn lemma_equality_is_projection(a: IdValue, b: IdValue)
    requires
        a.kind == b.kind,
    ensures
        (a == b) <==> (a.value == b.value),
{
}

/// Equality is an equivalence: reflexive, symmetric and transitive.
pub proof fn lemma_equality_equivalence(a: IdValue, b: IdValue, c: IdValue)
    ensures
        a == a,
        (a == b) ==> (b == a),
        (a == b) && (b == c) ==> (a == c),
{
}

/// The order is total on each kind and consistent with equality: of two
/// wrappers of one kind, exactly one of `a < b`, `a == b`, `b < a` holds.
pub proof fn lemma_order_total(a: IdValue, b: IdValue)
    requires
        a.kind == b.kind,
    ensures
        (a.value < b.value) || (a == b) || (b.value < a.value),
        (a.value < b.value) ==> !(a == b) && !(b.value < a.value),
        (a == b) ==> !(a.value < b.value) && !(b.value < a.value),
{
}

/// The order is transitive.
pub proof fn lemma_order_transitive(a: IdValue, b: IdValue, c: IdValue)
    requires
        a.kind == b.kind,
        b.kind == c.kind,
        a.value < b.value,
        b.value < c.value,
    ensures
        a.value < c.value,
{
}

/// Hashing is consistent with equality: equal wrappers hash identically,
/// since the hash is a function of the projected value alone.
pub proof fn lemma_hash_consistency(a: IdValue, b: IdValue)
    requires
        a == b,
    ensures
        id_hash_spec(a.value) == id_hash_spec(b.value),
{
}

/// The index casts round-trip: every index the inward cast accepts is
/// returned unchanged by the outward cast.
pub proof fn lemma_cast_round_trip(kind: PrimKind, val: usize)
    requires
        kind is Usize || (val as nat) < prim_max(kind),
    ensures
        to_index_spec(IdValue { kind, value: from_index_spec(val) }) == val,
{
}

} // verus!
