//! Emission of the capability bundle for a validated wrapper definition.
//!
//! Generation is a pure function: the same definition always yields the
//! same bundle, namely one entry per capability row, in a fixed order,
//! each bound to the wrapper's name and its carried primitive.

use vstd::prelude::*;

use crate::shape::{carried_primitive, validate, valid_shape, Descriptor, ShapeError, TypeDef};

verus! {

/// One capability of the generated bundle. The semantics each capability
/// promises of the wrapper are modeled and proved in [`crate::value`].
#[derive(Clone, Copy, Debug, PartialEq, Eq, Structural)]
pub enum Capability {
    /// Construction of the wrapper carrying the primitive's zero value.
    DefaultConstruction,
    /// The next representable value; refused at the maximum.
    Successor,
    /// The previous representable value; refused at zero.
    Predecessor,
    /// The wrapper carrying the primitive's maximum representable value.
    MaximumSentinel,
    /// Conversion of the carried value to a platform-width index.
    IndexCastTo,
    /// Conversion of a platform-width index into the wrapper.
    IndexCastFrom,
    /// Exposure of the carried primitive value by copy.
    ValueProjection,
    /// Equality of wrappers as equality of their projected values.
    Equality,
    /// The total order of wrappers mirroring the primitive's order.
    TotalOrdering,
    /// Hashing of the wrapper as hashing of its projected value.
    Hashing,
    /// Trivial duplication: the carried primitive is a plain value.
    Duplication,
}

/// One emitted implementation: a capability bound to the wrapper's name
/// and the carried primitive's name.
#[derive(Clone, Debug, PartialEq, Eq)]
pub struct CapabilityImpl {
    pub capability: Capability,
    pub wrapper: String,
    pub primitive: String,
}

/// The fixed order in which the capability rows are emitted.
pub open spec fn capability_order() -> Seq<Capability> {
    seq![
        Capability::DefaultConstruction,
        Capability::Successor,
        Capability::Predecessor,
        Capability::MaximumSentinel,
        Capability::IndexCastTo,
        Capability::IndexCastFrom,
        Capability::ValueProjection,
        Capability::Equality,
        Capability::TotalOrdering,
        Capability::Hashing,
        Capability::Duplication,
    ]
}

/// A bundle is complete for a wrapper name and a primitive name when it
/// holds exactly the capability rows, in their fixed order, each bound to
/// those two names.
pub open spec fn complete_bundle(b: Seq<CapabilityImpl>, name: Seq<char>, primitive: Seq<char>) -> bool {
    &&& b.len() == capability_order().len()
    &&& forall|i: int|
        0 <= i < b.len() ==> {
            &&& (#[trigger] b[i]).capability == capability_order()[i]
            &&& b[i].wrapper@ == name
            &&& b[i].primitive@ == primitive
        }
}

fn bundle_entry(capability: Capability, desc: &Descriptor) -> (r: CapabilityImpl)
    ensures
        r.capability == capability,
        r.wrapper@ == desc.name@,
        r.primitive@ == desc.primitive@,
{
    CapabilityImpl {
        capability,
        wrapper: desc.name.clone(),
        primitive: desc.primitive.clone(),
    }
}

/// Emit the capability bundle for a validated wrapper definition.
///
/// Emission is deterministic and total on validated descriptors: it always
/// yields the complete bundle for the descriptor's two names.
pub fn generate(desc: &Descriptor) -> (r: Vec<CapabilityImpl>)
    ensures
        complete_bundle(r@, desc.name@, desc.primitive@),
{
    let mut bundle: Vec<CapabilityImpl> = Vec::new();
    bundle.push(bundle_entry(Capability::DefaultConstruction, desc));
    bundle.push(bundle_entry(Capability::Successor, desc));
    bundle.push(bundle_entry(Capability::Predecessor, desc));
    bundle.push(bundle_entry(Capability::MaximumSentinel, desc));
    bundle.push(bundle_entry(Capability::IndexCastTo, desc));
    bundle.push(bundle_entry(Capability::IndexCastFrom, desc));
    bundle.push(bundle_entry(Capability::ValueProjection, desc));
    bundle.push(bundle_entry(Capability::Equality, desc));
    bundle.push(bundle_entry(Capability::TotalOrdering, desc));
    bundle.push(bundle_entry(Capability::Hashing, desc));
    bundle.push(bundle_entry(Capability::Duplication, desc));
    bundle
}

/// Validate a type definition and, where its shape is accepted, emit its
/// capability bundle.
///
/// Succeeds exactly on valid wrapper shapes: a struct with one field whose
/// declared type is a single-segment path. The bundle is then the complete
/// capability set for the wrapper's name and its carried primitive; every
/// other shape yields its definition-shape error and no bundle.
pub fn derive_stable_id(d: &TypeDef) -> (r: Result<Vec<CapabilityImpl>, ShapeError>)
    ensures
        r is Ok <==> valid_shape(*d),
        r is Ok ==> complete_bundle(r->Ok_0@, d.name@, carried_primitive(*d)),
        !(d.body is Struct) ==> r is Err && r->Err_0 == ShapeError::UnsupportedDefinitionKind,
        d.body is Struct && d.body->Struct_fields@.len() != 1 ==> r is Err && r->Err_0
            == ShapeError::WrongFieldCount,
        d.body is Struct && d.body->Struct_fields@.len() == 1 && !crate::shape::simple_path(
            d.body->Struct_fields@[0],
        ) ==> r is Err && r->Err_0 == ShapeError::UnsupportedFieldType,
{
    match validate(d) {
        Ok(desc) => Ok(generate(&desc)),
        Err(e) => Err(e),
    }
}

} // verus!
