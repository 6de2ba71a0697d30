//! The structural description of a wrapper type and its shape validation.
//!
//! A wrapper definition is accepted exactly when it is a struct with one
//! field whose declared type is a path of a single segment; every other
//! shape is rejected with a definition-time error.

use vstd::prelude::*;

verus! {

/// The declared type of a field: either a named path, given by its
/// segments, or some other shape (a reference, a tuple, a generic
/// application, ...) that the generator does not support.
#[derive(Clone, Debug, PartialEq, Eq)]
pub enum FieldTy {
    Path { segments: Vec<String> },
    Other,
}

/// The body of a type definition, as far as the generator inspects it.
#[derive(Clone, Debug, PartialEq, Eq)]
pub enum DefBody {
    Struct { fields: Vec<FieldTy> },
    Enum,
    Union,
}

/// A named type definition: the input of the generator.
#[derive(Clone, Debug, PartialEq, Eq)]
pub struct TypeDef {
    pub name: String,
    pub body: DefBody,
}

/// A validated wrapper definition: the wrapper's name together with the
/// name of the single primitive type it carries.
#[derive(Clone, Debug, PartialEq, Eq)]
pub struct Descriptor {
    pub name: String,
    pub primitive: String,
}

/// The definition-shape errors. Each is fatal at definition time: a
/// malformed definition produces no capability bundle.
#[derive(Clone, Copy, Debug, PartialEq, Eq, Structural)]
pub enum ShapeError {
    /// The definition is a struct, but not with exactly one field.
    WrongFieldCount,
    /// The single field's declared type is not a path of one segment.
    UnsupportedFieldType,
    /// The definition is not a struct at all.
    UnsupportedDefinitionKind,
}

/// A field type is simple when it is a named path of exactly one segment.
pub open spec fn simple_path(t: FieldTy) -> bool {
    t is Path && t->Path_segments@.len() == 1
}

/// A definition has a valid wrapper shape when it is a struct with exactly
/// one field whose declared type is a single-segment path.
pub open spec fn valid_shape(d: TypeDef) -> bool {
    &&& d.body is Struct
    &&& d.body->Struct_fields@.len() == 1
    &&& simple_path(d.body->Struct_fields@[0])
}

/// The name of the primitive carried by a valid wrapper definition.
pub open spec fn carried_primitive(d: TypeDef) -> Seq<char> {
    d.body->Struct_fields@[0]->Path_segments@[0]@
}

impl ShapeError {
    /// The diagnostic text of this error.
    pub fn message(&self) -> (r: &'static str)
        ensures
            *self is WrongFieldCount ==> r@ == "wrapper must have exactly one field"@,
            *self is UnsupportedFieldType ==> r@ == "unsupported field type shape"@,
            *self is UnsupportedDefinitionKind ==> r@ == "unsupported definition kind"@,
    {
        match self {
            ShapeError::WrongFieldCount => "wrapper must have exactly one field",
            ShapeError::UnsupportedFieldType => "unsupported field type shape",
            ShapeError::UnsupportedDefinitionKind => "unsupported definition kind",
        }
    }
}

/// Validate the shape of a type definition.
///
/// Succeeds exactly on valid wrapper shapes, and then yields the wrapper's
/// name together with the carried primitive's name. Each rejected shape is
/// mapped to its own error.
pub fn validate(d: &TypeDef) -> (r: Result<Descriptor, ShapeError>)
    ensures
        r is Ok <==> valid_shape(*d),
        r is Ok ==> r->Ok_0.name@ == d.name@ && r->Ok_0.primitive@ == carried_primitive(*d),
        !(d.body is Struct) ==> r == Result::<Descriptor, ShapeError>::Err(
            ShapeError::UnsupportedDefinitionKind,
        ),
        d.body is Struct && d.body->Struct_fields@.len() != 1 ==> r
            == Result::<Descriptor, ShapeError>::Err(ShapeError::WrongFieldCount),
        d.body is Struct && d.body->Struct_fields@.len() == 1 && !simple_path(
            d.body->Struct_fields@[0],
        ) ==> r == Result::<Descriptor, ShapeError>::Err(ShapeError::UnsupportedFieldType),
{
    match &d.body {
        DefBody::Struct { fields } => {
            if fields.len() != 1 {
                Err(ShapeError::WrongFieldCount)
            } else {
                match &fields[0] {
                    FieldTy::Path { segments } => {
                        if segments.len() == 1 {
                            Ok(Descriptor { name: d.name.clone(), primitive: segments[0].clone() })
                        } else {
                            Err(ShapeError::UnsupportedFieldType)
                        }
                    },
                    FieldTy::Other => Err(ShapeError::UnsupportedFieldType),
                }
            }
        },
        DefBody::Enum => Err(ShapeError::UnsupportedDefinitionKind),
        DefBody::Union => Err(ShapeError::UnsupportedDefinitionKind),
    }
}

} // verus!
