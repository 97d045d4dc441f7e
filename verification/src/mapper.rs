use crate::text::same_text;
use vstd::prelude::*;

verus! {

/// The scalar types of the host language that a field can be built from.
#[derive(Clone, Copy, Debug, PartialEq, Eq, Structural)]
pub enum ScalarType {
    Bool,
    I32,
    U32,
    F32,
    F64,
}

/// The scalar type that the host language writes as `name`, if it is one.
pub open spec fn scalar_of(name: Seq<char>) -> Option<ScalarType> {
    if name == "bool"@ {
        Some(ScalarType::Bool)
    } else if name == "i32"@ {
        Some(ScalarType::I32)
    } else if name == "u32"@ {
        Some(ScalarType::U32)
    } else if name == "f32"@ {
        Some(ScalarType::F32)
    } else if name == "f64"@ {
        Some(ScalarType::F64)
    } else {
        None
    }
}

impl ScalarType {
    /// Recognises a scalar type by the name that the host language gives it.
    pub fn from_name(name: &str) -> (r: Option<ScalarType>)
        ensures
            r == scalar_of(name@),
    {
        if same_text(name, "bool") {
            Some(ScalarType::Bool)
        } else if same_text(name, "i32") {
            Some(ScalarType::I32)
        } else if same_text(name, "u32") {
            Some(ScalarType::U32)
        } else if same_text(name, "f32") {
            Some(ScalarType::F32)
        } else if same_text(name, "f64") {
            Some(ScalarType::F64)
        } else {
            None
        }
    }
}

/// The type of a field as the host language declares it.
#[derive(Clone, Copy, Debug, PartialEq, Eq, Structural)]
pub enum FieldType {
    /// A single scalar.
    Scalar(ScalarType),
    /// A fixed number of scalars of one type.
    Vector(ScalarType, u32),
    /// Any other type.
    Other,
}

/// One field of a host structure: its name and its declared type.
#[derive(Debug, PartialEq, Eq)]
pub struct FieldDescriptor {
    pub name: String,
    pub ty: FieldType,
}

/// The shader-side type name that stands for a host type. Every host type is
/// given the two-component unsigned vector.
pub open spec fn shader_type_name(ty: FieldType) -> Seq<char> {
    "uvec2"@
}

/// Names the shader-side type for a field's host type.
pub fn glsl_ty_from_rs_ty(ty: &FieldType) -> (name: &'static str)
    ensures
        name@ == shader_type_name(*ty),
{
    "uvec2"
}

} // verus!
