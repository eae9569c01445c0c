//! Mapping of host type descriptors to schema types.

use vstd::prelude::*;
use crate::model::CapnpType;
use crate::text::{decimal, push_decimal};

verus! {

/// The shape of a host type, as a reflection layer reports it.
#[derive(Debug, PartialEq)]
pub enum TypeDescriptor {
    Bool,
    /// An integer of `width` bytes.
    Integer { signed: bool, width: u64 },
    /// A floating-point number of `width` bytes.
    Float { width: u64 },
    /// A string or a single character.
    Text,
    Void,
    /// A type without values.
    Never,
    /// An array or slice of the inner type.
    Sequence(Box<TypeDescriptor>),
    /// A user-defined struct, by name.
    UserStruct(String),
    /// A user-defined enum, by name.
    UserEnum(String),
    /// A user-defined untagged union, by name.
    UserUnion(String),
    /// A type known only by name, with its type parameters.
    Opaque { name: String, params: Vec<TypeDescriptor> },
    /// A reference or smart pointer.
    Pointer,
}

/// Why a descriptor has no schema type.
#[derive(Debug, Clone, PartialEq)]
pub enum MappingError {
    /// No integer type of this width.
    UnsupportedIntegerWidth { signed: bool, width: u64 },
    /// No floating-point type of this width.
    UnsupportedFloatWidth { width: u64 },
    /// A type without values.
    Uninhabited,
    /// A list-like opaque type given without its element type.
    MissingTypeParameter { name: String },
    /// An opaque type other than `String` and `Vec`.
    UnsupportedOpaque { name: String },
    /// An untagged union.
    UnsupportedUnion { name: String },
    /// A pointer, which the caller must unwrap first.
    UnsupportedPointer,
}

/// The schema type of a descriptor, or why it has none.
pub open spec fn mapped(d: TypeDescriptor) -> Result<CapnpType, MappingError>
    decreases d,
{
    match d {
        TypeDescriptor::Bool => Ok(CapnpType::Bool),
        TypeDescriptor::Integer { signed, width } => {
            if width == 1 {
                Ok(if signed { CapnpType::Int8 } else { CapnpType::UInt8 })
            } else if width == 2 {
                Ok(if signed { CapnpType::Int16 } else { CapnpType::UInt16 })
            } else if width == 4 {
                Ok(if signed { CapnpType::Int32 } else { CapnpType::UInt32 })
            } else if width == 8 {
                Ok(if signed { CapnpType::Int64 } else { CapnpType::UInt64 })
            } else {
                Err(MappingError::UnsupportedIntegerWidth { signed, width })
            }
        },
        TypeDescriptor::Float { width } => {
            if width == 4 {
                Ok(CapnpType::Float32)
            } else if width == 8 {
                Ok(CapnpType::Float64)
            } else {
                Err(MappingError::UnsupportedFloatWidth { width })
            }
        },
        TypeDescriptor::Text => Ok(CapnpType::Text),
        TypeDescriptor::Void => Ok(CapnpType::Void),
        TypeDescriptor::Never => Err(MappingError::Uninhabited),
        TypeDescriptor::Sequence(inner) => match mapped(*inner) {
            Ok(t) => Ok(CapnpType::List(Box::new(t))),
            Err(e) => Err(e),
        },
        TypeDescriptor::UserStruct(name) => Ok(CapnpType::UserDefined(name)),
        TypeDescriptor::UserEnum(name) => Ok(CapnpType::UserDefined(name)),
        TypeDescriptor::UserUnion(name) => Err(MappingError::UnsupportedUnion { name }),
        TypeDescriptor::Opaque { name, params } => {
            if name@ == "String"@ {
                Ok(CapnpType::Text)
            } else if name@ == "Vec"@ {
                if params.len() == 0 {
                    Err(MappingError::MissingTypeParameter { name })
                } else {
                    match mapped(params[0]) {
                        Ok(t) => Ok(CapnpType::List(Box::new(t))),
                        Err(e) => Err(e),
                    }
                }
            } else {
                Err(MappingError::UnsupportedOpaque { name })
            }
        },
        TypeDescriptor::Pointer => Err(MappingError::UnsupportedPointer),
    }
}

/// `name` reads `lit`.
fn is_named(name: &String, lit: &str) -> (r: bool)
    ensures
        r == (name@ == lit@),
{
    let other = String::from_str(lit);
    name.eq(&other)
}

/// Maps a descriptor to its schema type, recursively through sequences and
/// `Vec` parameters; names of user types are kept, not resolved.
pub fn map_type(d: &TypeDescriptor) -> (r: Result<CapnpType, MappingError>)
    ensures
        r == mapped(*d),
    decreases d,
{
    match d {
        TypeDescriptor::Bool => Ok(CapnpType::Bool),
        TypeDescriptor::Integer { signed, width } => {
            let signed = *signed;
            if *width == 1 {
                Ok(if signed { CapnpType::Int8 } else { CapnpType::UInt8 })
            } else if *width == 2 {
                Ok(if signed { CapnpType::Int16 } else { CapnpType::UInt16 })
            } else if *width == 4 {
                Ok(if signed { CapnpType::Int32 } else { CapnpType::UInt32 })
            } else if *width == 8 {
                Ok(if signed { CapnpType::Int64 } else { CapnpType::UInt64 })
            } else {
                Err(MappingError::UnsupportedIntegerWidth { signed, width: *width })
            }
        },
        TypeDescriptor::Float { width } => {
            if *width == 4 {
                Ok(CapnpType::Float32)
            } else if *width == 8 {
                Ok(CapnpType::Float64)
            } else {
                Err(MappingError::UnsupportedFloatWidth { width: *width })
            }
        },
        TypeDescriptor::Text => Ok(CapnpType::Text),
        TypeDescriptor::Void => Ok(CapnpType::Void),
        TypeDescriptor::Never => Err(MappingError::Uninhabited),
        TypeDescriptor::Sequence(inner) => match map_type(inner) {
            Ok(t) => Ok(CapnpType::List(Box::new(t))),
            Err(e) => Err(e),
        },
        TypeDescriptor::UserStruct(name) => Ok(CapnpType::UserDefined(name.clone())),
        TypeDescriptor::UserEnum(name) => Ok(CapnpType::UserDefined(name.clone())),
        TypeDescriptor::UserUnion(name) => Err(MappingError::UnsupportedUnion { name: name.clone() }),
        TypeDescriptor::Opaque { name, params } => {
            if is_named(name, "String") {
                Ok(CapnpType::Text)
            } else if is_named(name, "Vec") {
                if params.len() == 0 {
                    Err(MappingError::MissingTypeParameter { name: name.clone() })
                } else {
                    match map_type(&params[0]) {
                        Ok(t) => Ok(CapnpType::List(Box::new(t))),
                        Err(e) => Err(e),
                    }
                }
            } else {
                Err(MappingError::UnsupportedOpaque { name: name.clone() })
            }
        },
        TypeDescriptor::Pointer => Err(MappingError::UnsupportedPointer),
    }
}

/// The human-readable text of a mapping error.
pub open spec fn mapping_message(e: MappingError) -> Seq<char> {
    match e {
        MappingError::UnsupportedIntegerWidth { signed, width } => {
            if width == 16 {
                if signed {
                    "Int128 not supported in Cap'n Proto"@
                } else {
                    "UInt128 not supported in Cap'n Proto"@
                }
            } else {
                "Unsupported integer size: "@ + decimal(width as nat) + " bytes"@
            }
        },
        MappingError::UnsupportedFloatWidth { width } =>
            "Unsupported float size: "@ + decimal(width as nat) + " bytes"@,
        MappingError::Uninhabited => "Never type (!) cannot be represented in Cap'n Proto"@,
        MappingError::MissingTypeParameter { name } => name@ + " type without type parameter"@,
        MappingError::UnsupportedOpaque { name } => "Unsupported opaque type: "@ + name@,
        MappingError::UnsupportedUnion { name } => "Union types not yet supported"@,
        MappingError::UnsupportedPointer =>
            "pointers/smart-pointers not directly supported in Cap'n Proto; wrap/flatten"@,
    }
}

impl MappingError {
    /// A one-line description of the error.
    pub fn message(&self) -> (r: String)
        ensures
            r@ == mapping_message(*self),
    {
        let mut out = String::new();
        match self {
            MappingError::UnsupportedIntegerWidth { signed, width } => {
                if *width == 16 {
                    if *signed {
                        out.append("Int128 not supported in Cap'n Proto");
                    } else {
                        out.append("UInt128 not supported in Cap'n Proto");
                    }
                } else {
                    out.append("Unsupported integer size: ");
                    push_decimal(&mut out, *width);
                    out.append(" bytes");
                }
            },
            MappingError::UnsupportedFloatWidth { width } => {
                out.append("Unsupported float size: ");
                push_decimal(&mut out, *width);
                out.append(" bytes");
            },
            MappingError::Uninhabited => {
                out.append("Never type (!) cannot be represented in Cap'n Proto");
            },
            MappingError::MissingTypeParameter { name } => {
                out.append(name.as_str());
                out.append(" type without type parameter");
            },
            MappingError::UnsupportedOpaque { name } => {
                out.append("Unsupported opaque type: ");
                out.append(name.as_str());
            },
            MappingError::UnsupportedUnion { name } => {
                out.append("Union types not yet supported");
            },
            MappingError::UnsupportedPointer => {
                out.append("pointers/smart-pointers not directly supported in Cap'n Proto; wrap/flatten");
            },
        }
        assert(out@ =~= mapping_message(*self));
        out
    }
}

} // verus!
