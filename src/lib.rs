//! Schema document model for Cap'n Proto: type mapping, per-struct ordinal
//! validation and deterministic rendering to schema text.
//!
//! - `model`: the document tree (structs, fields, unions, groups, types)
//!   and its rendering.
//! - `validate`: uniqueness of ordinals within each struct.
//! - `mapper`: host type descriptors to schema types.
//! - `host`: schema structs from descriptions of host structs and enums.
//! - `schema`: whole schema texts and files.
//! - `registry`: a caller-owned accumulator of schema files.
//! - `laws`: properties relating the above.

pub mod text;
pub mod model;
pub mod mapper;
pub mod validate;
pub mod schema;
pub mod laws;
pub mod host;
pub mod registry;

pub use host::{FieldsKind, HostField, HostShape, HostShapeKind, HostVariant, ShapeError};
pub use mapper::{map_type, MappingError, TypeDescriptor};
pub use model::{
    CapnpDocument, CapnpField, CapnpItem, CapnpStruct, CapnpType, CapnpUnion, CapnpUnionVariant,
    CapnpVariantType,
};
pub use registry::{RegistryError, SchemaRegistry};
pub use schema::{schema_for_item, schema_from_items};
pub use validate::ValidationError;
