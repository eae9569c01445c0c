//! Building schema structs from descriptions of host types: a struct's
//! fields, or an enum's variants, each with its ordinal and type descriptor.

use vstd::prelude::*;
use crate::mapper::{map_type, mapped, mapping_message, MappingError, TypeDescriptor};
use crate::model::{
    items_conflict, items_text, render_items, struct_text, CapnpDocument, CapnpField, CapnpItem,
    CapnpStruct, CapnpType, CapnpUnion, CapnpUnionVariant, CapnpVariantType,
};
use crate::schema::file_header;
use crate::text::{decimal, push_decimal};
use crate::validate::{error_message, error_view, struct_conflict, ValidationError};

verus! {

/// The lowerCamelCase form of an identifier.
pub uninterp spec fn lower_camel_of(s: Seq<char>) -> Seq<char>;

/// Relies on heck's `ToLowerCamelCase::to_lower_camel_case` for `str`: the
/// result depends on the characters of the input alone.
#[verifier::external_body]
fn lower_camel(s: &str) -> (r: String)
    ensures
        r@ == lower_camel_of(s@),
{
    heck::ToLowerCamelCase::to_lower_camel_case(s)
}

/// How the members of a struct or of an enum variant are written.
#[derive(Debug, Clone, Copy, PartialEq, Eq, Structural)]
pub enum FieldsKind {
    /// No members.
    Unit,
    /// Positional members.
    Tuple,
    /// Named members.
    Named,
}

/// A member of a host struct or variant, with what its annotations give:
/// an optional schema name and the ordinal.
#[derive(Debug, PartialEq)]
pub struct HostField {
    pub name: String,
    pub rename: Option<String>,
    pub id: Option<u32>,
    pub ty: TypeDescriptor,
}

/// A variant of a host enum. A variant without data carries its ordinal;
/// one with data carries ordinals on its members only.
#[derive(Debug, PartialEq)]
pub struct HostVariant {
    pub name: String,
    pub id: Option<u32>,
    pub kind: FieldsKind,
    pub fields: Vec<HostField>,
}

/// What a host type is.
#[derive(Debug, PartialEq)]
pub enum HostShapeKind {
    Struct { kind: FieldsKind, fields: Vec<HostField> },
    Enum { variants: Vec<HostVariant> },
    /// Anything else (a primitive, a pointer, ...).
    Other,
}

/// A host type: its name, its extra member declarations (kept to reserve
/// the ordinals of removed members, as in `oldId @1 :UInt64`), and its
/// members.
#[derive(Debug, PartialEq)]
pub struct HostShape {
    pub name: String,
    pub extra_fields: Vec<String>,
    pub kind: HostShapeKind,
}

/// Why a host type has no schema struct.
#[derive(Debug, Clone, PartialEq)]
pub enum ShapeError {
    NotAStruct { name: String },
    NotAnEnum { name: String },
    UnsupportedShape { name: String },
    /// A member of a struct has no ordinal.
    MissingFieldId { field: String },
    /// A variant without data has no ordinal.
    MissingVariantId { variant: String },
    /// A variant with data has an ordinal of its own.
    IdOnDataVariant { variant: String },
    /// A positional member of the variant (by schema name) has no ordinal.
    MissingTupleFieldId { variant: String },
    /// A named member of the variant (by schema name) has no ordinal.
    MissingVariantFieldId { field: String, variant: String },
    /// A member's type has no schema type.
    Mapping(MappingError),
    /// The schema built has a shared ordinal.
    Validation(ValidationError),
}

/// The schema name of a member: its rename if it has one, else `fallback`.
pub open spec fn member_name_spec(rename: Option<String>, fallback: Seq<char>) -> Seq<char> {
    match rename {
        Some(n) => n@,
        None => fallback,
    }
}

/// Picks the schema name of a member: its rename if it has one, else
/// `fallback`.
pub fn member_name(rename: &Option<String>, fallback: String) -> (r: String)
    ensures
        r@ == member_name_spec(*rename, fallback@),
{
    match rename {
        Some(n) => n.clone(),
        None => fallback,
    }
}

/// The default schema name of a member: lowerCamelCase of a named member's
/// name, `field<id>` for a positional member.
pub open spec fn default_member_name(f: HostField, positional: bool) -> Seq<char> {
    if positional {
        "field"@ + decimal(f.id.unwrap() as nat)
    } else {
        lower_camel_of(f.name@)
    }
}

/// A member has an ordinal and a schema type.
pub open spec fn usable(f: HostField) -> bool {
    f.id is Some && mapped(f.ty) is Ok
}

/// The first member from `i` on that is not usable.
pub open spec fn first_unusable(fs: Seq<HostField>, i: int) -> Option<int>
    decreases fs.len() - i,
{
    if i < 0 || i >= fs.len() {
        None
    } else if !usable(fs[i]) {
        Some(i)
    } else {
        first_unusable(fs, i + 1)
    }
}

/// `c` is the schema field built from the usable member `f`.
pub open spec fn field_built(f: HostField, positional: bool, c: CapnpField) -> bool {
    &&& c.name@ == member_name_spec(f.rename, default_member_name(f, positional))
    &&& f.id == Some(c.id)
    &&& mapped(f.ty) == Ok::<CapnpType, MappingError>(c.field_type)
}

/// `cs` are the schema fields built from `fs`, one for one.
pub open spec fn fields_built(fs: Seq<HostField>, positional: bool, cs: Seq<CapnpField>) -> bool {
    &&& cs.len() == fs.len()
    &&& forall|k: int| 0 <= k < fs.len() ==> field_built(fs[k], positional, #[trigger] cs[k])
}

/// Why a member could not become a field, without the context of where it
/// stands.
enum FieldFailure {
    MissingId,
    Mapping(MappingError),
}

spec fn failure_of(f: HostField, e: FieldFailure) -> bool {
    match e {
        FieldFailure::MissingId => f.id is None,
        FieldFailure::Mapping(me) => f.id is Some && mapped(f.ty) == Err::<CapnpType, MappingError>(me),
    }
}

proof fn lemma_first_unusable_found(fs: Seq<HostField>, s: int, i: int)
    requires
        0 <= s <= i < fs.len(),
        !usable(fs[i]),
        forall|k: int| 0 <= k < i ==> usable(fs[k]),
    ensures
        first_unusable(fs, s) == Some(i),
    decreases i - s,
{
    if s < i {
        lemma_first_unusable_found(fs, s + 1, i);
    }
}

proof fn lemma_first_unusable_none(fs: Seq<HostField>, s: int)
    requires
        0 <= s,
        forall|k: int| s <= k < fs.len() ==> usable(fs[k]),
    ensures
        first_unusable(fs, s) is None,
    decreases fs.len() - s,
{
    if s < fs.len() {
        lemma_first_unusable_none(fs, s + 1);
    }
}

/// Builds the schema fields of `fs`; on failure, the index of the first
/// member that is not usable and why.
fn build_fields(fs: &Vec<HostField>, positional: bool) -> (r: Result<Vec<CapnpField>, (usize, FieldFailure)>)
    ensures
        match r {
            Ok(cs) => first_unusable(fs@, 0) is None && fields_built(fs@, positional, cs@),
            Err((i, e)) => i < fs@.len() && first_unusable(fs@, 0) == Some(i as int) && failure_of(
                fs@[i as int],
                e,
            ),
        },
{
    let mut out: Vec<CapnpField> = Vec::new();
    let mut i: usize = 0;
    while i < fs.len()
        invariant
            i <= fs@.len(),
            out@.len() == i,
            forall|k: int| 0 <= k < i ==> usable(fs@[k]),
            forall|k: int| 0 <= k < i ==> field_built(fs@[k], positional, #[trigger] out@[k]),
        decreases fs@.len() - i,
    {
        let f = &fs[i];
        let id: u32 = match f.id {
            Some(n) => n,
            None => {
                proof {
                    lemma_first_unusable_found(fs@, 0, i as int);
                }
                return Err((i, FieldFailure::MissingId));
            },
        };
        let fallback = if positional {
            let mut s = String::new();
            s.append("field");
            push_decimal(&mut s, id as u64);
            s
        } else {
            lower_camel(f.name.as_str())
        };
        let name = member_name(&f.rename, fallback);
        let ty = match map_type(&f.ty) {
            Ok(t) => t,
            Err(e) => {
                proof {
                    lemma_first_unusable_found(fs@, 0, i as int);
                }
                return Err((i, FieldFailure::Mapping(e)));
            },
        };
        out.push(CapnpField::new(name, id, ty));
        i = i + 1;
    }
    proof {
        lemma_first_unusable_none(fs@, 0);
    }
    Ok(out)
}

fn copy_strings(v: &Vec<String>) -> (r: Vec<String>)
    ensures
        r@ == v@,
{
    let mut out: Vec<String> = Vec::new();
    let mut i: usize = 0;
    while i < v.len()
        invariant
            i <= v@.len(),
            out@ == v@.take(i as int),
        decreases v@.len() - i,
    {
        out.push(v[i].clone());
        i = i + 1;
        assert(out@ =~= v@.take(i as int));
    }
    assert(v@.take(i as int) =~= v@);
    out
}

/// The error for the member `f` of a struct that is not usable.
pub open spec fn struct_field_error(f: HostField, e: ShapeError) -> bool {
    if f.id is None {
        e == ShapeError::MissingFieldId { field: f.name }
    } else {
        mapped(f.ty) matches Err(me) && e == ShapeError::Mapping(me)
    }
}

/// `r` is what building a schema struct from the host struct `shape` gives.
pub open spec fn struct_outcome(shape: HostShape, r: Result<CapnpStruct, ShapeError>) -> bool {
    match shape.kind {
        HostShapeKind::Struct { kind, fields } => match r {
            Ok(st) => {
                &&& st.name == shape.name
                &&& st.union is None
                &&& st.extra_fields@ == shape.extra_fields@
                &&& if kind == FieldsKind::Unit {
                    st.fields@.len() == 0
                } else {
                    first_unusable(fields@, 0) is None && fields_built(fields@, false, st.fields@)
                }
            },
            Err(e) => kind != FieldsKind::Unit && (first_unusable(fields@, 0) matches Some(i)
                && struct_field_error(fields@[i], e)),
        },
        _ => r == Err::<CapnpStruct, ShapeError>(ShapeError::NotAStruct { name: shape.name }),
    }
}

/// Builds the schema struct of a host struct: one field per member, named
/// by its rename or in lowerCamelCase, with its ordinal and mapped type; a
/// struct without members gives an empty struct. Every member must carry an
/// ordinal.
pub fn build_capnp_struct_from_shape(shape: &HostShape) -> (r: Result<CapnpStruct, ShapeError>)
    ensures
        struct_outcome(*shape, r),
{
    match &shape.kind {
        HostShapeKind::Struct { kind, fields } => {
            let mut st = CapnpStruct::new(shape.name.clone());
            st.extra_fields = copy_strings(&shape.extra_fields);
            if *kind == FieldsKind::Unit {
                return Ok(st);
            }
            match build_fields(fields, false) {
                Ok(cs) => {
                    st.fields = cs;
                    Ok(st)
                },
                Err((i, FieldFailure::MissingId)) => {
                    Err(ShapeError::MissingFieldId { field: fields[i].name.clone() })
                },
                Err((i, FieldFailure::Mapping(me))) => Err(ShapeError::Mapping(me)),
            }
        },
        _ => Err(ShapeError::NotAStruct { name: shape.name.clone() }),
    }
}

/// A variant carries data: it has members.
pub open spec fn has_data(v: HostVariant) -> bool {
    v.kind != FieldsKind::Unit && v.fields@.len() > 0
}

/// A variant can become a union variant: it has an ordinal exactly when it
/// has no data, and each of its members is usable.
pub open spec fn variant_usable(v: HostVariant) -> bool {
    &&& (has_data(v) <==> v.id is None)
    &&& (v.kind == FieldsKind::Unit || first_unusable(v.fields@, 0) is None)
}

/// The error for a variant that is not usable.
pub open spec fn variant_error(v: HostVariant, e: ShapeError) -> bool {
    if !has_data(v) && v.id is None {
        e == ShapeError::MissingVariantId { variant: v.name }
    } else if has_data(v) && v.id is Some {
        e == ShapeError::IdOnDataVariant { variant: v.name }
    } else {
        &&& v.kind != FieldsKind::Unit
        &&& first_unusable(v.fields@, 0) matches Some(i) && if v.fields@[i].id is None {
            if v.kind == FieldsKind::Tuple {
                e matches ShapeError::MissingTupleFieldId { variant } && variant@ == lower_camel_of(
                    v.name@,
                )
            } else {
                e matches ShapeError::MissingVariantFieldId { field, variant } && field
                    == v.fields@[i].name && variant@ == lower_camel_of(v.name@)
            }
        } else {
            mapped(v.fields@[i].ty) matches Err(me) && e == ShapeError::Mapping(me)
        }
    }
}

/// `cv` is the union variant built from the usable variant `v`: a `Void`
/// value under the variant's ordinal when it has no data, else a group of
/// its members without an ordinal of its own.
pub open spec fn variant_built(v: HostVariant, cv: CapnpUnionVariant) -> bool {
    &&& cv.name@ == lower_camel_of(v.name@)
    &&& if !has_data(v) && v.kind != FieldsKind::Named {
        cv.variant_type == CapnpVariantType::Type { id: v.id.unwrap(), ty: CapnpType::Void }
    } else {
        cv.variant_type matches CapnpVariantType::Group { group_id, fields } && group_id is None
            && fields_built(v.fields@, v.kind == FieldsKind::Tuple, fields@)
    }
}

/// Builds the union variant of an enum variant.
fn build_variant(v: &HostVariant) -> (r: Result<CapnpUnionVariant, ShapeError>)
    ensures
        match r {
            Ok(cv) => variant_usable(*v) && variant_built(*v, cv),
            Err(e) => !variant_usable(*v) && variant_error(*v, e),
        },
{
    let name = lower_camel(v.name.as_str());
    let data = v.kind != FieldsKind::Unit && v.fields.len() > 0;
    if !data && v.id.is_none() {
        return Err(ShapeError::MissingVariantId { variant: v.name.clone() });
    }
    if data && v.id.is_some() {
        return Err(ShapeError::IdOnDataVariant { variant: v.name.clone() });
    }
    if !data && v.kind != FieldsKind::Named {
        let id: u32 = v.id.unwrap();
        return Ok(CapnpUnionVariant::new(name, id, CapnpType::Void));
    }
    let positional = v.kind == FieldsKind::Tuple;
    match build_fields(&v.fields, positional) {
        Ok(cs) => Ok(CapnpUnionVariant::new_untagged_group(name, cs)),
        Err((i, FieldFailure::MissingId)) => {
            if positional {
                Err(ShapeError::MissingTupleFieldId { variant: name })
            } else {
                Err(ShapeError::MissingVariantFieldId { field: v.fields[i].name.clone(), variant: name })
            }
        },
        Err((i, FieldFailure::Mapping(me))) => Err(ShapeError::Mapping(me)),
    }
}

/// The first variant from `i` on that is not usable.
pub open spec fn first_bad_variant(vs: Seq<HostVariant>, i: int) -> Option<int>
    decreases vs.len() - i,
{
    if i < 0 || i >= vs.len() {
        None
    } else if !variant_usable(vs[i]) {
        Some(i)
    } else {
        first_bad_variant(vs, i + 1)
    }
}

proof fn lemma_first_bad_variant_found(vs: Seq<HostVariant>, s: int, i: int)
    requires
        0 <= s <= i < vs.len(),
        !variant_usable(vs[i]),
        forall|k: int| 0 <= k < i ==> variant_usable(vs[k]),
    ensures
        first_bad_variant(vs, s) == Some(i),
    decreases i - s,
{
    if s < i {
        lemma_first_bad_variant_found(vs, s + 1, i);
    }
}

proof fn lemma_first_bad_variant_none(vs: Seq<HostVariant>, s: int)
    requires
        0 <= s,
        forall|k: int| s <= k < vs.len() ==> variant_usable(vs[k]),
    ensures
        first_bad_variant(vs, s) is None,
    decreases vs.len() - s,
{
    if s < vs.len() {
        lemma_first_bad_variant_none(vs, s + 1);
    }
}

/// `r` is what building a schema struct from the host enum `shape` gives.
pub open spec fn union_outcome(shape: HostShape, r: Result<CapnpStruct, ShapeError>) -> bool {
    match shape.kind {
        HostShapeKind::Enum { variants } => match r {
            Ok(st) => {
                &&& first_bad_variant(variants@, 0) is None
                &&& st.name == shape.name
                &&& st.fields@.len() == 0
                &&& st.extra_fields@ == shape.extra_fields@
                &&& st.union matches Some(u) && u.variants@.len() == variants@.len() && forall|k: int|
                    0 <= k < variants@.len() ==> variant_built(
                        variants@[k],
                        #[trigger] u.variants@[k],
                    )
            },
            Err(e) => first_bad_variant(variants@, 0) matches Some(i) && variant_error(
                variants@[i],
                e,
            ),
        },
        _ => r == Err::<CapnpStruct, ShapeError>(ShapeError::NotAnEnum { name: shape.name }),
    }
}

/// Builds the schema struct of a host enum: a struct whose union has one
/// variant per enum variant, in order.
pub fn build_capnp_union_from_shape(shape: &HostShape) -> (r: Result<CapnpStruct, ShapeError>)
    ensures
        union_outcome(*shape, r),
{
    match &shape.kind {
        HostShapeKind::Enum { variants } => {
            let mut st = CapnpStruct::new(shape.name.clone());
            st.extra_fields = copy_strings(&shape.extra_fields);
            let mut union = CapnpUnion::new();
            let mut i: usize = 0;
            while i < variants.len()
                invariant
                    shape.kind == (HostShapeKind::Enum { variants: *variants }),
                    i <= variants@.len(),
                    union.variants@.len() == i,
                    forall|k: int| 0 <= k < i ==> variant_usable(variants@[k]),
                    forall|k: int| 0 <= k < i ==> variant_built(variants@[k], #[trigger] union.variants@[k]),
                decreases variants@.len() - i,
            {
                match build_variant(&variants[i]) {
                    Ok(cv) => union.add_variant(cv),
                    Err(e) => {
                        proof {
                            lemma_first_bad_variant_found(variants@, 0, i as int);
                        }
                        return Err(e);
                    },
                }
                i = i + 1;
            }
            proof {
                lemma_first_bad_variant_none(variants@, 0);
            }
            st.set_union(union);
            Ok(st)
        },
        _ => Err(ShapeError::NotAnEnum { name: shape.name.clone() }),
    }
}

/// `r` is what building the schema struct of `shape` gives: from a struct,
/// from an enum, or the error for any other shape.
pub open spec fn shape_outcome(shape: HostShape, r: Result<CapnpStruct, ShapeError>) -> bool {
    match shape.kind {
        HostShapeKind::Struct { .. } => struct_outcome(shape, r),
        HostShapeKind::Enum { .. } => union_outcome(shape, r),
        HostShapeKind::Other => r == Err::<CapnpStruct, ShapeError>(
            ShapeError::UnsupportedShape { name: shape.name },
        ),
    }
}

/// Builds the schema struct of a host struct or enum.
pub fn build_schema_struct(shape: &HostShape) -> (r: Result<CapnpStruct, ShapeError>)
    ensures
        shape_outcome(*shape, r),
{
    match &shape.kind {
        HostShapeKind::Struct { .. } => build_capnp_struct_from_shape(shape),
        HostShapeKind::Enum { .. } => build_capnp_union_from_shape(shape),
        HostShapeKind::Other => Err(ShapeError::UnsupportedShape { name: shape.name.clone() }),
    }
}

/// Builds a document holding the schema struct of a host struct or enum.
pub fn build_capnp_document_from_shape(shape: &HostShape) -> (r: Result<CapnpDocument, ShapeError>)
    ensures
        match r {
            Ok(d) => d.items@.len() == 1 && (d.items@[0] matches CapnpItem::Struct(st) && shape_outcome(
                *shape,
                Ok(st),
            )),
            Err(e) => shape_outcome(*shape, Err(e)),
        },
{
    match build_schema_struct(shape) {
        Ok(st) => {
            let d = CapnpDocument::with_struct(st);
            Ok(d)
        },
        Err(e) => Err(e),
    }
}

/// `r` is the outcome of rendering a struct that `built` describes: its
/// text, or its validation error, or the error of building it.
pub open spec fn render_outcome(
    built: spec_fn(Result<CapnpStruct, ShapeError>) -> bool,
    r: Result<String, ShapeError>,
) -> bool {
    match r {
        Ok(t) => exists|st: CapnpStruct|
            #[trigger] built(Ok(st)) && struct_conflict(st) is None && t@ == struct_text(st),
        Err(ShapeError::Validation(ve)) => exists|st: CapnpStruct|
            #[trigger] built(Ok(st)) && struct_conflict(st) == Some(error_view(ve)),
        Err(e) => built(Err(e)),
    }
}

fn render_built(st: CapnpStruct, built: Ghost<spec_fn(Result<CapnpStruct, ShapeError>) -> bool>) -> (r: Result<String, ShapeError>)
    requires
        built@(Ok(st)),
    ensures
        render_outcome(built@, r),
{
    match st.render() {
        Ok(t) => Ok(t),
        Err(ve) => Err(ShapeError::Validation(ve)),
    }
}

/// The schema text of a host struct.
pub fn capnp_struct_for(shape: &HostShape) -> (r: Result<String, ShapeError>)
    ensures
        render_outcome(|b: Result<CapnpStruct, ShapeError>| struct_outcome(*shape, b), r),
{
    let ghost built = |b: Result<CapnpStruct, ShapeError>| struct_outcome(*shape, b);
    match build_capnp_struct_from_shape(shape) {
        Ok(st) => render_built(st, Ghost(built)),
        Err(e) => Err(e),
    }
}

/// The schema text of a host enum: a struct holding its union.
pub fn capnp_union_for(shape: &HostShape) -> (r: Result<String, ShapeError>)
    ensures
        render_outcome(|b: Result<CapnpStruct, ShapeError>| union_outcome(*shape, b), r),
{
    let ghost built = |b: Result<CapnpStruct, ShapeError>| union_outcome(*shape, b);
    match build_capnp_union_from_shape(shape) {
        Ok(st) => render_built(st, Ghost(built)),
        Err(e) => Err(e),
    }
}

/// The schema text of a host struct or enum.
pub fn capnp_schema_for(shape: &HostShape) -> (r: Result<String, ShapeError>)
    ensures
        render_outcome(|b: Result<CapnpStruct, ShapeError>| shape_outcome(*shape, b), r),
{
    let ghost built = |b: Result<CapnpStruct, ShapeError>| shape_outcome(*shape, b);
    match build_schema_struct(shape) {
        Ok(st) => render_built(st, Ghost(built)),
        Err(e) => Err(e),
    }
}

/// The items of a list of structs.
pub open spec fn struct_items(sts: Seq<CapnpStruct>) -> Seq<CapnpItem> {
    sts.map_values(|st: CapnpStruct| CapnpItem::Struct(st))
}

/// `sts` are the schema structs built from `shapes`, one for one.
pub open spec fn all_built(shapes: Seq<HostShape>, sts: Seq<CapnpStruct>) -> bool {
    &&& sts.len() == shapes.len()
    &&& forall|k: int| 0 <= k < shapes.len() ==> shape_outcome(shapes[k], Ok(#[trigger] sts[k]))
}

/// `shape` has a schema struct.
pub open spec fn shape_builds(shape: HostShape) -> bool {
    exists|st: CapnpStruct| shape_outcome(shape, Ok(st))
}

/// `r` is the outcome of building a schema file from `shapes`: the header
/// and the text of the structs; or the error of the first shape that has
/// no struct; or the first shared ordinal among the structs.
pub open spec fn file_outcome(file_id: u64, shapes: Seq<HostShape>, r: Result<String, ShapeError>) -> bool {
    match r {
        Ok(t) => exists|sts: Seq<CapnpStruct>|
            all_built(shapes, sts) && items_conflict(#[trigger] struct_items(sts)) is None && t@
                == file_header(file_id) + items_text(struct_items(sts)),
        Err(ShapeError::Validation(ve)) => exists|sts: Seq<CapnpStruct>|
            all_built(shapes, sts) && items_conflict(#[trigger] struct_items(sts)) == Some(
                error_view(ve),
            ),
        Err(e) => exists|i: int|
            0 <= i < shapes.len() && (forall|k: int| 0 <= k < i ==> shape_builds(#[trigger] shapes[k]))
                && shape_outcome(#[trigger] shapes[i], Err(e)),
    }
}

/// Builds a whole schema file: the file id in hexadecimal as its header,
/// then the schema struct of each shape, in order.
pub fn build_capnp_file(file_id: u64, shapes: &[HostShape]) -> (r: Result<String, ShapeError>)
    ensures
        file_outcome(file_id, shapes@, r),
{
    let mut items: Vec<CapnpItem> = Vec::new();
    let ghost mut sts: Seq<CapnpStruct> = Seq::empty();
    let mut i: usize = 0;
    while i < shapes.len()
        invariant
            i <= shapes@.len(),
            sts.len() == i,
            items@ == struct_items(sts),
            forall|k: int| 0 <= k < i ==> shape_outcome(shapes@[k], Ok(#[trigger] sts[k])),
        decreases shapes@.len() - i,
    {
        match build_schema_struct(&shapes[i]) {
            Ok(st) => {
                proof {
                    sts = sts.push(st);
                }
                items.push(CapnpItem::Struct(st));
                assert(items@ =~= struct_items(sts));
            },
            Err(e) => {
                assert forall|k: int| 0 <= k < i implies shape_builds(#[trigger] shapes@[k]) by {
                    assert(shape_outcome(shapes@[k], Ok(sts[k])));
                }
                return Err(e);
            },
        }
        i = i + 1;
    }
    assert(all_built(shapes@, sts));
    match render_items(items.as_slice()) {
        Ok(body) => {
            let mut out = String::new();
            out.append("@0x");
            crate::text::push_hex(&mut out, file_id);
            out.append(";\n\n");
            out.append(body.as_str());
            assert(out@ =~= file_header(file_id) + items_text(struct_items(sts)));
            Ok(out)
        },
        Err(ve) => Err(ShapeError::Validation(ve)),
    }
}

/// The human-readable text of an error.
pub open spec fn shape_message(e: ShapeError) -> Seq<char> {
    match e {
        ShapeError::NotAStruct { name } => name@ + " is not a struct"@,
        ShapeError::NotAnEnum { name } => name@ + " is not an enum"@,
        ShapeError::UnsupportedShape { name } =>
            name@ + " is not a supported type (must be struct or enum)"@,
        ShapeError::MissingFieldId { field } => "Field '"@ + field@
            + "' missing required capnp:id attribute. Use #[facet(capnp:id=N)]"@,
        ShapeError::MissingVariantId { variant } => "Unit variant '"@ + variant@
            + "' missing required capnp:id attribute. Use #[facet(capnp:id=N)]"@,
        ShapeError::IdOnDataVariant { variant } => "Data-bearing variant '"@ + variant@
            + "' should not have capnp:id attribute. Only put IDs on the fields."@,
        ShapeError::MissingTupleFieldId { variant } => "Field in variant '"@ + variant@
            + "' missing required capnp:id attribute. Use #[facet(capnp:id=N)]"@,
        ShapeError::MissingVariantFieldId { field, variant } => "Field '"@ + field@
            + "' in variant '"@ + variant@
            + "' missing required capnp:id attribute. Use #[facet(capnp:id=N)]"@,
        ShapeError::Mapping(me) => mapping_message(me),
        ShapeError::Validation(ve) => error_message(ve),
    }
}

impl ShapeError {
    /// A one-line description of the error.
    pub fn message(&self) -> (r: String)
        ensures
            r@ == shape_message(*self),
    {
        match self {
            ShapeError::Mapping(me) => me.message(),
            ShapeError::Validation(ve) => ve.message(),
            _ => {
                let mut out = String::new();
                match self {
                    ShapeError::NotAStruct { name } => {
                        out.append(name.as_str());
                        out.append(" is not a struct");
                    },
                    ShapeError::NotAnEnum { name } => {
                        out.append(name.as_str());
                        out.append(" is not an enum");
                    },
                    ShapeError::UnsupportedShape { name } => {
                        out.append(name.as_str());
                        out.append(" is not a supported type (must be struct or enum)");
                    },
                    ShapeError::MissingFieldId { field } => {
                        out.append("Field '");
                        out.append(field.as_str());
                        out.append("' missing required capnp:id attribute. Use #[facet(capnp:id=N)]");
                    },
                    ShapeError::MissingVariantId { variant } => {
                        out.append("Unit variant '");
                        out.append(variant.as_str());
                        out.append("' missing required capnp:id attribute. Use #[facet(capnp:id=N)]");
                    },
                    ShapeError::IdOnDataVariant { variant } => {
                        out.append("Data-bearing variant '");
                        out.append(variant.as_str());
                        out.append("' should not have capnp:id attribute. Only put IDs on the fields.");
                    },
                    ShapeError::MissingTupleFieldId { variant } => {
                        out.append("Field in variant '");
                        out.append(variant.as_str());
                        out.append("' missing required capnp:id attribute. Use #[facet(capnp:id=N)]");
                    },
                    ShapeError::MissingVariantFieldId { field, variant } => {
                        out.append("Field '");
                        out.append(field.as_str());
                        out.append("' in variant '");
                        out.append(variant.as_str());
                        out.append("' missing required capnp:id attribute. Use #[facet(capnp:id=N)]");
                    },
                    _ => {},
                }
                assert(out@ =~= shape_message(*self));
                out
            },
        }
    }
}

} // verus!
