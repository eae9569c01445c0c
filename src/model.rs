//! The schema document model and its rendering to schema text.

use vstd::prelude::*;
use crate::text::{decimal, push_decimal};
use crate::validate::{error_view, struct_conflict, ValidationError};

verus! {

/// A type of the schema language.
#[derive(Debug, PartialEq)]
pub enum CapnpType {
    Bool,
    Int8,
    Int16,
    Int32,
    Int64,
    UInt8,
    UInt16,
    UInt32,
    UInt64,
    Float32,
    Float64,
    Text,
    Void,
    /// A list of values of the inner type.
    List(Box<CapnpType>),
    /// A reference by name to a type declared elsewhere; never resolved here.
    UserDefined(String),
}

/// A named, numbered member of a struct or of a group.
#[derive(Debug, Clone, PartialEq)]
pub struct CapnpField {
    pub name: String,
    pub id: u32,
    pub field_type: CapnpType,
}

/// What a union variant carries.
#[derive(Debug, Clone, PartialEq)]
pub enum CapnpVariantType {
    /// A single value of a scalar type, numbered by `id`.
    Type { id: u32, ty: CapnpType },
    /// An inline group of fields; `group_id` is the group's own ordinal, if
    /// the group carries one.
    Group { group_id: Option<u32>, fields: Vec<CapnpField> },
}

/// One alternative of a union.
#[derive(Debug, Clone, PartialEq)]
pub struct CapnpUnionVariant {
    pub name: String,
    pub variant_type: CapnpVariantType,
}

/// The (at most one) union of a struct.
#[derive(Debug, Clone, PartialEq)]
pub struct CapnpUnion {
    pub variants: Vec<CapnpUnionVariant>,
}

/// A struct declaration. `extra_fields` are member declarations kept as
/// given (such as `oldId @1 :UInt64`, for removed members whose ordinals
/// stay reserved); they are rendered after the fields and the union.
#[derive(Debug, Clone, PartialEq)]
pub struct CapnpStruct {
    pub name: String,
    pub fields: Vec<CapnpField>,
    pub union: Option<CapnpUnion>,
    pub extra_fields: Vec<String>,
}

/// A top-level item of a document.
#[derive(Debug, Clone, PartialEq)]
pub enum CapnpItem {
    Struct(CapnpStruct),
}

/// A schema document: its items in order.
#[derive(Debug, Clone, PartialEq)]
pub struct CapnpDocument {
    pub items: Vec<CapnpItem>,
}

// ---------------------------------------------------------------------------
// What the text of each part is.

/// The text of a type.
pub open spec fn type_text(t: CapnpType) -> Seq<char>
    decreases t,
{
    match t {
        CapnpType::Bool => "Bool"@,
        CapnpType::Int8 => "Int8"@,
        CapnpType::Int16 => "Int16"@,
        CapnpType::Int32 => "Int32"@,
        CapnpType::Int64 => "Int64"@,
        CapnpType::UInt8 => "UInt8"@,
        CapnpType::UInt16 => "UInt16"@,
        CapnpType::UInt32 => "UInt32"@,
        CapnpType::UInt64 => "UInt64"@,
        CapnpType::Float32 => "Float32"@,
        CapnpType::Float64 => "Float64"@,
        CapnpType::Text => "Text"@,
        CapnpType::Void => "Void"@,
        CapnpType::List(inner) => "List("@ + type_text(*inner) + ")"@,
        CapnpType::UserDefined(name) => name@,
    }
}

/// `<name> @<id> :<type>;`
pub open spec fn member_line(name: Seq<char>, id: u32, ty: CapnpType) -> Seq<char> {
    name + " @"@ + decimal(id as nat) + " :"@ + type_text(ty) + ";"@
}

/// The line of a field, without indentation.
pub open spec fn field_line(f: CapnpField) -> Seq<char> {
    member_line(f.name@, f.id, f.field_type)
}

/// The lines of `fields`, each preceded by `indent` and ended by a newline.
pub open spec fn fields_block(fields: Seq<CapnpField>, indent: Seq<char>) -> Seq<char>
    decreases fields.len(),
{
    if fields.len() == 0 {
        Seq::empty()
    } else {
        fields_block(fields.drop_last(), indent) + indent + field_line(fields.last()) + "\n"@
    }
}

/// The text of a union variant, without indentation.
pub open spec fn variant_text(v: CapnpUnionVariant) -> Seq<char> {
    match v.variant_type {
        CapnpVariantType::Type { id, ty } => member_line(v.name@, id, ty),
        CapnpVariantType::Group { group_id, fields } => {
            let head = v.name@ + " :group"@ + (match group_id {
                Some(n) => " @"@ + decimal(n as nat),
                None => Seq::empty(),
            });
            if fields@.len() == 0 {
                head + " {};"@
            } else {
                head + " {\n"@ + fields_block(fields@, "      "@) + "    };"@
            }
        },
    }
}

/// The lines of `variants`, indented four spaces.
pub open spec fn variants_block(variants: Seq<CapnpUnionVariant>) -> Seq<char>
    decreases variants.len(),
{
    if variants.len() == 0 {
        Seq::empty()
    } else {
        variants_block(variants.drop_last()) + "    "@ + variant_text(variants.last()) + "\n"@
    }
}

/// The text of a union block.
pub open spec fn union_text(u: CapnpUnion) -> Seq<char> {
    "  union {\n"@ + variants_block(u.variants@) + "  }\n"@
}

/// The extra declarations as member lines: each indented two spaces and
/// ended by `;` and a newline, its text otherwise as given.
pub open spec fn extras_block(extras: Seq<String>) -> Seq<char>
    decreases extras.len(),
{
    if extras.len() == 0 {
        Seq::empty()
    } else {
        extras_block(extras.drop_last()) + "  "@ + extras.last()@ + ";\n"@
    }
}

/// The text of a struct.
pub open spec fn struct_text(s: CapnpStruct) -> Seq<char> {
    "struct "@ + s.name@ + " {\n"@ + fields_block(s.fields@, "  "@) + (match s.union {
        Some(u) => union_text(u),
        None => Seq::empty(),
    }) + extras_block(s.extra_fields@) + "}\n"@
}

impl Clone for CapnpType {
    fn clone(&self) -> (r: CapnpType)
        ensures
            r == *self,
        decreases self,
    {
        match self {
            CapnpType::Bool => CapnpType::Bool,
            CapnpType::Int8 => CapnpType::Int8,
            CapnpType::Int16 => CapnpType::Int16,
            CapnpType::Int32 => CapnpType::Int32,
            CapnpType::Int64 => CapnpType::Int64,
            CapnpType::UInt8 => CapnpType::UInt8,
            CapnpType::UInt16 => CapnpType::UInt16,
            CapnpType::UInt32 => CapnpType::UInt32,
            CapnpType::UInt64 => CapnpType::UInt64,
            CapnpType::Float32 => CapnpType::Float32,
            CapnpType::Float64 => CapnpType::Float64,
            CapnpType::Text => CapnpType::Text,
            CapnpType::Void => CapnpType::Void,
            CapnpType::List(inner) => {
                let c = CapnpType::clone(inner);
                CapnpType::List(Box::new(c))
            },
            CapnpType::UserDefined(name) => CapnpType::UserDefined(name.clone()),
        }
    }
}

// ---------------------------------------------------------------------------
// Rendering.

impl CapnpType {
    /// Appends the text of this type to `out`.
    pub fn write_to(&self, out: &mut String)
        ensures
            final(out)@ == old(out)@ + type_text(*self),
        decreases self,
    {
        match self {
            CapnpType::Bool => out.append("Bool"),
            CapnpType::Int8 => out.append("Int8"),
            CapnpType::Int16 => out.append("Int16"),
            CapnpType::Int32 => out.append("Int32"),
            CapnpType::Int64 => out.append("Int64"),
            CapnpType::UInt8 => out.append("UInt8"),
            CapnpType::UInt16 => out.append("UInt16"),
            CapnpType::UInt32 => out.append("UInt32"),
            CapnpType::UInt64 => out.append("UInt64"),
            CapnpType::Float32 => out.append("Float32"),
            CapnpType::Float64 => out.append("Float64"),
            CapnpType::Text => out.append("Text"),
            CapnpType::Void => out.append("Void"),
            CapnpType::List(inner) => {
                out.append("List(");
                inner.write_to(out);
                out.append(")");
                assert(out@ =~= old(out)@ + type_text(*self));
            },
            CapnpType::UserDefined(name) => out.append(name.as_str()),
        }
    }

    /// The text of this type.
    pub fn render(&self) -> (r: String)
        ensures
            r@ == type_text(*self),
    {
        let mut out = String::new();
        self.write_to(&mut out);
        assert(out@ =~= type_text(*self));
        out
    }
}

/// Appends `<name> @<id> :<type>;` to `out`.
fn write_member(out: &mut String, name: &String, id: u32, ty: &CapnpType)
    ensures
        final(out)@ == old(out)@ + member_line(name@, id, *ty),
{
    out.append(name.as_str());
    out.append(" @");
    push_decimal(out, id as u64);
    out.append(" :");
    ty.write_to(out);
    out.append(";");
    assert(out@ =~= old(out)@ + member_line(name@, id, *ty));
}

/// Appends the lines of `fields` to `out`, each after `indent`.
fn write_fields(out: &mut String, fields: &Vec<CapnpField>, indent: &str)
    ensures
        final(out)@ == old(out)@ + fields_block(fields@, indent@),
{
    let ghost start = out@;
    let mut i: usize = 0;
    while i < fields.len()
        invariant
            i <= fields@.len(),
            out@ == start + fields_block(fields@.take(i as int), indent@),
        decreases fields@.len() - i,
    {
        out.append(indent);
        fields[i].write_to(out);
        out.append("\n");
        proof {
            assert(fields@.take(i + 1).drop_last() =~= fields@.take(i as int));
        }
        i = i + 1;
        assert(out@ =~= start + fields_block(fields@.take(i as int), indent@));
    }
    assert(fields@.take(i as int) =~= fields@);
}

impl CapnpField {
    /// Makes a field.
    pub fn new(name: String, id: u32, field_type: CapnpType) -> (r: CapnpField)
        ensures
            r == (CapnpField { name, id, field_type }),
    {
        CapnpField { name, id, field_type }
    }

    /// Appends the line of this field to `out`.
    pub fn write_to(&self, out: &mut String)
        ensures
            final(out)@ == old(out)@ + field_line(*self),
    {
        write_member(out, &self.name, self.id, &self.field_type);
    }

    /// The line of this field: `<name> @<id> :<type>;`.
    pub fn render(&self) -> (r: String)
        ensures
            r@ == field_line(*self),
    {
        let mut out = String::new();
        self.write_to(&mut out);
        assert(out@ =~= field_line(*self));
        out
    }
}

impl CapnpUnionVariant {
    /// Makes a variant carrying one value of `variant_type`, numbered `id`.
    pub fn new(name: String, id: u32, variant_type: CapnpType) -> (r: CapnpUnionVariant)
        ensures
            r == (CapnpUnionVariant { name, variant_type: CapnpVariantType::Type { id, ty: variant_type } }),
    {
        CapnpUnionVariant { name, variant_type: CapnpVariantType::Type { id, ty: variant_type } }
    }

    /// Makes a group variant that carries its own ordinal `id`.
    pub fn new_group(name: String, id: u32, fields: Vec<CapnpField>) -> (r: CapnpUnionVariant)
        ensures
            r == (CapnpUnionVariant { name, variant_type: CapnpVariantType::Group { group_id: Some(id), fields } }),
    {
        CapnpUnionVariant { name, variant_type: CapnpVariantType::Group { group_id: Some(id), fields } }
    }

    /// Makes a group variant without an ordinal of its own: its ordinals are
    /// those of its fields.
    pub fn new_untagged_group(name: String, fields: Vec<CapnpField>) -> (r: CapnpUnionVariant)
        ensures
            r == (CapnpUnionVariant { name, variant_type: CapnpVariantType::Group { group_id: None, fields } }),
    {
        CapnpUnionVariant { name, variant_type: CapnpVariantType::Group { group_id: None, fields } }
    }

    /// Appends the text of this variant to `out`.
    pub fn write_to(&self, out: &mut String)
        ensures
            final(out)@ == old(out)@ + variant_text(*self),
    {
        match &self.variant_type {
            CapnpVariantType::Type { id, ty } => write_member(out, &self.name, *id, ty),
            CapnpVariantType::Group { group_id, fields } => {
                out.append(self.name.as_str());
                out.append(" :group");
                match group_id {
                    Some(n) => {
                        out.append(" @");
                        push_decimal(out, *n as u64);
                    },
                    None => {},
                }
                if fields.len() == 0 {
                    out.append(" {};");
                } else {
                    out.append(" {\n");
                    write_fields(out, fields, "      ");
                    out.append("    };");
                }
                assert(out@ =~= old(out)@ + variant_text(*self));
            },
        }
    }

    /// The text of this variant, without indentation.
    pub fn render(&self) -> (r: String)
        ensures
            r@ == variant_text(*self),
    {
        let mut out = String::new();
        self.write_to(&mut out);
        assert(out@ =~= variant_text(*self));
        out
    }
}

impl CapnpUnion {
    /// Makes a union without variants.
    pub fn new() -> (r: CapnpUnion)
        ensures
            r.variants@.len() == 0,
    {
        CapnpUnion { variants: Vec::new() }
    }

    /// Appends `variant` after the existing variants.
    pub fn add_variant(&mut self, variant: CapnpUnionVariant)
        ensures
            final(self).variants@ == old(self).variants@.push(variant),
    {
        self.variants.push(variant);
    }

    /// Appends the union block to `out`.
    pub fn write_to(&self, out: &mut String)
        ensures
            final(out)@ == old(out)@ + union_text(*self),
    {
        let ghost start = out@;
        out.append("  union {\n");
        let ghost head = out@;
        let mut i: usize = 0;
        while i < self.variants.len()
            invariant
                i <= self.variants@.len(),
                out@ == head + variants_block(self.variants@.take(i as int)),
            decreases self.variants@.len() - i,
        {
            out.append("    ");
            self.variants[i].write_to(out);
            out.append("\n");
            proof {
                assert(self.variants@.take(i + 1).drop_last() =~= self.variants@.take(i as int));
            }
            i = i + 1;
            assert(out@ =~= head + variants_block(self.variants@.take(i as int)));
        }
        assert(self.variants@.take(i as int) =~= self.variants@);
        out.append("  }\n");
        assert(out@ =~= start + union_text(*self));
    }

    /// The text of the union block.
    pub fn render(&self) -> (r: String)
        ensures
            r@ == union_text(*self),
    {
        let mut out = String::new();
        self.write_to(&mut out);
        assert(out@ =~= union_text(*self));
        out
    }
}

impl Default for CapnpUnion {
    fn default() -> (r: CapnpUnion)
        ensures
            r.variants@.len() == 0,
    {
        CapnpUnion::new()
    }
}

/// The text of an item.
pub open spec fn item_text(item: CapnpItem) -> Seq<char> {
    match item {
        CapnpItem::Struct(s) => struct_text(s),
    }
}

/// The texts of `items`, with one empty line between consecutive items.
pub open spec fn items_text(items: Seq<CapnpItem>) -> Seq<char>
    decreases items.len(),
{
    if items.len() == 0 {
        Seq::empty()
    } else if items.len() == 1 {
        item_text(items[0])
    } else {
        items_text(items.drop_last()) + "\n"@ + item_text(items.last())
    }
}

/// The conflict reported for an item, if any.
pub open spec fn item_conflict(item: CapnpItem) -> Option<(u32, Seq<Seq<char>>)> {
    match item {
        CapnpItem::Struct(s) => struct_conflict(s),
    }
}

/// The conflict of the first item that has one.
pub open spec fn items_conflict(items: Seq<CapnpItem>) -> Option<(u32, Seq<Seq<char>>)>
    decreases items.len(),
{
    if items.len() == 0 {
        None
    } else if items_conflict(items.drop_last()) is Some {
        items_conflict(items.drop_last())
    } else {
        item_conflict(items.last())
    }
}

/// `r` is the outcome of rendering: the error of `conflict` if there is
/// one, else `text`.
pub open spec fn rendered_is(
    r: Result<String, ValidationError>,
    conflict: Option<(u32, Seq<Seq<char>>)>,
    text: Seq<char>,
) -> bool {
    match r {
        Ok(t) => conflict is None && t@ == text,
        Err(e) => conflict == Some(error_view(e)),
    }
}

impl CapnpStruct {
    /// Makes a struct with no members.
    pub fn new(name: String) -> (r: CapnpStruct)
        ensures
            r.name == name,
            r.fields@.len() == 0,
            r.union is None,
            r.extra_fields@.len() == 0,
    {
        CapnpStruct { name, fields: Vec::new(), union: None, extra_fields: Vec::new() }
    }

    /// Appends `field` after the existing fields.
    pub fn add_field(&mut self, field: CapnpField)
        ensures
            final(self).fields@ == old(self).fields@.push(field),
            final(self).name == old(self).name,
            final(self).union == old(self).union,
            final(self).extra_fields == old(self).extra_fields,
    {
        self.fields.push(field);
    }

    /// Sets (or replaces) the union.
    pub fn set_union(&mut self, union: CapnpUnion)
        ensures
            final(self).union == Some(union),
            final(self).name == old(self).name,
            final(self).fields == old(self).fields,
            final(self).extra_fields == old(self).extra_fields,
    {
        self.union = Some(union);
    }

    /// Appends an extra member declaration, rendered as given after the
    /// fields and the union.
    pub fn add_extra_field(&mut self, line: String)
        ensures
            final(self).extra_fields@ == old(self).extra_fields@.push(line),
            final(self).name == old(self).name,
            final(self).fields == old(self).fields,
            final(self).union == old(self).union,
    {
        self.extra_fields.push(line);
    }

    /// Appends the text of the struct to `out`, whether or not it is valid.
    fn write_to(&self, out: &mut String)
        ensures
            final(out)@ == old(out)@ + struct_text(*self),
    {
        let ghost start = out@;
        out.append("struct ");
        out.append(self.name.as_str());
        out.append(" {\n");
        write_fields(out, &self.fields, "  ");
        match &self.union {
            Some(u) => u.write_to(out),
            None => {},
        }
        let ghost before_extras = out@;
        let mut i: usize = 0;
        while i < self.extra_fields.len()
            invariant
                i <= self.extra_fields@.len(),
                out@ == before_extras + extras_block(self.extra_fields@.take(i as int)),
            decreases self.extra_fields@.len() - i,
        {
            out.append("  ");
            out.append(self.extra_fields[i].as_str());
            out.append(";\n");
            proof {
                assert(self.extra_fields@.take(i + 1).drop_last() =~= self.extra_fields@.take(i as int));
            }
            i = i + 1;
            assert(out@ =~= before_extras + extras_block(self.extra_fields@.take(i as int)));
        }
        assert(self.extra_fields@.take(i as int) =~= self.extra_fields@);
        out.append("}\n");
        assert(out@ =~= start + struct_text(*self));
    }

    /// Validates the struct, then renders it.
    pub fn render(&self) -> (r: Result<String, ValidationError>)
        ensures
            rendered_is(r, struct_conflict(*self), struct_text(*self)),
    {
        match self.validate() {
            Err(e) => Err(e),
            Ok(()) => {
                let mut out = String::new();
                self.write_to(&mut out);
                assert(out@ =~= struct_text(*self));
                Ok(out)
            },
        }
    }
}

impl CapnpItem {
    /// Checks the item's ordinals.
    pub fn validate(&self) -> (r: Result<(), ValidationError>)
        ensures
            crate::validate::outcome_is(r, item_conflict(*self)),
    {
        match self {
            CapnpItem::Struct(s) => s.validate(),
        }
    }

    /// Validates the item, then renders it.
    pub fn render(&self) -> (r: Result<String, ValidationError>)
        ensures
            rendered_is(r, item_conflict(*self), item_text(*self)),
    {
        match self {
            CapnpItem::Struct(s) => s.render(),
        }
    }

    fn write_to(&self, out: &mut String)
        ensures
            final(out)@ == old(out)@ + item_text(*self),
    {
        match self {
            CapnpItem::Struct(s) => s.write_to(out),
        }
    }
}

/// Checks every item in order and reports the first conflict.
pub fn validate_items(items: &[CapnpItem]) -> (r: Result<(), ValidationError>)
    ensures
        crate::validate::outcome_is(r, items_conflict(items@)),
{
    let mut i: usize = 0;
    while i < items.len()
        invariant
            i <= items@.len(),
            items_conflict(items@.take(i as int)) is None,
        decreases items@.len() - i,
    {
        proof {
            assert(items@.take(i + 1).drop_last() =~= items@.take(i as int));
        }
        match items[i].validate() {
            Err(e) => {
                proof {
                    lemma_items_conflict_prefix(items@, i as int + 1);
                }
                return Err(e);
            },
            Ok(()) => {},
        }
        i = i + 1;
    }
    assert(items@.take(i as int) =~= items@);
    Ok(())
}

/// A conflict in a prefix is the conflict of the whole.
proof fn lemma_items_conflict_prefix(items: Seq<CapnpItem>, n: int)
    requires
        0 <= n <= items.len(),
        items_conflict(items.take(n)) is Some,
    ensures
        items_conflict(items) == items_conflict(items.take(n)),
    decreases items.len() - n,
{
    if n < items.len() {
        assert(items.take(n + 1).drop_last() =~= items.take(n));
        lemma_items_conflict_prefix(items, n + 1);
    } else {
        assert(items.take(n) =~= items);
    }
}

/// Validates every item, then renders them with one empty line between
/// consecutive items.
pub fn render_items(items: &[CapnpItem]) -> (r: Result<String, ValidationError>)
    ensures
        rendered_is(r, items_conflict(items@), items_text(items@)),
{
    match validate_items(items) {
        Err(e) => Err(e),
        Ok(()) => {
            let mut out = String::new();
            let mut i: usize = 0;
            while i < items.len()
                invariant
                    i <= items@.len(),
                    out@ == items_text(items@.take(i as int)),
                decreases items@.len() - i,
            {
                if i > 0 {
                    out.append("\n");
                }
                items[i].write_to(&mut out);
                proof {
                    assert(items@.take(i + 1).drop_last() =~= items@.take(i as int));
                    if i == 0 {
                        assert(items@.take(1)[0] == items@[0]);
                    }
                }
                i = i + 1;
                assert(out@ =~= items_text(items@.take(i as int)));
            }
            assert(items@.take(i as int) =~= items@);
            Ok(out)
        },
    }
}

impl CapnpDocument {
    /// Makes an empty document.
    pub fn new() -> (r: CapnpDocument)
        ensures
            r.items@.len() == 0,
    {
        CapnpDocument { items: Vec::new() }
    }

    /// Appends `item` after the existing items.
    pub fn add_item(&mut self, item: CapnpItem)
        ensures
            final(self).items@ == old(self).items@.push(item),
    {
        self.items.push(item);
    }

    /// Makes a document holding the one struct `capnp_struct`.
    pub fn with_struct(capnp_struct: CapnpStruct) -> (r: CapnpDocument)
        ensures
            r.items@ == seq![CapnpItem::Struct(capnp_struct)],
    {
        let mut items: Vec<CapnpItem> = Vec::new();
        items.push(CapnpItem::Struct(capnp_struct));
        assert(items@ =~= seq![CapnpItem::Struct(capnp_struct)]);
        CapnpDocument { items }
    }

    /// Checks each struct on its own; ordinals may repeat across structs.
    pub fn validate(&self) -> (r: Result<(), ValidationError>)
        ensures
            crate::validate::outcome_is(r, items_conflict(self.items@)),
    {
        validate_items(self.items.as_slice())
    }

    /// Validates every item, then renders the document.
    pub fn render(&self) -> (r: Result<String, ValidationError>)
        ensures
            rendered_is(r, items_conflict(self.items@), items_text(self.items@)),
    {
        render_items(self.items.as_slice())
    }
}

impl Default for CapnpDocument {
    fn default() -> (r: CapnpDocument)
        ensures
            r.items@.len() == 0,
    {
        CapnpDocument::new()
    }
}

} // verus!
