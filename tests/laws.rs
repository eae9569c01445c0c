use code_first_capnp::mapper::{map_type, MappingError, TypeDescriptor};
use code_first_capnp::model::{
    CapnpDocument, CapnpField, CapnpItem, CapnpStruct, CapnpType, CapnpUnion, CapnpUnionVariant,
};
use code_first_capnp::validate::ValidationError;

fn f(name: &str, id: u32, t: CapnpType) -> CapnpField {
    CapnpField::new(name.to_string(), id, t)
}

#[test]
fn valid_struct_lists_members_in_declared_order() {
    let mut s = CapnpStruct::new("Order".to_string());
    s.add_field(f("zeta", 5, CapnpType::Text));
    s.add_field(f("alpha", 1, CapnpType::Bool));
    let mut u = CapnpUnion::new();
    u.add_variant(CapnpUnionVariant::new("later".to_string(), 0, CapnpType::Void));
    s.set_union(u);
    assert!(s.validate().is_ok());
    let text = s.render().unwrap();
    let a = text.find("zeta @5 :Text;").unwrap();
    let b = text.find("alpha @1 :Bool;").unwrap();
    let c = text.find("later @0 :Void;").unwrap();
    assert!(a < b && b < c);
}

#[test]
fn two_places_sharing_an_id_are_both_reported() {
    let mut s = CapnpStruct::new("Pair".to_string());
    s.add_field(f("a", 0, CapnpType::Bool));
    s.add_field(f("b", 7, CapnpType::Bool));
    let mut u = CapnpUnion::new();
    u.add_variant(CapnpUnionVariant::new_untagged_group(
        "g".to_string(),
        vec![f("c", 1, CapnpType::Bool), f("d", 7, CapnpType::Bool)],
    ));
    s.set_union(u);
    let ValidationError::DuplicateId { id, locations } = s.validate().unwrap_err();
    assert_eq!(id, 7);
    assert_eq!(locations, vec!["struct field 'b'".to_string(), "union group 'g' field 'd'".to_string()]);
}

#[test]
fn all_locations_of_the_first_shared_id_are_reported() {
    let mut s = CapnpStruct::new("Many".to_string());
    s.add_field(f("a", 1, CapnpType::Bool));
    s.add_field(f("b", 2, CapnpType::Bool));
    s.add_field(f("c", 2, CapnpType::Bool));
    s.add_field(f("d", 1, CapnpType::Bool));
    s.add_field(f("e", 1, CapnpType::Bool));
    let err = s.validate().unwrap_err();
    assert_eq!(
        err.message(),
        "Duplicate ID 1 found in: struct field 'a', struct field 'd', struct field 'e'"
    );
}

#[test]
fn rendering_twice_gives_the_same_text() {
    let mut s = CapnpStruct::new("Same".to_string());
    s.add_field(f("x", 0, CapnpType::List(Box::new(CapnpType::Int16))));
    let doc = CapnpDocument::with_struct(s);
    assert_eq!(doc.render().unwrap(), doc.render().unwrap());
}

#[test]
fn mapping_supported_and_unsupported_descriptors() {
    let ok = [
        (TypeDescriptor::Bool, CapnpType::Bool),
        (TypeDescriptor::Integer { signed: true, width: 1 }, CapnpType::Int8),
        (TypeDescriptor::Integer { signed: true, width: 2 }, CapnpType::Int16),
        (TypeDescriptor::Integer { signed: true, width: 8 }, CapnpType::Int64),
        (TypeDescriptor::Integer { signed: false, width: 2 }, CapnpType::UInt16),
        (TypeDescriptor::Float { width: 4 }, CapnpType::Float32),
        (TypeDescriptor::Float { width: 8 }, CapnpType::Float64),
        (TypeDescriptor::Text, CapnpType::Text),
        (TypeDescriptor::Void, CapnpType::Void),
        (TypeDescriptor::UserStruct("Point".to_string()), CapnpType::UserDefined("Point".to_string())),
        (TypeDescriptor::UserEnum("Mode".to_string()), CapnpType::UserDefined("Mode".to_string())),
        (TypeDescriptor::Opaque { name: "String".to_string(), params: vec![] }, CapnpType::Text),
    ];
    for (d, t) in ok {
        assert_eq!(map_type(&d), Ok(t));
    }
    assert_eq!(
        map_type(&TypeDescriptor::Integer { signed: true, width: 16 }).unwrap_err().message(),
        "Int128 not supported in Cap'n Proto"
    );
    assert_eq!(
        map_type(&TypeDescriptor::Integer { signed: true, width: 3 }),
        Err(MappingError::UnsupportedIntegerWidth { signed: true, width: 3 })
    );
    assert_eq!(
        map_type(&TypeDescriptor::Integer { signed: false, width: 3 }).unwrap_err().message(),
        "Unsupported integer size: 3 bytes"
    );
    assert_eq!(
        map_type(&TypeDescriptor::Float { width: 2 }).unwrap_err().message(),
        "Unsupported float size: 2 bytes"
    );
    assert_eq!(map_type(&TypeDescriptor::Never), Err(MappingError::Uninhabited));
    assert_eq!(map_type(&TypeDescriptor::Pointer), Err(MappingError::UnsupportedPointer));
    assert_eq!(
        map_type(&TypeDescriptor::UserUnion("U".to_string())),
        Err(MappingError::UnsupportedUnion { name: "U".to_string() })
    );
    assert_eq!(
        map_type(&TypeDescriptor::Opaque { name: "Vec".to_string(), params: vec![] }).unwrap_err().message(),
        "Vec type without type parameter"
    );
    assert_eq!(
        map_type(&TypeDescriptor::Opaque { name: "HashMap".to_string(), params: vec![] }),
        Err(MappingError::UnsupportedOpaque { name: "HashMap".to_string() })
    );
    assert_eq!(
        map_type(&TypeDescriptor::Sequence(Box::new(TypeDescriptor::Never))),
        Err(MappingError::Uninhabited)
    );
}

fn nest(d: TypeDescriptor, n: usize) -> TypeDescriptor {
    (0..n).fold(d, |acc, _| TypeDescriptor::Sequence(Box::new(acc)))
}

#[test]
fn nested_sequences_map_to_nested_lists() {
    let d = nest(TypeDescriptor::Integer { signed: false, width: 4 }, 2);
    let t = map_type(&d).unwrap();
    assert_eq!(t, CapnpType::List(Box::new(CapnpType::List(Box::new(CapnpType::UInt32)))));
    assert_eq!(t.render(), "List(List(UInt32))");
    let deep = map_type(&nest(TypeDescriptor::Bool, 4)).unwrap();
    assert_eq!(deep.render(), "List(List(List(List(Bool))))");
    let vec_in_seq = TypeDescriptor::Sequence(Box::new(TypeDescriptor::Opaque {
        name: "Vec".to_string(),
        params: vec![TypeDescriptor::Text],
    }));
    assert_eq!(map_type(&vec_in_seq).unwrap().render(), "List(List(Text))");
}

#[test]
fn same_id_in_two_structs_is_allowed() {
    let mut a = CapnpStruct::new("A".to_string());
    a.add_field(f("x", 0, CapnpType::Bool));
    let mut b = CapnpStruct::new("B".to_string());
    b.add_field(f("y", 0, CapnpType::Bool));
    let mut doc = CapnpDocument::new();
    doc.add_item(CapnpItem::Struct(a));
    doc.add_item(CapnpItem::Struct(b));
    assert!(doc.validate().is_ok());
    assert!(doc.render().is_ok());
}

#[test]
fn person_renders_exactly() {
    let mut s = CapnpStruct::new("Person".to_string());
    s.add_field(f("id", 0, CapnpType::UInt64));
    s.add_field(f("fullName", 1, CapnpType::Text));
    s.add_field(f("numbers", 2, CapnpType::List(Box::new(CapnpType::Int32))));
    s.add_field(f("active", 3, CapnpType::Bool));
    assert_eq!(
        s.render().unwrap(),
        "struct Person {\n  id @0 :UInt64;\n  fullName @1 :Text;\n  numbers @2 :List(Int32);\n  active @3 :Bool;\n}\n"
    );
}

#[test]
fn status_union_renders_three_void_lines() {
    let mut s = CapnpStruct::new("Status".to_string());
    let mut u = CapnpUnion::new();
    u.add_variant(CapnpUnionVariant::new("active".to_string(), 0, CapnpType::Void));
    u.add_variant(CapnpUnionVariant::new("inactive".to_string(), 1, CapnpType::Void));
    u.add_variant(CapnpUnionVariant::new("pending".to_string(), 2, CapnpType::Void));
    s.set_union(u);
    assert_eq!(
        s.render().unwrap(),
        "struct Status {\n  union {\n    active @0 :Void;\n    inactive @1 :Void;\n    pending @2 :Void;\n  }\n}\n"
    );
}

#[test]
fn field_and_variant_sharing_id_zero() {
    let mut s = CapnpStruct::new("Clash".to_string());
    s.add_field(f("name", 0, CapnpType::Text));
    let mut u = CapnpUnion::new();
    u.add_variant(CapnpUnionVariant::new("other".to_string(), 0, CapnpType::Void));
    s.set_union(u);
    assert_eq!(
        s.validate(),
        Err(ValidationError::DuplicateId {
            id: 0,
            locations: vec!["struct field 'name'".to_string(), "union variant 'other'".to_string()],
        })
    );
}

#[test]
fn empty_struct_renders_empty_body() {
    assert_eq!(CapnpStruct::new("Empty".to_string()).render().unwrap(), "struct Empty {\n}\n");
}

#[test]
fn untagged_groups_render_without_ordinal() {
    let empty = CapnpUnionVariant::new_untagged_group("nothing".to_string(), vec![]);
    assert_eq!(empty.render(), "nothing :group {};");
    let g = CapnpUnionVariant::new_untagged_group("pair".to_string(), vec![f("a", 3, CapnpType::Int8)]);
    assert_eq!(g.render(), "pair :group {\n      a @3 :Int8;\n    };");
}

#[test]
fn extra_lines_follow_union_before_closing_brace() {
    let mut s = CapnpStruct::new("Kept".to_string());
    s.add_field(f("a", 0, CapnpType::Bool));
    let mut u = CapnpUnion::new();
    u.add_variant(CapnpUnionVariant::new("v".to_string(), 1, CapnpType::Void));
    s.set_union(u);
    s.add_extra_field("gone @2 :Text".to_string());
    assert_eq!(
        s.render().unwrap(),
        "struct Kept {\n  a @0 :Bool;\n  union {\n    v @1 :Void;\n  }\n  gone @2 :Text;\n}\n"
    );
}

#[test]
fn large_ids_render_in_decimal() {
    assert_eq!(f("big", u32::MAX, CapnpType::Bool).render(), "big @4294967295 :Bool;");
    assert_eq!(f("ten", 10, CapnpType::Bool).render(), "ten @10 :Bool;");
}
