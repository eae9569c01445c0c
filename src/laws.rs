//! Properties that relate the functions of the library, proved over their
//! specifications.

use vstd::prelude::*;
use crate::mapper::{mapped, MappingError, TypeDescriptor};
use crate::model::{
    field_line, fields_block, item_conflict, items_conflict, items_text, rendered_is, struct_text,
    variant_text, variants_block, CapnpField, CapnpItem, CapnpStruct, CapnpType,
    CapnpUnionVariant, extras_block, union_text,
};
use crate::validate::{
    dup_at, error_view, ids_unique, lemma_first_dup_found, lemma_unique_iff_no_conflict,
    locations_of, struct_conflict, struct_entries, Entry, ValidationError,
};

verus! {

/// `part` stands in `text` at position `at`.
pub open spec fn occurs_at(text: Seq<char>, part: Seq<char>, at: int) -> bool {
    0 <= at && at + part.len() <= text.len() && text.subrange(at, at + part.len()) == part
}

/// The first line of a struct's text.
pub open spec fn struct_header(s: CapnpStruct) -> Seq<char> {
    "struct "@ + s.name@ + " {\n"@
}

/// Where the line of field `i` starts in the text of `s`.
pub open spec fn field_position(s: CapnpStruct, i: int) -> int {
    (struct_header(s).len() + fields_block(s.fields@.take(i), "  "@).len() + 2) as int
}

/// Where the line of variant `i` of the union starts in the text of `s`.
pub open spec fn variant_position(s: CapnpStruct, i: int) -> int {
    (struct_header(s).len() + fields_block(s.fields@, "  "@).len() + "  union {\n"@.len()
        + variants_block(s.union.unwrap().variants@.take(i)).len() + 4) as int
}

proof fn lemma_fields_block_split(fs: Seq<CapnpField>, ind: Seq<char>, i: int)
    requires
        0 <= i < fs.len(),
    ensures
        fields_block(fs, ind) == fields_block(fs.take(i), ind) + ind + field_line(fs[i]) + "\n"@
            + fields_block(fs.skip(i + 1), ind),
    decreases fs.len(),
{
    if i == fs.len() - 1 {
        assert(fs.take(i) =~= fs.drop_last());
        assert(fs.skip(i + 1) =~= Seq::<CapnpField>::empty());
        assert(fields_block(fs, ind) =~= fields_block(fs.take(i), ind) + ind + field_line(fs[i])
            + "\n"@ + fields_block(fs.skip(i + 1), ind));
    } else {
        let d = fs.drop_last();
        lemma_fields_block_split(d, ind, i);
        assert(d.take(i) =~= fs.take(i));
        assert(fs.skip(i + 1).drop_last() =~= d.skip(i + 1));
        assert(fs.skip(i + 1).last() == fs.last());
        assert(fields_block(fs, ind) =~= fields_block(fs.take(i), ind) + ind + field_line(fs[i])
            + "\n"@ + fields_block(fs.skip(i + 1), ind));
    }
}

proof fn lemma_variants_block_split(vs: Seq<CapnpUnionVariant>, i: int)
    requires
        0 <= i < vs.len(),
    ensures
        variants_block(vs) == variants_block(vs.take(i)) + "    "@ + variant_text(vs[i]) + "\n"@
            + variants_block(vs.skip(i + 1)),
    decreases vs.len(),
{
    if i == vs.len() - 1 {
        assert(vs.take(i) =~= vs.drop_last());
        assert(vs.skip(i + 1) =~= Seq::<CapnpUnionVariant>::empty());
        assert(variants_block(vs) =~= variants_block(vs.take(i)) + "    "@ + variant_text(vs[i])
            + "\n"@ + variants_block(vs.skip(i + 1)));
    } else {
        let d = vs.drop_last();
        lemma_variants_block_split(d, i);
        assert(d.take(i) =~= vs.take(i));
        assert(vs.skip(i + 1).drop_last() =~= d.skip(i + 1));
        assert(vs.skip(i + 1).last() == vs.last());
        assert(variants_block(vs) =~= variants_block(vs.take(i)) + "    "@ + variant_text(vs[i])
            + "\n"@ + variants_block(vs.skip(i + 1)));
    }
}

proof fn lemma_occurs_in_middle(a: Seq<char>, b: Seq<char>, c: Seq<char>)
    ensures
        occurs_at(a + b + c, b, a.len() as int),
{
    assert((a + b + c).subrange(a.len() as int, (a.len() + b.len()) as int) =~= b);
}

proof fn lemma_field_occurs(s: CapnpStruct, i: int)
    requires
        0 <= i < s.fields@.len(),
    ensures
        occurs_at(struct_text(s), field_line(s.fields@[i]), field_position(s, i)),
{
    reveal_strlit("  ");
    let fs = s.fields@;
    lemma_fields_block_split(fs, "  "@, i);
    let u_text = match s.union {
        Some(u) => union_text(u),
        None => Seq::empty(),
    };
    let a = struct_header(s) + fields_block(fs.take(i), "  "@) + "  "@;
    let c = "\n"@ + fields_block(fs.skip(i + 1), "  "@) + u_text + extras_block(s.extra_fields@)
        + "}\n"@;
    assert(struct_text(s) =~= a + field_line(fs[i]) + c);
    lemma_occurs_in_middle(a, field_line(fs[i]), c);
}

proof fn lemma_struct_text_around_variants(s: CapnpStruct)
    requires
        s.union is Some,
    ensures
        struct_text(s) == struct_header(s) + fields_block(s.fields@, "  "@) + "  union {\n"@
            + variants_block(s.union.unwrap().variants@) + ("  }\n"@ + extras_block(s.extra_fields@)
            + "}\n"@),
{
    let u = s.union.unwrap();
    assert(struct_text(s) =~= struct_header(s) + fields_block(s.fields@, "  "@) + "  union {\n"@
        + variants_block(u.variants@) + ("  }\n"@ + extras_block(s.extra_fields@) + "}\n"@));
}

proof fn lemma_variant_occurs(s: CapnpStruct, i: int)
    requires
        s.union is Some,
        0 <= i < s.union.unwrap().variants@.len(),
    ensures
        occurs_at(struct_text(s), variant_text(s.union.unwrap().variants@[i]), variant_position(s, i)),
{
    let vs = s.union.unwrap().variants@;
    let line = variant_text(vs[i]);
    let pre = struct_header(s) + fields_block(s.fields@, "  "@) + "  union {\n"@;
    let post = "  }\n"@ + extras_block(s.extra_fields@) + "}\n"@;
    lemma_struct_text_around_variants(s);
    lemma_variants_block_split(vs, i);
    let left = variants_block(vs.take(i)) + "    "@;
    let right = "\n"@ + variants_block(vs.skip(i + 1));
    assert(variants_block(vs) =~= left + line + right);
    let a = pre + left;
    let c = right + post;
    assert(pre + (left + line + right) + post =~= a + line + c);
    reveal_strlit("    ");
    lemma_occurs_in_middle(a, line, c);
}

/// A struct whose ordinals are all distinct is valid, and its text holds
/// the line of every field and then of every union variant, in the order
/// in which they were declared.
pub proof fn lemma_valid_struct_lists_members_in_order(s: CapnpStruct)
    requires
        ids_unique(s),
    ensures
        struct_conflict(s) is None,
        forall|i: int| 0 <= i < s.fields@.len()
            ==> occurs_at(struct_text(s), field_line(s.fields@[i]), #[trigger] field_position(s, i)),
        forall|i: int, j: int| 0 <= i < j < s.fields@.len()
            ==> field_position(s, i) < field_position(s, j),
        s.union matches Some(u) ==> forall|i: int| 0 <= i < u.variants@.len()
            ==> occurs_at(struct_text(s), variant_text(u.variants@[i]),
                #[trigger] variant_position(s, i)),
        s.union matches Some(u) ==> forall|i: int, j: int| 0 <= i < j < u.variants@.len()
            ==> variant_position(s, i) < variant_position(s, j),
        s.union matches Some(u) ==> forall|i: int, j: int|
            0 <= i < s.fields@.len() && 0 <= j < u.variants@.len()
            ==> field_position(s, i) < variant_position(s, j),
{
    lemma_unique_iff_no_conflict(s);
    reveal_strlit("  ");
    reveal_strlit("    ");
    let fs = s.fields@;
    assert forall|i: int| 0 <= i < fs.len() implies occurs_at(
        struct_text(s),
        field_line(fs[i]),
        #[trigger] field_position(s, i),
    ) by {
        lemma_field_occurs(s, i);
    }
    assert forall|i: int, j: int| 0 <= i < j < fs.len() implies field_position(s, i)
        < field_position(s, j) by {
        lemma_fields_block_split(fs.take(j), "  "@, i);
        assert(fs.take(j).take(i) =~= fs.take(i));
    }
    if let Some(u) = s.union {
        let vs = u.variants@;
        assert forall|i: int| 0 <= i < vs.len() implies occurs_at(
            struct_text(s),
            variant_text(vs[i]),
            #[trigger] variant_position(s, i),
        ) by {
            lemma_variant_occurs(s, i);
        }
        assert forall|i: int, j: int| 0 <= i < j < vs.len() implies variant_position(s, i)
            < variant_position(s, j) by {
            lemma_variants_block_split(vs.take(j), i);
            assert(vs.take(j).take(i) =~= vs.take(i));
        }
        assert forall|i: int, j: int| 0 <= i < fs.len() && 0 <= j < vs.len() implies
            field_position(s, i) < variant_position(s, j) by {
            lemma_fields_block_split(fs, "  "@, i);
        }
    }
}

proof fn lemma_locations_of_pair(e: Seq<Entry>, i: int, j: int, n: int)
    requires
        0 <= i < j < e.len(),
        0 <= n <= e.len(),
        forall|k: int| 0 <= k < e.len() && k != i && k != j ==> e[k].0 != e[i].0,
        e[j].0 == e[i].0,
    ensures
        locations_of(e.take(n), e[i].0) == (if n > i { seq![e[i].1] } else { Seq::empty() }) + (
        if n > j {
            seq![e[j].1]
        } else {
            Seq::empty()
        }),
    decreases n,
{
    if n > 0 {
        lemma_locations_of_pair(e, i, j, n - 1);
        assert(e.take(n).drop_last() =~= e.take(n - 1));
        assert(e.take(n).last() == e[n - 1]);
        assert(locations_of(e.take(n), e[i].0) =~= (if n > i { seq![e[i].1] } else { Seq::empty() })
            + (if n > j { seq![e[j].1] } else { Seq::empty() }));
    } else {
        assert(e.take(n) =~= Seq::<Entry>::empty());
    }
}

/// When exactly two places of a struct share an ordinal, validation reports
/// that ordinal with exactly those two locations, in scan order.
pub proof fn lemma_single_pair_reported(s: CapnpStruct, i: int, j: int)
    requires
        0 <= i < j < struct_entries(s).len(),
        struct_entries(s)[i].0 == struct_entries(s)[j].0,
        forall|k: int, l: int|
            0 <= k < struct_entries(s).len() && 0 <= l < struct_entries(s).len() && k != l
                && struct_entries(s)[k].0 == struct_entries(s)[l].0
            ==> (k == i && l == j) || (k == j && l == i),
    ensures
        struct_conflict(s) == Some(
            (struct_entries(s)[i].0, seq![struct_entries(s)[i].1, struct_entries(s)[j].1]),
        ),
{
    let e = struct_entries(s);
    assert(dup_at(e, i));
    assert forall|k: int| 0 <= k < i implies !dup_at(e, k) by {
        if dup_at(e, k) {
            let m = choose|m: int| 0 <= m < e.len() && m != k && #[trigger] e[m].0 == e[k].0;
            assert(e[m].0 == e[k].0);
        }
    }
    lemma_first_dup_found(e, 0, i);
    assert forall|k: int| 0 <= k < e.len() && k != i && k != j implies e[k].0 != e[i].0 by {
        if e[k].0 == e[i].0 {
            assert(e[k].0 == e[i].0);
        }
    }
    lemma_locations_of_pair(e, i, j, e.len() as int);
    assert(e.take(e.len() as int) =~= e);
    assert(seq![e[i].1] + seq![e[j].1] =~= seq![e[i].1, e[j].1]);
}

/// Rendering is deterministic: any two outcomes that rendering the same
/// items may give are the same text, or the same error.
pub proof fn lemma_render_deterministic(
    items: Seq<CapnpItem>,
    r1: Result<String, ValidationError>,
    r2: Result<String, ValidationError>,
)
    requires
        rendered_is(r1, items_conflict(items), items_text(items)),
        rendered_is(r2, items_conflict(items), items_text(items)),
    ensures
        r1 is Ok <==> r2 is Ok,
        r1 is Ok ==> r1.unwrap()@ == r2.unwrap()@,
        r1 is Err ==> error_view(r1.unwrap_err()) == error_view(r2.unwrap_err()),
{
}

/// Ordinals are scoped per struct: a document is valid exactly when each of
/// its structs is valid on its own, whatever ordinals they share.
pub proof fn lemma_ids_scoped_per_struct(items: Seq<CapnpItem>)
    ensures
        items_conflict(items) is None <==> forall|k: int|
            0 <= k < items.len() ==> (#[trigger] item_conflict(items[k])) is None,
    decreases items.len(),
{
    if items.len() > 0 {
        let d = items.drop_last();
        lemma_ids_scoped_per_struct(d);
        if items_conflict(items) is None {
            assert forall|k: int| 0 <= k < items.len() implies (#[trigger] item_conflict(items[k])) is None by {
                if k < items.len() - 1 {
                    assert(d[k] == items[k]);
                }
            }
        } else {
            if items_conflict(d) is Some {
                let k = choose|k: int| 0 <= k < d.len() && (#[trigger] item_conflict(d[k])) is Some;
                assert(items[k] == d[k]);
            }
        }
    }
}

/// The descriptors that have a schema type.
pub open spec fn supported(d: TypeDescriptor) -> bool
    decreases d,
{
    match d {
        TypeDescriptor::Bool | TypeDescriptor::Text | TypeDescriptor::Void => true,
        TypeDescriptor::Integer { signed, width } => width == 1 || width == 2 || width == 4 || width == 8,
        TypeDescriptor::Float { width } => width == 4 || width == 8,
        TypeDescriptor::Sequence(inner) => supported(*inner),
        TypeDescriptor::UserStruct(_) | TypeDescriptor::UserEnum(_) => true,
        TypeDescriptor::Opaque { name, params } => name@ == "String"@ || (name@ == "Vec"@
            && params.len() > 0 && supported(params[0])),
        TypeDescriptor::Never | TypeDescriptor::UserUnion(_) | TypeDescriptor::Pointer => false,
    }
}

/// Mapping succeeds on exactly the supported descriptors and fails on every
/// other one.
pub proof fn lemma_mapping_total(d: TypeDescriptor)
    ensures
        mapped(d) is Ok <==> supported(d),
    decreases d,
{
    match d {
        TypeDescriptor::Sequence(inner) => lemma_mapping_total(*inner),
        TypeDescriptor::Opaque { name, params } => {
            if params.len() > 0 {
                lemma_mapping_total(params[0]);
            }
        },
        _ => {},
    }
}

/// `d` inside `n` sequences.
pub open spec fn nested_sequence(d: TypeDescriptor, n: nat) -> TypeDescriptor
    decreases n,
{
    if n == 0 {
        d
    } else {
        TypeDescriptor::Sequence(Box::new(nested_sequence(d, (n - 1) as nat)))
    }
}

/// `t` inside `n` lists.
pub open spec fn nested_list(t: CapnpType, n: nat) -> CapnpType
    decreases n,
{
    if n == 0 {
        t
    } else {
        CapnpType::List(Box::new(nested_list(t, (n - 1) as nat)))
    }
}

/// Sequences map to lists at any depth, and an error inside propagates.
pub proof fn lemma_nested_sequences_map_to_lists(d: TypeDescriptor, n: nat)
    ensures
        mapped(nested_sequence(d, n)) == match mapped(d) {
            Ok(t) => Ok::<CapnpType, MappingError>(nested_list(t, n)),
            Err(e) => Err(e),
        },
    decreases n,
{
    if n > 0 {
        lemma_nested_sequences_map_to_lists(d, (n - 1) as nat);
    }
}

} // verus!
