//! Uniqueness of ordinals within one struct.

use vstd::prelude::*;
use crate::model::{CapnpField, CapnpStruct, CapnpUnionVariant, CapnpVariantType};
use crate::text::{decimal, push_decimal};

verus! {

/// Why a struct cannot be rendered.
#[derive(Debug, Clone, PartialEq)]
pub enum ValidationError {
    /// `id` is used at every place in `locations`, in the order of the scan.
    DuplicateId { id: u32, locations: Vec<String> },
}

/// An ordinal and the description of where it is used.
pub type Entry = (u32, Seq<char>);

/// `struct field '<name>'`
pub open spec fn field_location(name: Seq<char>) -> Seq<char> {
    "struct field '"@ + name + "'"@
}

/// `union variant '<name>'`
pub open spec fn variant_location(name: Seq<char>) -> Seq<char> {
    "union variant '"@ + name + "'"@
}

/// `union group '<group>' field '<name>'`
pub open spec fn group_field_location(group: Seq<char>, name: Seq<char>) -> Seq<char> {
    "union group '"@ + group + "' field '"@ + name + "'"@
}

/// The entries of the top-level fields, in order.
pub open spec fn field_entries(fields: Seq<CapnpField>) -> Seq<Entry>
    decreases fields.len(),
{
    if fields.len() == 0 {
        Seq::empty()
    } else {
        field_entries(fields.drop_last()).push(
            (fields.last().id, field_location(fields.last().name@)),
        )
    }
}

/// The entries of the fields of the group variant named `group`, in order.
pub open spec fn group_entries(group: Seq<char>, fields: Seq<CapnpField>) -> Seq<Entry>
    decreases fields.len(),
{
    if fields.len() == 0 {
        Seq::empty()
    } else {
        group_entries(group, fields.drop_last()).push(
            (fields.last().id, group_field_location(group, fields.last().name@)),
        )
    }
}

/// The entries of one variant: its own ordinal, if it has one, then those of
/// its group's fields.
pub open spec fn variant_entries(v: CapnpUnionVariant) -> Seq<Entry> {
    match v.variant_type {
        CapnpVariantType::Type { id, ty } => seq![(id, variant_location(v.name@))],
        CapnpVariantType::Group { group_id, fields } => (match group_id {
            Some(n) => seq![(n, variant_location(v.name@))],
            None => Seq::empty(),
        }) + group_entries(v.name@, fields@),
    }
}

/// The entries of all variants, in order.
pub open spec fn union_entries(variants: Seq<CapnpUnionVariant>) -> Seq<Entry>
    decreases variants.len(),
{
    if variants.len() == 0 {
        Seq::empty()
    } else {
        union_entries(variants.drop_last()) + variant_entries(variants.last())
    }
}

/// Every ordinal of a struct with where it is used, in the order of the scan:
/// the fields, then the union's variants and the fields of its groups.
pub open spec fn struct_entries(s: CapnpStruct) -> Seq<Entry> {
    field_entries(s.fields@) + match s.union {
        Some(u) => union_entries(u.variants@),
        None => Seq::empty(),
    }
}

/// Entry `i` shares its ordinal with another entry.
pub open spec fn dup_at(e: Seq<Entry>, i: int) -> bool {
    exists|j: int| 0 <= j < e.len() && j != i && #[trigger] e[j].0 == e[i].0
}

/// The first index from `i` on whose ordinal is shared.
pub open spec fn first_dup(e: Seq<Entry>, i: int) -> Option<int>
    decreases e.len() - i,
{
    if i < 0 || i >= e.len() {
        None
    } else if dup_at(e, i) {
        Some(i)
    } else {
        first_dup(e, i + 1)
    }
}

/// The locations of the entries with ordinal `id`, in order.
pub open spec fn locations_of(e: Seq<Entry>, id: u32) -> Seq<Seq<char>>
    decreases e.len(),
{
    if e.len() == 0 {
        Seq::empty()
    } else {
        locations_of(e.drop_last(), id) + if e.last().0 == id {
            seq![e.last().1]
        } else {
            Seq::empty()
        }
    }
}

/// The conflict reported for a struct, if any: the ordinal of the first
/// entry whose ordinal is shared, with every location that uses it.
pub open spec fn struct_conflict(s: CapnpStruct) -> Option<(u32, Seq<Seq<char>>)> {
    let e = struct_entries(s);
    match first_dup(e, 0) {
        Some(i) => Some((e[i].0, locations_of(e, e[i].0))),
        None => None,
    }
}

/// All ordinals of the struct are distinct.
pub open spec fn ids_unique(s: CapnpStruct) -> bool {
    let e = struct_entries(s);
    forall|i: int, j: int| 0 <= i < e.len() && 0 <= j < e.len() && i != j ==> e[i].0 != e[j].0
}

/// The texts of a sequence of strings.
pub open spec fn texts(v: Seq<String>) -> Seq<Seq<char>> {
    v.map_values(|l: String| l@)
}

/// What an error reports: the ordinal and the locations.
pub open spec fn error_view(e: ValidationError) -> (u32, Seq<Seq<char>>) {
    match e {
        ValidationError::DuplicateId { id, locations } => (id, texts(locations@)),
    }
}

/// `r` is the outcome that `conflict` calls for.
pub open spec fn outcome_is(r: Result<(), ValidationError>, conflict: Option<(u32, Seq<Seq<char>>)>) -> bool {
    match r {
        Ok(_) => conflict is None,
        Err(e) => conflict == Some(error_view(e)),
    }
}

/// Entry `i` is the first whose ordinal is shared.
pub proof fn lemma_first_dup_found(e: Seq<Entry>, s: int, i: int)
    requires
        0 <= s <= i < e.len(),
        dup_at(e, i),
        forall|k: int| s <= k < i ==> !dup_at(e, k),
    ensures
        first_dup(e, s) == Some(i),
    decreases i - s,
{
    if s < i {
        lemma_first_dup_found(e, s + 1, i);
    }
}

proof fn lemma_first_dup_none(e: Seq<Entry>, s: int)
    requires
        0 <= s,
        forall|k: int| s <= k < e.len() ==> !dup_at(e, k),
    ensures
        first_dup(e, s) is None,
    decreases e.len() - s,
{
    if s < e.len() {
        lemma_first_dup_none(e, s + 1);
    }
}

/// Holds exactly when no entry's ordinal is shared.
pub proof fn lemma_unique_iff_no_conflict(s: CapnpStruct)
    ensures
        ids_unique(s) <==> struct_conflict(s) is None,
{
    let e = struct_entries(s);
    if ids_unique(s) {
        assert forall|k: int| 0 <= k < e.len() implies !dup_at(e, k) by {
            if dup_at(e, k) {
                let j = choose|j: int| 0 <= j < e.len() && j != k && #[trigger] e[j].0 == e[k].0;
                assert(e[j].0 != e[k].0);
            }
        }
        lemma_first_dup_none(e, 0);
    } else {
        let (i, j) = choose|i: int, j: int|
            0 <= i < e.len() && 0 <= j < e.len() && i != j && e[i].0 == e[j].0;
        assert(dup_at(e, i));
        lemma_first_dup_some(e, 0, i);
    }
}

proof fn lemma_first_dup_some(e: Seq<Entry>, s: int, i: int)
    requires
        0 <= s <= i < e.len(),
        dup_at(e, i),
    ensures
        first_dup(e, s) is Some,
    decreases i - s,
{
    if s < i && !dup_at(e, s) {
        lemma_first_dup_some(e, s + 1, i);
    }
}

/// The entries of `ids` and `locs`, pairwise.
spec fn paired(ids: Seq<u32>, locs: Seq<String>) -> Seq<Entry> {
    Seq::new(ids.len(), |k: int| (ids[k], locs[k]@))
}

/// Collects the entries of a struct as two parallel vectors.
struct EntryList {
    ids: Vec<u32>,
    locs: Vec<String>,
}

impl EntryList {
    spec fn view_entries(&self) -> Seq<Entry> {
        paired(self.ids@, self.locs@)
    }

    spec fn wf(&self) -> bool {
        self.ids@.len() == self.locs@.len()
    }

    fn push(&mut self, id: u32, loc: String)
        requires
            old(self).wf(),
        ensures
            final(self).wf(),
            final(self).view_entries() == old(self).view_entries().push((id, loc@)),
    {
        self.ids.push(id);
        self.locs.push(loc);
        assert(self.view_entries() =~= old(self).view_entries().push((id, loc@)));
    }

    fn push_fields(&mut self, fields: &Vec<CapnpField>)
        requires
            old(self).wf(),
        ensures
            final(self).wf(),
            final(self).view_entries() == old(self).view_entries() + field_entries(fields@),
    {
        let ghost start = self.view_entries();
        let mut i: usize = 0;
        while i < fields.len()
            invariant
                i <= fields@.len(),
                self.wf(),
                self.view_entries() == start + field_entries(fields@.take(i as int)),
            decreases fields@.len() - i,
        {
            let mut loc = String::new();
            loc.append("struct field '");
            loc.append(fields[i].name.as_str());
            loc.append("'");
            self.push(fields[i].id, loc);
            proof {
                assert(fields@.take(i + 1).drop_last() =~= fields@.take(i as int));
            }
            i = i + 1;
            assert(self.view_entries() =~= start + field_entries(fields@.take(i as int)));
        }
        assert(fields@.take(i as int) =~= fields@);
    }

    fn push_group(&mut self, group: &String, fields: &Vec<CapnpField>)
        requires
            old(self).wf(),
        ensures
            final(self).wf(),
            final(self).view_entries() == old(self).view_entries() + group_entries(group@, fields@),
    {
        let ghost start = self.view_entries();
        let mut i: usize = 0;
        while i < fields.len()
            invariant
                i <= fields@.len(),
                self.wf(),
                self.view_entries() == start + group_entries(group@, fields@.take(i as int)),
            decreases fields@.len() - i,
        {
            let mut loc = String::new();
            loc.append("union group '");
            loc.append(group.as_str());
            loc.append("' field '");
            loc.append(fields[i].name.as_str());
            loc.append("'");
            self.push(fields[i].id, loc);
            proof {
                assert(fields@.take(i + 1).drop_last() =~= fields@.take(i as int));
            }
            i = i + 1;
            assert(self.view_entries() =~= start + group_entries(group@, fields@.take(i as int)));
        }
        assert(fields@.take(i as int) =~= fields@);
    }

    fn push_variant(&mut self, v: &CapnpUnionVariant)
        requires
            old(self).wf(),
        ensures
            final(self).wf(),
            final(self).view_entries() == old(self).view_entries() + variant_entries(*v),
    {
        let ghost start = self.view_entries();
        match &v.variant_type {
            CapnpVariantType::Type { id, ty } => {
                let mut loc = String::new();
                loc.append("union variant '");
                loc.append(v.name.as_str());
                loc.append("'");
                self.push(*id, loc);
            },
            CapnpVariantType::Group { group_id, fields } => {
                match group_id {
                    Some(n) => {
                        let mut loc = String::new();
                        loc.append("union variant '");
                        loc.append(v.name.as_str());
                        loc.append("'");
                        self.push(*n, loc);
                    },
                    None => {},
                }
                self.push_group(&v.name, fields);
            },
        }
        assert(self.view_entries() =~= start + variant_entries(*v));
    }

    fn push_variants(&mut self, variants: &Vec<CapnpUnionVariant>)
        requires
            old(self).wf(),
        ensures
            final(self).wf(),
            final(self).view_entries() == old(self).view_entries() + union_entries(variants@),
    {
        let ghost start = self.view_entries();
        let mut i: usize = 0;
        while i < variants.len()
            invariant
                i <= variants@.len(),
                self.wf(),
                self.view_entries() == start + union_entries(variants@.take(i as int)),
            decreases variants@.len() - i,
        {
            self.push_variant(&variants[i]);
            proof {
                assert(variants@.take(i + 1).drop_last() =~= variants@.take(i as int));
            }
            i = i + 1;
            assert(self.view_entries() =~= start + union_entries(variants@.take(i as int)));
        }
        assert(variants@.take(i as int) =~= variants@);
    }
}

impl CapnpStruct {
    /// Checks that every ordinal of the struct (its fields, its union's
    /// variants, the fields of its groups) is used once. On a conflict,
    /// reports the first shared ordinal in scan order with all its locations.
    pub fn validate(&self) -> (r: Result<(), ValidationError>)
        ensures
            outcome_is(r, struct_conflict(*self)),
            r is Ok <==> ids_unique(*self),
    {
        proof {
            lemma_unique_iff_no_conflict(*self);
        }
        let mut list = EntryList { ids: Vec::new(), locs: Vec::new() };
        assert(list.view_entries() =~= Seq::<Entry>::empty());
        list.push_fields(&self.fields);
        match &self.union {
            Some(u) => list.push_variants(&u.variants),
            None => {},
        }
        let ghost e = list.view_entries();
        assert(e =~= struct_entries(*self));
        assert(e == struct_entries(*self));
        let n: usize = list.ids.len();
        let mut i: usize = 0;
        while i < n
            invariant
                n == list.ids@.len() == list.locs@.len() == e.len(),
                e == list.view_entries(),
                e == struct_entries(*self),
                i <= n,
                forall|k: int| 0 <= k < i ==> !dup_at(e, k),
            decreases n - i,
        {
            let mut j: usize = 0;
            let mut found = false;
            while j < n && !found
                invariant
                    n == list.ids@.len() == list.locs@.len() == e.len(),
                    e == list.view_entries(),
                    e == struct_entries(*self),
                    i < n,
                    j <= n,
                    found ==> dup_at(e, i as int),
                    !found ==> forall|m: int| 0 <= m < j && m != i ==> e[m].0 != e[i as int].0,
                decreases n - j,
            {
                if j != i && list.ids[j] == list.ids[i] {
                    found = true;
                    assert(e[j as int].0 == e[i as int].0);
                    j = n;
                } else {
                    j = j + 1;
                }
            }
            if found {
                proof {
                    lemma_first_dup_found(e, 0, i as int);
                }
                let id: u32 = list.ids[i];
                assert(e[i as int].0 == id);
                let mut locations: Vec<String> = Vec::new();
                let mut k: usize = 0;
                while k < n
                    invariant
                        n == list.ids@.len() == list.locs@.len() == e.len(),
                        e == list.view_entries(),
                    e == struct_entries(*self),
                        e == struct_entries(*self),
                        k <= n,
                        texts(locations@) == locations_of(e.take(k as int), id),
                    decreases n - k,
                {
                    proof {
                        assert(e.take(k + 1).drop_last() =~= e.take(k as int));
                    }
                    if list.ids[k] == id {
                        let l = list.locs[k].clone();
                        locations.push(l);
                    }
                    assert(texts(locations@) =~= locations_of(e.take(k + 1), id));
                    k = k + 1;
                }
                assert(e.take(n as int) =~= e);
                return Err(ValidationError::DuplicateId { id, locations });
            }
            assert(!dup_at(e, i as int)) by {
                if dup_at(e, i as int) {
                    let m = choose|m: int| 0 <= m < e.len() && m != i && #[trigger] e[m].0 == e[i as int].0;
                    assert(e[m].0 != e[i as int].0);
                }
            }
            i = i + 1;
        }
        proof {
            lemma_first_dup_none(e, 0);
        }
        Ok(())
    }
}

/// `parts` joined by `, `.
pub open spec fn comma_joined(parts: Seq<Seq<char>>) -> Seq<char>
    decreases parts.len(),
{
    if parts.len() == 0 {
        Seq::empty()
    } else if parts.len() == 1 {
        parts[0]
    } else {
        comma_joined(parts.drop_last()) + ", "@ + parts.last()
    }
}

/// `Duplicate ID <id> found in: <location>, <location>, ...`
pub open spec fn error_message(e: ValidationError) -> Seq<char> {
    "Duplicate ID "@ + decimal(error_view(e).0 as nat) + " found in: "@ + comma_joined(error_view(e).1)
}

impl ValidationError {
    /// A one-line description of the error.
    pub fn message(&self) -> (r: String)
        ensures
            r@ == error_message(*self),
    {
        match self {
            ValidationError::DuplicateId { id, locations } => {
                let mut out = String::new();
                out.append("Duplicate ID ");
                push_decimal(&mut out, *id as u64);
                out.append(" found in: ");
                let ghost head = out@;
                let mut i: usize = 0;
                while i < locations.len()
                    invariant
                        i <= locations@.len(),
                        out@ == head + comma_joined(texts(locations@.take(i as int))),
                    decreases locations@.len() - i,
                {
                    if i > 0 {
                        out.append(", ");
                    }
                    out.append(locations[i].as_str());
                    proof {
                        assert(texts(locations@.take(i + 1)).drop_last() =~= texts(locations@.take(i as int)));
                    }
                    i = i + 1;
                    assert(out@ =~= head + comma_joined(texts(locations@.take(i as int))));
                }
                assert(locations@.take(i as int) =~= locations@);
                assert(out@ =~= error_message(*self));
                out
            },
        }
    }
}

} // verus!
