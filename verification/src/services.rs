use vstd::prelude::*;

use std::collections::HashSet;

use crate::models::entry::Entry;
use crate::models::layout::Layout;
use crate::models::section::Section;
use crate::ordering::{
    chars_lt, chars_order, chars_less, has_key, is_stable_sort_of, lemma_chars_order_strict_total,
    lemma_sorted_insert, sorted_by_key, strict_total_order, with_key,
};
use crate::ids::{
    find_first_id, find_last_id, first_id_index, has_id, last_id_index, lookup,
};
use crate::utils::{auto_increment_name, chars_of, is_auto_incremented, str_views};

verus! {

/// A connection to the database of a glyph.
#[verifier::external_type_specification]
#[verifier::external_body]
pub struct ExConnection(rusqlite::Connection);

/// The section with id `sid` of the entry with id `eid`.
pub open spec fn section_of(entries: Seq<(i64, Entry)>, eid: i64, sid: i64) -> Option<Section> {
    match lookup(entries, eid) {
        Some(e) => lookup(e.sections@, sid),
        None => None,
    }
}

/// The ids and names of `s`, in order.
pub open spec fn entry_keys(s: Seq<(i64, Entry)>) -> Seq<(i64, Seq<char>)> {
    s.map_values(|p: (i64, Entry)| (p.0, p.1.entry_name@))
}

/// The ids and names of a list of named ids, in order.
pub open spec fn order_keys(s: Seq<(i64, String)>) -> Seq<(i64, Seq<char>)> {
    s.map_values(|p: (i64, String)| (p.0, p.1@))
}

pub open spec fn name_of() -> spec_fn((i64, Seq<char>)) -> Seq<char> {
    |p: (i64, Seq<char>)| p.1
}

pub open spec fn position_of() -> spec_fn((i64, Section)) -> i64 {
    |p: (i64, Section)| p.1.position
}

pub open spec fn int_order() -> spec_fn(i64, i64) -> bool {
    |a: i64, b: i64| a < b
}

proof fn lemma_int_order_strict_total()
    ensures
        strict_total_order(int_order()),
{
}

/// Sorts sections by their position, keeping the order of sections that share a position.
pub fn sort_by_position(v: Vec<(i64, Section)>) -> (r: Vec<(i64, Section)>)
    ensures
        is_stable_sort_of(r@, v@, position_of(), int_order()),
{
    broadcast use vstd::seq_lib::group_seq_properties;

    let ghost orig = v@;
    let mut rest = v;
    let mut out: Vec<(i64, Section)> = Vec::new();
    proof {
        lemma_int_order_strict_total();
        assert(orig.take(0) =~= Seq::<(i64, Section)>::empty());
        assert(out@ =~= orig.take(0));
    }
    while rest.len() > 0
        invariant
            strict_total_order(int_order()),
            out@.len() + rest@.len() == orig.len(),
            rest@ =~= orig.skip(out@.len() as int),
            sorted_by_key(out@, position_of(), int_order()),
            forall|k: i64| #[trigger]
                with_key(out@, position_of(), k) == with_key(
                    orig.take(out@.len() as int),
                    position_of(),
                    k,
                ),
        decreases rest@.len(),
    {
        let ghost done = out@.len() as int;
        let x = rest.remove(0);
        let mut pos: usize = 0;
        while pos < out.len() && !(x.1.position < out[pos].1.position)
            invariant
                0 <= pos <= out@.len(),
                forall|j: int| 0 <= j < pos ==> !(x.1.position < #[trigger] out@[j].1.position),
            decreases out@.len() - pos,
        {
            pos = pos + 1;
        }
        proof {
            lemma_sorted_insert(out@, pos as int, x, position_of(), int_order());
            assert(orig.take(done + 1) =~= orig.take(done).push(x));
            assert forall|k: i64| #[trigger]
                with_key(out@.insert(pos as int, x), position_of(), k) == with_key(
                    orig.take(done + 1),
                    position_of(),
                    k,
                ) by {
                orig.take(done).lemma_filter_push(x, has_key(position_of(), k));
            }
        }
        out.insert(pos, x);
    }
    assert(orig.take(orig.len() as int) =~= orig);
    out
}

/// The items of `s` for which `keep` holds, in order.
pub open spec fn select<A>(s: Seq<A>, keep: Seq<bool>) -> Seq<A>
    decreases s.len(),
{
    if s.len() == 0 {
        s
    } else {
        let r = select(s.drop_last(), keep.drop_last());
        if keep.last() {
            r.push(s.last())
        } else {
            r
        }
    }
}

/// Called on a string with the characters `name`, `f` can answer `b`.
pub open spec fn answers<F: Fn(&str) -> bool>(f: F, name: Seq<char>, b: bool) -> bool {
    exists|s: &str| #![trigger call_ensures(f, (s,), b)] s@ == name && call_ensures(f, (s,), b)
}

/// The largest position among `s`, and at least 0.
pub open spec fn max_position(s: Seq<(i64, Section)>) -> i64
    decreases s.len(),
{
    if s.len() == 0 {
        0
    } else {
        let m = max_position(s.drop_last());
        if s.last().1.position > m {
            s.last().1.position
        } else {
            m
        }
    }
}

/// The names of the entries, in order.
pub open spec fn entry_names(s: Seq<(i64, Entry)>) -> Seq<Seq<char>> {
    s.map_values(|p: (i64, Entry)| p.1.entry_name@)
}

broadcast use crate::ids::group_id_index;

/// The entries of a glyph as the application holds them between reads and
/// writes of its database.
pub struct LocalEntryState {
    /// All entries in the database, each with its id.
    pub entries: Vec<(i64, Entry)>,
    pub connection: rusqlite::Connection,
    /// The entry being read or edited.
    pub active_entry_id: Option<i64>,
    /// The ids of the entries changed since they were last saved.
    pub updated_entries: HashSet<i64>,
    /// Ids and names of the entries to list, in the order to list them.
    pub ordered_entries: Vec<(i64, String)>,
}

/// Why an operation on the local entries was refused.
#[derive(Clone, Copy, PartialEq, Eq, Structural, Debug)]
pub enum StateError {
    NoActiveEntry,
    EntryNotFound,
    SectionNotFound,
}

/// The active entry after `id` is toggled: none when `id` was the active
/// one, else `id`.
pub open spec fn toggled(active: Option<i64>, id: i64) -> Option<i64> {
    if active == Some(id) {
        None
    } else {
        Some(id)
    }
}

/// Toggling the same entry twice gives back the active entry one started
/// from, when that was no entry or that entry itself.
pub proof fn law_toggle_twice(active: Option<i64>, id: i64)
    requires
        active is None || active == Some(id),
    ensures
        toggled(toggled(active, id), id) == active,
{
}

impl LocalEntryState {
    /// The entry with id `eid`.
    pub fn get_entry_ref(&self, eid: &i64) -> (r: Option<&Entry>)
        ensures
            r is None <==> lookup(self.entries@, *eid) is None,
            r matches Some(e) ==> lookup(self.entries@, *eid) == Some(*e),
    {
        match find_first_id(&self.entries, *eid) {
            Some(i) => Some(&self.entries[i].1),
            None => None,
        }
    }

    /// A mutable borrow of the entry with id `eid`; what is written through it
    /// becomes that entry, and nothing else changes.
    pub fn get_entry_mut(&mut self, eid: &i64) -> (r: Option<&mut Entry>)
        ensures
            final(self).connection == old(self).connection,
            r is None <==> lookup(old(self).entries@, *eid) is None,
            r is None ==> *final(self) == *old(self),
            r matches Some(e) ==> ({
                let i = first_id_index(old(self).entries@, *eid);
                &&& *e == old(self).entries@[i].1
                &&& final(self).entries@ == old(self).entries@.update(i, (*eid, *final(r->0)))
                &&& final(self).active_entry_id == old(self).active_entry_id
                &&& final(self).ordered_entries == old(self).ordered_entries
                &&& final(self).updated_entries == old(self).updated_entries
            }),
    {
        match find_first_id(&self.entries, *eid) {
            Some(i) => Some(&mut self.entries[i].1),
            None => None,
        }
    }

    /// Makes `id` the active entry, or clears the active entry when `id` already is it.
    pub fn toggle_active_entry_id(&mut self, id: i64)
        ensures
            final(self).connection == old(self).connection,
            final(self).active_entry_id == toggled(old(self).active_entry_id, id),
            final(self).entries == old(self).entries,
            final(self).ordered_entries == old(self).ordered_entries,
            final(self).updated_entries == old(self).updated_entries,
    {
        if let Some(oid) = self.active_entry_id {
            if oid == id {
                self.active_entry_id = None;
            } else {
                self.active_entry_id = Some(id);
            }
        } else {
            self.active_entry_id = Some(id);
        }
    }

    /// The active entry.
    pub fn get_active_entry_ref(&self) -> (r: Option<&Entry>)
        ensures
            r is None <==> (self.active_entry_id is None || lookup(
                self.entries@,
                self.active_entry_id->0,
            ) is None),
            r matches Some(e) ==> lookup(self.entries@, self.active_entry_id->0) == Some(*e),
    {
        if let Some(active_entry_id) = self.active_entry_id {
            return self.get_entry_ref(&active_entry_id);
        }
        None
    }

    /// A mutable borrow of the active entry; what is written through it becomes
    /// that entry, and nothing else changes.
    pub fn get_active_entry_mut(&mut self) -> (r: Option<&mut Entry>)
        ensures
            final(self).connection == old(self).connection,
            r is None <==> (old(self).active_entry_id is None || lookup(
                old(self).entries@,
                old(self).active_entry_id->0,
            ) is None),
            r is None ==> *final(self) == *old(self),
            r matches Some(e) ==> ({
                let eid = old(self).active_entry_id->0;
                let i = first_id_index(old(self).entries@, eid);
                &&& *e == old(self).entries@[i].1
                &&& final(self).entries@ == old(self).entries@.update(i, (eid, *final(r->0)))
                &&& final(self).active_entry_id == old(self).active_entry_id
                &&& final(self).ordered_entries == old(self).ordered_entries
                &&& final(self).updated_entries == old(self).updated_entries
            }),
    {
        if let Some(active_entry_id) = self.active_entry_id {
            return self.get_entry_mut(&active_entry_id);
        }
        None
    }

    /// The section with id `sid` of the entry with id `eid`.
    pub fn get_section_ref(&self, eid: &i64, sid: &i64) -> (r: Option<&Section>)
        ensures
            r is None <==> section_of(self.entries@, *eid, *sid) is None,
            r matches Some(x) ==> section_of(self.entries@, *eid, *sid) == Some(*x),
    {
        if let Some(entry) = self.get_entry_ref(eid) {
            match find_first_id(&entry.sections, *sid) {
                Some(j) => Some(&entry.sections[j].1),
                None => None,
            }
        } else {
            None
        }
    }

    /// A mutable borrow of the section with id `sid` of the entry with id
    /// `eid`; what is written through it becomes that section, and nothing
    /// else changes.
    pub fn get_section_mut(&mut self, eid: &i64, sid: &i64) -> (r: Option<&mut Section>)
        ensures
            final(self).connection == old(self).connection,
            r is None <==> section_of(old(self).entries@, *eid, *sid) is None,
            r is None ==> *final(self) == *old(self),
            r matches Some(x) ==> ({
                let i = first_id_index(old(self).entries@, *eid);
                let e = old(self).entries@[i].1;
                let j = first_id_index(e.sections@, *sid);
                let fe = final(self).entries@[i].1;
                &&& *x == e.sections@[j].1
                &&& final(self).entries@.len() == old(self).entries@.len()
                &&& forall|k: int|
                    0 <= k < old(self).entries@.len() && k != i ==> #[trigger] final(self).entries@[k]
                        == old(self).entries@[k]
                &&& final(self).entries@[i].0 == *eid
                &&& fe.entry_name == e.entry_name
                &&& fe.layout == e.layout
                &&& fe.sections@ == e.sections@.update(j, (*sid, *final(r->0)))
                &&& final(self).active_entry_id == old(self).active_entry_id
                &&& final(self).ordered_entries == old(self).ordered_entries
                &&& final(self).updated_entries == old(self).updated_entries
            }),
    {
        match find_first_id(&self.entries, *eid) {
            Some(i) => {
                match find_first_id(&self.entries[i].1.sections, *sid) {
                    Some(j) => Some(&mut self.entries[i].1.sections[j].1),
                    None => None,
                }
            },
            None => None,
        }
    }

    /// The number of sections of the entry with id `eid`; 0 when there is no such entry.
    pub fn get_num_sections(&self, eid: &i64) -> (r: usize)
        ensures
            r == match lookup(self.entries@, *eid) {
                Some(e) => e.sections@.len(),
                None => 0,
            },
    {
        if let Some(entry) = self.get_entry_ref(eid) {
            entry.sections.len()
        } else {
            0
        }
    }

    /// The sections, each with its id, of the entry with id `eid`.
    pub fn get_sections_ref(&self, eid: &i64) -> (r: &Vec<(i64, Section)>)
        requires
            lookup(self.entries@, *eid) is Some,
        ensures
            *r == lookup(self.entries@, *eid)->0.sections,
    {
        let entry = self.get_entry_ref(eid);
        &entry.unwrap().sections
    }

    /// The ids of the sections of the entry with id `eid`, in order.
    pub fn get_sections_sid(&self, eid: &i64) -> (r: Vec<i64>)
        requires
            lookup(self.entries@, *eid) is Some,
        ensures
            r@ == lookup(self.entries@, *eid)->0.sections@.map_values(|p: (i64, Section)| p.0),
    {
        let sections = self.get_sections_ref(eid);
        let mut r: Vec<i64> = Vec::new();
        let mut i: usize = 0;
        while i < sections.len()
            invariant
                0 <= i <= sections@.len(),
                r@ =~= sections@.take(i as int).map_values(|p: (i64, Section)| p.0),
            decreases sections@.len() - i,
        {
            r.push(sections[i].0);
            i = i + 1;
            assert(r@ =~= sections@.take(i as int).map_values(|p: (i64, Section)| p.0));
        }
        assert(sections@.take(i as int) =~= sections@);
        r
    }

    /// Rebuilds the listing order: the ids and names of all entries, sorted by
    /// name, entries of equal names in the order of `entries`.
    pub fn reconstruct_entry_order(&mut self)
        ensures
            final(self).connection == old(self).connection,
            is_stable_sort_of(
                order_keys(final(self).ordered_entries@),
                entry_keys(old(self).entries@),
                name_of(),
                chars_order(),
            ),
            final(self).entries == old(self).entries,
            final(self).active_entry_id == old(self).active_entry_id,
            final(self).updated_entries == old(self).updated_entries,
    {
        broadcast use vstd::seq_lib::group_seq_properties;

        let mut out: Vec<(i64, String)> = Vec::new();
        let mut names: Vec<Vec<char>> = Vec::new();
        let n = self.entries.len();
        let ghost keys = entry_keys(self.entries@);
        proof {
            lemma_chars_order_strict_total();
            assert(keys.take(0) =~= Seq::<(i64, Seq<char>)>::empty());
            assert(order_keys(out@) =~= keys.take(0));
        }
        let mut i: usize = 0;
        while i < n
            invariant
                n == self.entries@.len(),
                keys == entry_keys(self.entries@),
                0 <= i <= n,
                names@.len() == out@.len(),
                forall|j: int| 0 <= j < out@.len() ==> (#[trigger] names@[j])@ == out@[j].1@,
                strict_total_order(chars_order()),
                sorted_by_key(order_keys(out@), name_of(), chars_order()),
                forall|k: Seq<char>| #[trigger]
                    with_key(order_keys(out@), name_of(), k) == with_key(
                        keys.take(i as int),
                        name_of(),
                        k,
                    ),
            decreases n - i,
        {
            let id = self.entries[i].0;
            let name = self.entries[i].1.entry_name.clone();
            let x = chars_of(name.as_str());
            let mut pos: usize = 0;
            while pos < out.len() && !chars_less(&x, &names[pos])
                invariant
                    0 <= pos <= out@.len(),
                    names@.len() == out@.len(),
                    forall|j: int| 0 <= j < out@.len() ==> (#[trigger] names@[j])@ == out@[j].1@,
                    forall|j: int| 0 <= j < pos ==> !chars_lt(x@, #[trigger] out@[j].1@),
                decreases out@.len() - pos,
            {
                pos = pos + 1;
            }
            let ghost item = (id, name@);
            proof {
                assert(keys[i as int] == item);
                assert forall|j: int| 0 <= j < pos implies !chars_order()(
                    name_of()(item),
                    name_of()(#[trigger] order_keys(out@)[j]),
                ) by {
                    assert(order_keys(out@)[j] == (out@[j].0, out@[j].1@));
                }
                lemma_sorted_insert(order_keys(out@), pos as int, item, name_of(), chars_order());
                assert(keys.take(i + 1) =~= keys.take(i as int).push(item));
                assert forall|k: Seq<char>| #[trigger]
                    with_key(order_keys(out@).insert(pos as int, item), name_of(), k) == with_key(
                        keys.take(i + 1),
                        name_of(),
                        k,
                    ) by {
                    keys.take(i as int).lemma_filter_push(item, has_key(name_of(), k));
                }
            }
            let ghost before = out@;
            out.insert(pos, (id, name));
            names.insert(pos, x);
            proof {
                assert(order_keys(out@) =~= order_keys(before).insert(pos as int, item));
            }
            i = i + 1;
        }
        proof {
            assert(keys.take(n as int) =~= keys);
        }
        self.ordered_entries = out;
    }

    /// Sorts the sections of the entry with id `eid` by position, keeping the
    /// order of sections that share a position; nothing else changes.
    pub fn sort_sections_by_position(&mut self, eid: &i64)
        ensures
            final(self).connection == old(self).connection,
            lookup(old(self).entries@, *eid) is None ==> *final(self) == *old(self),
            lookup(old(self).entries@, *eid) is Some ==> ({
                let i = first_id_index(old(self).entries@, *eid);
                let e = old(self).entries@[i].1;
                let fe = final(self).entries@[i].1;
                &&& final(self).entries@.len() == old(self).entries@.len()
                &&& forall|k: int|
                    0 <= k < old(self).entries@.len() && k != i ==> #[trigger] final(self).entries@[k]
                        == old(self).entries@[k]
                &&& final(self).entries@[i].0 == *eid
                &&& fe.entry_name == e.entry_name
                &&& fe.layout == e.layout
                &&& is_stable_sort_of(fe.sections@, e.sections@, position_of(), int_order())
            }),
            final(self).active_entry_id == old(self).active_entry_id,
            final(self).ordered_entries == old(self).ordered_entries,
            final(self).updated_entries == old(self).updated_entries,
    {
        if let Some(i) = find_first_id(&self.entries, *eid) {
            let entry = &mut self.entries[i].1;
            let mut sections: Vec<(i64, Section)> = Vec::new();
            std::mem::swap(&mut sections, &mut entry.sections);
            entry.sections = sort_by_position(sections);
        }
    }

    /// The largest position among the sections of the entry with id `eid`, and
    /// at least 0.
    pub fn get_max_position_section(&self, eid: &i64) -> (r: i64)
        requires
            lookup(self.entries@, *eid) is Some,
        ensures
            r == max_position(lookup(self.entries@, *eid)->0.sections@),
    {
        let sections = self.get_sections_ref(eid);
        let mut max: i64 = 0;
        let mut i: usize = 0;
        while i < sections.len()
            invariant
                0 <= i <= sections@.len(),
                max == max_position(sections@.take(i as int)),
            decreases sections@.len() - i,
        {
            proof {
                assert(sections@.take(i + 1).drop_last() =~= sections@.take(i as int));
            }
            if sections[i].1.position > max {
                max = sections[i].1.position;
            }
            i = i + 1;
        }
        proof {
            assert(sections@.take(i as int) =~= sections@);
        }
        max
    }

    /// Creates the local state of a glyph from its database connection and its
    /// entries: no entry is active or changed, and all entries are listed by name.
    pub fn new(c: rusqlite::Connection, entries: Vec<(i64, Entry)>) -> (r: Self)
        ensures
            r.entries == entries,
            r.connection == c,
            r.active_entry_id is None,
            r.updated_entries@ == Set::<i64>::empty(),
            is_stable_sort_of(
                order_keys(r.ordered_entries@),
                entry_keys(entries@),
                name_of(),
                chars_order(),
            ),
    {
        let mut me = Self {
            entries,
            connection: c,
            active_entry_id: None,
            ordered_entries: Vec::new(),
            updated_entries: HashSet::new(),
        };
        me.reconstruct_entry_order();
        me
    }

    /// Lists the entries whose name `predicate` accepts, in the order of
    /// `entries`; the list is not sorted.
    pub fn filter_entry_order_by<F: Fn(&str) -> bool>(&mut self, predicate: F)
        requires
            forall|s: &str| call_requires(predicate, (s,)),
        ensures
            exists|keep: Seq<bool>|
                {
                    &&& keep.len() == old(self).entries@.len()
                    &&& forall|i: int|
                        0 <= i < keep.len() ==> answers(
                            predicate,
                            old(self).entries@[i].1.entry_name@,
                            #[trigger] keep[i],
                        )
                    &&& order_keys(final(self).ordered_entries@) == select(
                        entry_keys(old(self).entries@),
                        keep,
                    )
                },
            final(self).entries == old(self).entries,
            final(self).active_entry_id == old(self).active_entry_id,
            final(self).updated_entries == old(self).updated_entries,
    {
        let mut out: Vec<(i64, String)> = Vec::new();
        let ghost mut keep: Seq<bool> = Seq::empty();
        let ghost keys = entry_keys(self.entries@);
        let mut i: usize = 0;
        proof {
            assert(keys.take(0) =~= Seq::<(i64, Seq<char>)>::empty());
            assert(order_keys(out@) =~= select(keys.take(0), keep));
        }
        while i < self.entries.len()
            invariant
                0 <= i <= self.entries@.len(),
                keys == entry_keys(self.entries@),
                keep.len() == i,
                forall|s: &str| call_requires(predicate, (s,)),
                forall|j: int|
                    0 <= j < i ==> answers(predicate, self.entries@[j].1.entry_name@, #[trigger] keep[j]),
                order_keys(out@) == select(keys.take(i as int), keep),
            decreases self.entries@.len() - i,
        {
            let name: &str = self.entries[i].1.entry_name.as_str();
            let b = predicate(name);
            let ghost before = out@;
            if b {
                out.push((self.entries[i].0, self.entries[i].1.entry_name.clone()));
            }
            proof {
                assert(answers(predicate, self.entries@[i as int].1.entry_name@, b));
                let nk = keep.push(b);
                assert(keys.take(i + 1).drop_last() =~= keys.take(i as int));
                assert(nk.drop_last() =~= keep);
                if b {
                    assert(order_keys(out@) =~= order_keys(before).push(keys[i as int]));
                } else {
                    assert(order_keys(out@) =~= order_keys(before));
                }
                keep = nk;
            }
            i = i + 1;
        }
        proof {
            assert(keys.take(i as int) =~= keys);
        }
        self.ordered_entries = out;
    }

    /// The name an entry named `name` gets: `name` itself when no entry has
    /// it, else `name (n)` for the least `n >= 1` that no entry has. All
    /// entries count, also those a filter keeps out of the listing.
    pub fn corrected_entry_name(&self, name: &str) -> (r: String)
        requires
            self.entries@.len() < usize::MAX,
        ensures
            is_auto_incremented(name@, entry_names(self.entries@), r@),
    {
        let mut names: Vec<&str> = Vec::new();
        let mut i: usize = 0;
        while i < self.entries.len()
            invariant
                0 <= i <= self.entries@.len(),
                str_views(names@) =~= entry_names(self.entries@.take(i as int)),
            decreases self.entries@.len() - i,
        {
            let n: &str = self.entries[i].1.entry_name.as_str();
            let ghost before = names@;
            names.push(n);
            proof {
                assert(str_views(names@) =~= str_views(before).push(n@));
                assert(entry_names(self.entries@.take(i + 1)) =~= entry_names(
                    self.entries@.take(i as int),
                ).push(self.entries@[i as int].1.entry_name@));
            }
            i = i + 1;
        }
        assert(self.entries@.take(i as int) =~= self.entries@);
        auto_increment_name(name, names.as_slice())
    }

    /// Adds the entry `entry` with id `eid` and lists all entries again by name.
    pub fn add_entry(&mut self, eid: i64, entry: Entry)
        ensures
            final(self).connection == old(self).connection,
            final(self).entries@ == old(self).entries@.push((eid, entry)),
            is_stable_sort_of(
                order_keys(final(self).ordered_entries@),
                entry_keys(final(self).entries@),
                name_of(),
                chars_order(),
            ),
            final(self).active_entry_id == old(self).active_entry_id,
            final(self).updated_entries == old(self).updated_entries,
    {
        self.entries.push((eid, entry));
        self.reconstruct_entry_order();
    }

    /// Gives the entry with id `eid` the name of `entry` and lists all entries
    /// again by name.
    pub fn rename_entry(&mut self, eid: &i64, entry: &Entry)
        requires
            lookup(old(self).entries@, *eid) is Some,
        ensures
            final(self).connection == old(self).connection,
            ({
                let i = first_id_index(old(self).entries@, *eid);
                let e = old(self).entries@[i].1;
                let fe = final(self).entries@[i].1;
                &&& final(self).entries@.len() == old(self).entries@.len()
                &&& forall|k: int|
                    0 <= k < old(self).entries@.len() && k != i ==> #[trigger] final(self).entries@[k]
                        == old(self).entries@[k]
                &&& final(self).entries@[i].0 == *eid
                &&& fe.entry_name@ == entry.entry_name@
                &&& fe.sections == e.sections
                &&& fe.layout == e.layout
            }),
            is_stable_sort_of(
                order_keys(final(self).ordered_entries@),
                entry_keys(final(self).entries@),
                name_of(),
                chars_order(),
            ),
            final(self).active_entry_id == old(self).active_entry_id,
            final(self).updated_entries == old(self).updated_entries,
    {
        let current_entry = self.get_entry_mut(eid);
        current_entry.unwrap().update_name(entry);
        self.reconstruct_entry_order();
    }

    /// Takes the active entry out of the local state, lists the others again
    /// by name and leaves no entry active; returns the id of the entry taken out.
    pub fn remove_active_entry(&mut self) -> (r: Result<i64, StateError>)
        ensures
            final(self).connection == old(self).connection,
            old(self).active_entry_id is None ==> r == Err::<i64, StateError>(
                StateError::NoActiveEntry,
            ) && *final(self) == *old(self),
            old(self).active_entry_id matches Some(id) && !has_id(old(self).entries@, id) ==> r
                == Err::<i64, StateError>(StateError::EntryNotFound) && *final(self) == *old(self),
            old(self).active_entry_id matches Some(id) && has_id(old(self).entries@, id) ==> ({
                let id = old(self).active_entry_id->0;
                &&& r == Ok::<i64, StateError>(id)
                &&& final(self).entries@ == old(self).entries@.remove(
                    first_id_index(old(self).entries@, id),
                )
                &&& final(self).active_entry_id is None
                &&& is_stable_sort_of(
                    order_keys(final(self).ordered_entries@),
                    entry_keys(final(self).entries@),
                    name_of(),
                    chars_order(),
                )
                &&& final(self).updated_entries == old(self).updated_entries
            }),
    {
        if let Some(id) = self.active_entry_id {
            match find_first_id(&self.entries, id) {
                Some(index) => {
                    self.entries.remove(index);
                    self.reconstruct_entry_order();
                    self.active_entry_id = None;
                    Ok(id)
                },
                None => Err(StateError::EntryNotFound),
            }
        } else {
            Err(StateError::NoActiveEntry)
        }
    }

    /// Appends the section `section` with id `sid` to the sections of the entry
    /// with id `eid`.
    pub fn push_section(&mut self, eid: &i64, sid: i64, section: Section)
        requires
            lookup(old(self).entries@, *eid) is Some,
        ensures
            final(self).connection == old(self).connection,
            ({
                let i = first_id_index(old(self).entries@, *eid);
                let e = old(self).entries@[i].1;
                let fe = final(self).entries@[i].1;
                &&& final(self).entries@.len() == old(self).entries@.len()
                &&& forall|k: int|
                    0 <= k < old(self).entries@.len() && k != i ==> #[trigger] final(self).entries@[k]
                        == old(self).entries@[k]
                &&& final(self).entries@[i].0 == *eid
                &&& fe.entry_name == e.entry_name
                &&& fe.layout == e.layout
                &&& fe.sections@ == e.sections@.push((sid, section))
            }),
            final(self).active_entry_id == old(self).active_entry_id,
            final(self).ordered_entries == old(self).ordered_entries,
            final(self).updated_entries == old(self).updated_entries,
    {
        let target_entry = self.get_entry_mut(eid).unwrap();
        target_entry.sections.push((sid, section));
    }

    /// Sets the title of the section with id `sid` of the entry with id `eid`.
    pub fn set_section_title(&mut self, eid: &i64, sid: &i64, title: String)
        requires
            section_of(old(self).entries@, *eid, *sid) is Some,
        ensures
            final(self).connection == old(self).connection,
            ({
                let i = first_id_index(old(self).entries@, *eid);
                let e = old(self).entries@[i].1;
                let j = first_id_index(e.sections@, *sid);
                let x = e.sections@[j].1;
                let fe = final(self).entries@[i].1;
                &&& final(self).entries@.len() == old(self).entries@.len()
                &&& forall|k: int|
                    0 <= k < old(self).entries@.len() && k != i ==> #[trigger] final(self).entries@[k]
                        == old(self).entries@[k]
                &&& final(self).entries@[i].0 == *eid
                &&& fe.entry_name == e.entry_name
                &&& fe.layout == e.layout
                &&& fe.sections@ == e.sections@.update(j, (*sid, Section { title, ..x }))
            }),
            final(self).active_entry_id == old(self).active_entry_id,
            final(self).ordered_entries == old(self).ordered_entries,
            final(self).updated_entries == old(self).updated_entries,
    {
        let current_section = self.get_section_mut(eid, sid).unwrap();
        current_section.title = title;
    }

    /// The section to add to the active entry: the given title and content,
    /// placed one after the largest position of its sections; with the id of
    /// the active entry.
    pub fn new_section_for_active_entry(&self, title: &str, content: &str) -> (r: Result<
        (i64, Section),
        StateError,
    >)
        requires
            self.active_entry_id matches Some(a) ==> lookup(self.entries@, a) is Some
                && max_position(lookup(self.entries@, a)->0.sections@) < i64::MAX,
        ensures
            self.active_entry_id is None ==> r == Err::<(i64, Section), StateError>(
                StateError::NoActiveEntry,
            ),
            self.active_entry_id matches Some(a) ==> r matches Ok(p) && p.0 == a && p.1.title@
                == title@ && p.1.content@ == content@ && p.1.position == max_position(
                lookup(self.entries@, a)->0.sections@,
            ) + 1,
    {
        if let Some(eid) = self.active_entry_id {
            let position = self.get_max_position_section(&eid) + 1;
            Ok((eid, Section::new(title, content, position)))
        } else {
            Err(StateError::NoActiveEntry)
        }
    }

    /// Replaces the section with id `sid` of the entry with id `eid`: the last
    /// section with that id is taken out and `section` is appended with that id.
    pub fn replace_section(&mut self, eid: &i64, sid: &i64, section: Section) -> (r: Result<
        (),
        StateError,
    >)
        requires
            lookup(old(self).entries@, *eid) is Some,
        ensures
            final(self).connection == old(self).connection,
            !has_id(lookup(old(self).entries@, *eid)->0.sections@, *sid) ==> r == Err::<
                (),
                StateError,
            >(StateError::SectionNotFound) && *final(self) == *old(self),
            has_id(lookup(old(self).entries@, *eid)->0.sections@, *sid) ==> ({
                let i = first_id_index(old(self).entries@, *eid);
                let e = old(self).entries@[i].1;
                let fe = final(self).entries@[i].1;
                &&& r is Ok
                &&& final(self).entries@.len() == old(self).entries@.len()
                &&& forall|k: int|
                    0 <= k < old(self).entries@.len() && k != i ==> #[trigger] final(self).entries@[k]
                        == old(self).entries@[k]
                &&& final(self).entries@[i].0 == *eid
                &&& fe.entry_name == e.entry_name
                &&& fe.layout == e.layout
                &&& fe.sections@ == e.sections@.remove(last_id_index(e.sections@, *sid)).push(
                    (*sid, section),
                )
                &&& final(self).active_entry_id == old(self).active_entry_id
                &&& final(self).ordered_entries == old(self).ordered_entries
                &&& final(self).updated_entries == old(self).updated_entries
            }),
    {
        let i = find_first_id(&self.entries, *eid).unwrap();
        match find_last_id(&self.entries[i].1.sections, *sid) {
            Some(j) => {
                let sections = &mut self.entries[i].1.sections;
                sections.remove(j);
                sections.push((*sid, section));
                Ok(())
            },
            None => Err(StateError::SectionNotFound),
        }
    }

    /// Takes the last section with id `sid` out of the entry with id `eid`.
    pub fn remove_section(&mut self, eid: &i64, sid: &i64) -> (r: Result<(), StateError>)
        ensures
            final(self).connection == old(self).connection,
            lookup(old(self).entries@, *eid) is None ==> r == Err::<(), StateError>(
                StateError::EntryNotFound,
            ) && *final(self) == *old(self),
            lookup(old(self).entries@, *eid) is Some && !has_id(
                lookup(old(self).entries@, *eid)->0.sections@,
                *sid,
            ) ==> r == Err::<(), StateError>(StateError::SectionNotFound) && *final(self) == *old(
                self,
            ),
            lookup(old(self).entries@, *eid) is Some && has_id(
                lookup(old(self).entries@, *eid)->0.sections@,
                *sid,
            ) ==> ({
                let i = first_id_index(old(self).entries@, *eid);
                let e = old(self).entries@[i].1;
                let fe = final(self).entries@[i].1;
                &&& r is Ok
                &&& final(self).entries@.len() == old(self).entries@.len()
                &&& forall|k: int|
                    0 <= k < old(self).entries@.len() && k != i ==> #[trigger] final(self).entries@[k]
                        == old(self).entries@[k]
                &&& final(self).entries@[i].0 == *eid
                &&& fe.entry_name == e.entry_name
                &&& fe.layout == e.layout
                &&& fe.sections@ == e.sections@.remove(last_id_index(e.sections@, *sid))
                &&& final(self).active_entry_id == old(self).active_entry_id
                &&& final(self).ordered_entries == old(self).ordered_entries
                &&& final(self).updated_entries == old(self).updated_entries
            }),
    {
        match find_first_id(&self.entries, *eid) {
            Some(i) => {
                match find_last_id(&self.entries[i].1.sections, *sid) {
                    Some(j) => {
                        self.entries[i].1.sections.remove(j);
                        Ok(())
                    },
                    None => Err(StateError::SectionNotFound),
                }
            },
            None => Err(StateError::EntryNotFound),
        }
    }

    /// Sets the layout of the entry with id `eid`.
    pub fn set_entry_layout(&mut self, eid: &i64, layout: Layout)
        requires
            lookup(old(self).entries@, *eid) is Some,
        ensures
            final(self).connection == old(self).connection,
            ({
                let i = first_id_index(old(self).entries@, *eid);
                let e = old(self).entries@[i].1;
                let fe = final(self).entries@[i].1;
                &&& final(self).entries@.len() == old(self).entries@.len()
                &&& forall|k: int|
                    0 <= k < old(self).entries@.len() && k != i ==> #[trigger] final(self).entries@[k]
                        == old(self).entries@[k]
                &&& final(self).entries@[i].0 == *eid
                &&& fe.entry_name == e.entry_name
                &&& fe.sections == e.sections
                &&& fe.layout == layout
            }),
            final(self).active_entry_id == old(self).active_entry_id,
            final(self).ordered_entries == old(self).ordered_entries,
            final(self).updated_entries == old(self).updated_entries,
    {
        self.get_entry_mut(eid).unwrap().layout = layout;
    }

    /// Records whether the entry with id `eid` has changes not yet saved.
    pub fn set_entry_unsaved_state(&mut self, eid: i64, is_changed: bool)
        ensures
            final(self).connection == old(self).connection,
            final(self).updated_entries@ == if is_changed {
                old(self).updated_entries@.insert(eid)
            } else {
                old(self).updated_entries@.remove(eid)
            },
            final(self).entries == old(self).entries,
            final(self).active_entry_id == old(self).active_entry_id,
            final(self).ordered_entries == old(self).ordered_entries,
    {
        broadcast use vstd::std_specs::hash::group_hash_axioms;

        if is_changed {
            self.updated_entries.insert(eid);
        } else {
            self.updated_entries.remove(&eid);
        }
    }
}

} // verus!
