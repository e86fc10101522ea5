use vstd::prelude::*;

use crate::app::dialog::confirm_dialog::DialogAction;
use crate::app::input::{KeyCode, KeyEvent, KeyEventKind};
use crate::app::widget::text_field::{TextEdit, TextField, apply_text_edit, edit_allowed, field_outcome, text_edit_of};
use crate::models::entry::Entry;
use crate::services::{LocalEntryState, answers};
use crate::utils::{chars_of, cycle_offset, spec_cycle_offset};

verus! {

/// `q` occurs in `s` as a run of consecutive characters.
pub open spec fn has_substring(s: Seq<char>, q: Seq<char>) -> bool {
    exists|k: int| 0 <= k && k + q.len() <= s.len() && #[trigger] s.subrange(k, k + q.len()) == q
}

/// Whether `q` occurs in `s` as a run of consecutive characters.
pub fn contains_chars(s: &Vec<char>, q: &Vec<char>) -> (r: bool)
    ensures
        r == has_substring(s@, q@),
{
    if q.len() > s.len() {
        return false;
    }
    let last = s.len() - q.len();
    let mut k: usize = 0;
    loop
        invariant
            last == s@.len() - q@.len(),
            q@.len() <= s@.len(),
            s@.len() <= usize::MAX,
            0 <= k <= last,
            forall|j: int| 0 <= j < k ==> #[trigger] s@.subrange(j, j + q@.len()) != q@,
        ensures
            forall|j: int| 0 <= j <= last ==> #[trigger] s@.subrange(j, j + q@.len()) != q@,
        decreases last - k,
    {
        let mut i: usize = 0;
        while i < q.len() && s[k + i] == q[i]
            invariant
                0 <= i <= q@.len(),
                k + q@.len() <= s@.len(),
                s@.len() <= usize::MAX,
                forall|j: int| 0 <= j < i ==> s@[k + j] == q@[j],
            decreases q@.len() - i,
        {
            i = i + 1;
        }
        if i == q.len() {
            assert(s@.subrange(k as int, k + q@.len()) =~= q@);
            return true;
        }
        assert(s@.subrange(k as int, k + q@.len())[i as int] != q@[i as int]);
        if k == last {
            break;
        }
        k = k + 1;
    }
    false
}

/// A dialog to find an entry by a part of its name: the entries with
/// whether their name holds the text searched, and the hovered one among
/// those that do.
pub struct SearchEntryDialogState {
    pub is_focused: bool,
    pub hovered_index: usize,
    /// ((id, name), whether the name holds the text searched)
    pub entries_name: Vec<((i64, String), bool)>,
}

pub struct SearchEntryDialog {
    pub state: SearchEntryDialogState,
    pub text_field: TextField,
}

/// The number of entries whose name holds the text searched.
pub open spec fn available_count(s: Seq<((i64, String), bool)>) -> nat
    decreases s.len(),
{
    if s.len() == 0 {
        0
    } else {
        available_count(s.drop_last()) + if s.last().1 {
            1nat
        } else {
            0nat
        }
    }
}

/// The ids of the entries whose name holds the text searched, in order.
pub open spec fn available_ids(s: Seq<((i64, String), bool)>) -> Seq<i64>
    decreases s.len(),
{
    if s.len() == 0 {
        Seq::empty()
    } else {
        available_ids(s.drop_last()) + if s.last().1 {
            seq![s.last().0.0]
        } else {
            Seq::empty()
        }
    }
}

/// The hover after the matches changed, among `c` matching entries: the
/// hover held to at most `c`, then moved one back (not before 0).
pub open spec fn hover_within(h: usize, c: nat) -> usize {
    let k = if h < c {
        h as int
    } else {
        c as int
    };
    if k == 0 {
        0
    } else {
        (k - 1) as usize
    }
}

proof fn lemma_available_ids_len(s: Seq<((i64, String), bool)>)
    ensures
        available_ids(s).len() == available_count(s),
    decreases s.len(),
{
    if s.len() > 0 {
        lemma_available_ids_len(s.drop_last());
    }
}

impl SearchEntryDialog {
    /// A dialog with the focus listing every entry of `entries`, all of them
    /// matching, the first one hovered, and an empty search field.
    pub fn new(entries: &LocalEntryState) -> (r: Self)
        ensures
            r.state.is_focused,
            r.state.hovered_index == 0,
            r.state.entries_name@.len() == entries.entries@.len(),
            forall|i: int|
                0 <= i < entries.entries@.len() ==> {
                    let x = #[trigger] r.state.entries_name@[i];
                    &&& x.0.0 == entries.entries@[i].0
                    &&& x.0.1@ == entries.entries@[i].1.entry_name@
                    &&& x.1
                },
            r.text_field.state.chars@.len() == 0,
            r.text_field.state.label@.len() == 0,
            r.text_field.state.cursor_index == 0,
            !r.text_field.state.is_focused,
            r.text_field.state.is_valid,
    {
        let mut names: Vec<((i64, String), bool)> = Vec::new();
        let mut i: usize = 0;
        while i < entries.entries.len()
            invariant
                0 <= i <= entries.entries@.len(),
                names@.len() == i,
                forall|j: int|
                    0 <= j < i ==> {
                        let x = #[trigger] names@[j];
                        &&& x.0.0 == entries.entries@[j].0
                        &&& x.0.1@ == entries.entries@[j].1.entry_name@
                        &&& x.1
                    },
            decreases entries.entries@.len() - i,
        {
            let id = entries.entries[i].0;
            let name = entries.entries[i].1.entry_name.clone();
            names.push(((id, name), true));
            i = i + 1;
        }
        let field = TextField::new("", "");
        proof {
            reveal_strlit("");
        }
        SearchEntryDialog {
            state: SearchEntryDialogState { is_focused: true, hovered_index: 0, entries_name: names },
            text_field: field,
        }
    }

    /// Marks each entry by whether its name holds `query`, and brings the
    /// hover back within the matching entries.
    pub fn update_availability(&mut self, query: &str)
        ensures
            final(self).state.entries_name@.len() == old(self).state.entries_name@.len(),
            forall|i: int|
                0 <= i < old(self).state.entries_name@.len() ==> {
                    let x = #[trigger] final(self).state.entries_name@[i];
                    &&& x.0 == old(self).state.entries_name@[i].0
                    &&& x.1 == has_substring(x.0.1@, query@)
                },
            final(self).state.hovered_index == hover_within(
                old(self).state.hovered_index,
                available_count(final(self).state.entries_name@),
            ),
            final(self).state.is_focused == old(self).state.is_focused,
            final(self).text_field == old(self).text_field,
    {
        let q = chars_of(query);
        let mut count: usize = 0;
        let mut i: usize = 0;
        let n = self.state.entries_name.len();
        let ghost before = self.state.entries_name@;
        while i < n
            invariant
                n == self.state.entries_name@.len(),
                n == before.len(),
                0 <= i <= n,
                q@ == query@,
                count == available_count(self.state.entries_name@.take(i as int)),
                count <= i,
                self.text_field == old(self).text_field,
                self.state.is_focused == old(self).state.is_focused,
                self.state.hovered_index == old(self).state.hovered_index,
                forall|j: int|
                    0 <= j < n ==> (#[trigger] self.state.entries_name@[j]).0 == before[j].0,
                forall|j: int|
                    0 <= j < i ==> (#[trigger] self.state.entries_name@[j]).1 == has_substring(
                        self.state.entries_name@[j].0.1@,
                        query@,
                    ),
            decreases n - i,
        {
            let name = chars_of(self.state.entries_name[i].0.1.as_str());
            let found = contains_chars(&name, &q);
            let ghost prev = self.state.entries_name@;
            self.state.entries_name[i].1 = found;
            proof {
                assert(self.state.entries_name@.take(i as int) =~= prev.take(i as int));
                assert(self.state.entries_name@.take(i + 1).drop_last() =~= self.state.entries_name@.take(i as int));
            }
            if found {
                count = count + 1;
            }
            i = i + 1;
        }
        proof {
            assert(self.state.entries_name@.take(n as int) =~= self.state.entries_name@);
        }
        let h = if self.state.hovered_index < count {
            self.state.hovered_index
        } else {
            count
        };
        self.state.hovered_index = h.saturating_sub(1);
    }

    /// The ids of the entries whose name holds the text searched, in order.
    pub fn available_entry_ids(&self) -> (r: Vec<i64>)
        ensures
            r@ == available_ids(self.state.entries_name@),
    {
        let mut ids: Vec<i64> = Vec::new();
        let mut i: usize = 0;
        while i < self.state.entries_name.len()
            invariant
                0 <= i <= self.state.entries_name@.len(),
                ids@ == available_ids(self.state.entries_name@.take(i as int)),
            decreases self.state.entries_name@.len() - i,
        {
            proof {
                assert(self.state.entries_name@.take(i + 1).drop_last() =~= self.state.entries_name@.take(
                    i as int,
                ));
            }
            if self.state.entries_name[i].1 {
                ids.push(self.state.entries_name[i].0.0);
            }
            i = i + 1;
        }
        proof {
            assert(self.state.entries_name@.take(i as int) =~= self.state.entries_name@);
        }
        ids
    }

    /// Acts on a key: Esc closes; with Control held, `n` and `p` move the
    /// hover among the matching entries and other keys do nothing; Enter
    /// makes the hovered matching entry the active one and closes; other keys
    /// edit the searched text, after which the matches are found again.
    pub fn handle<F: Fn(&str) -> bool>(&mut self, entries: &mut LocalEntryState, key: &KeyEvent, validate: &F) -> (r:
        DialogAction)
        requires
            forall|s: &str| call_requires(*validate, (s,)),
            key.is_press() && key.code == KeyCode::Enter && !key.control && old(self).state.entries_name@.len() > 0
                ==> old(self).state.hovered_index < available_count(old(self).state.entries_name@),
            old(self).text_field.state.is_focused && key.is_press() ==> match text_edit_of(*key) {
                Some(e) => edit_allowed(old(self).text_field.state.chars@, old(self).text_field.state.cursor_index, e),
                None => true,
            },
        ensures
            final(entries).connection == old(entries).connection,
            ({
                let s = old(self).state;
                let n = available_count(s.entries_name@);
                if !key.is_press() || key.code == KeyCode::Esc {
                    &&& final(self).state == s
                    &&& final(self).text_field == old(self).text_field
                    &&& *final(entries) == *old(entries)
                    &&& r == if key.is_press() {
                        DialogAction::Close
                    } else {
                        DialogAction::Nothing
                    }
                } else if key.control {
                    &&& final(self).state == (SearchEntryDialogState {
                        hovered_index: if key.code == KeyCode::Char('n') {
                            spec_cycle_offset(s.hovered_index as u16, 1i16, n as u16) as usize
                        } else if key.code == KeyCode::Char('p') {
                            spec_cycle_offset(s.hovered_index as u16, -1i16, n as u16) as usize
                        } else {
                            s.hovered_index
                        },
                        ..s
                    })
                    &&& final(self).text_field == old(self).text_field
                    &&& *final(entries) == *old(entries)
                    &&& r == DialogAction::Nothing
                } else if key.code == KeyCode::Enter {
                    &&& final(self).state == s
                    &&& final(self).text_field == old(self).text_field
                    &&& final(entries).entries == old(entries).entries
                    &&& final(entries).ordered_entries == old(entries).ordered_entries
                    &&& final(entries).updated_entries == old(entries).updated_entries
                    &&& if s.entries_name@.len() == 0 {
                        final(entries).active_entry_id == old(entries).active_entry_id && r
                            == DialogAction::Nothing
                    } else {
                        final(entries).active_entry_id == Some(
                            available_ids(s.entries_name@)[s.hovered_index as int],
                        ) && r == DialogAction::Close
                    }
                } else {
                    let (f, t, k, x) = field_outcome(
                        old(self).text_field.state.is_focused,
                        old(self).text_field.state.chars@,
                        old(self).text_field.state.cursor_index,
                        *key,
                        |c: Seq<char>, i: usize, e: TextEdit| apply_text_edit(c, i, e),
                    );
                    &&& final(self).text_field.state.is_focused == f
                    &&& final(self).text_field.state.chars@ == t
                    &&& final(self).text_field.state.cursor_index == k
                    &&& final(self).text_field.state.label == old(self).text_field.state.label
                    &&& old(self).text_field.state.is_focused ==> answers(
                        *validate,
                        final(self).text_field.state.chars@,
                        final(self).text_field.state.is_valid,
                    )
                    &&& !old(self).text_field.state.is_focused ==> final(self).text_field.state.is_valid
                        == old(self).text_field.state.is_valid
                    &&& final(self).state.is_focused == s.is_focused
                    &&& final(self).state.hovered_index == hover_within(
                        s.hovered_index,
                        available_count(final(self).state.entries_name@),
                    )
                    &&& final(self).state.entries_name@.len() == s.entries_name@.len()
                    &&& forall|i: int|
                        0 <= i < s.entries_name@.len() ==> {
                            let y = #[trigger] final(self).state.entries_name@[i];
                            &&& y.0 == s.entries_name@[i].0
                            &&& y.1 == has_substring(y.0.1@, t)
                        }
                    &&& *final(entries) == *old(entries)
                    &&& r == DialogAction::Nothing
                }
            }),
    {
        if key.kind != KeyEventKind::Press {
            return DialogAction::Nothing;
        }
        if key.code == KeyCode::Esc {
            return DialogAction::Close;
        }
        if key.control {
            let ids = self.available_entry_ids();
            proof {
                lemma_available_ids_len(self.state.entries_name@);
            }
            let count = ids.len();
            if key.code == KeyCode::Char('n') {
                self.state.hovered_index = cycle_offset(self.state.hovered_index as u16, 1, count as u16) as usize;
            } else if key.code == KeyCode::Char('p') {
                self.state.hovered_index = cycle_offset(self.state.hovered_index as u16, -1, count as u16) as usize;
            }
            return DialogAction::Nothing;
        }
        if key.code == KeyCode::Enter {
            if self.state.entries_name.len() == 0 {
                return DialogAction::Nothing;
            }
            let ids = self.available_entry_ids();
            proof {
                lemma_available_ids_len(self.state.entries_name@);
            }
            entries.active_entry_id = Some(ids[self.state.hovered_index]);
            return DialogAction::Close;
        }
        self.text_field.handle(key, validate);
        let text = self.text_field.text();
        self.update_availability(text.as_str());
        DialogAction::Nothing
    }

}

} // verus!
