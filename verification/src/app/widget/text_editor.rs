use vstd::prelude::*;

use crate::app::input::{KeyCode, KeyEvent, KeyEventKind};
use crate::utils::{chars_of, string_from_chars};

verus! {

/// The mode of a modal text editor.
#[derive(Clone, Copy, PartialEq, Eq, Structural, Debug)]
pub enum EditMode {
    Normal,
    Insert,
    Visual,
    VisualLine,
}

/// The state of a multi-line text editor: its lines, its cursor (a line and
/// a position in it), its mode and its selection anchor.
pub struct TextEditorState {
    pub is_focused: bool,
    pub label: String,
    pub mode: EditMode,
    pub lines: Vec<Vec<char>>,
    pub scroll_offset: usize,
    pub cursor_index: usize,
    pub cursor_line_index: usize,
    pub anchor: usize,
    pub anchor_line: usize,
    pub copy_buffer: Vec<Vec<char>>,
}

/// The lines joined with a newline between each two.
pub open spec fn join_lines(lines: Seq<Seq<char>>) -> Seq<char>
    decreases lines.len(),
{
    if lines.len() == 0 {
        Seq::empty()
    } else if lines.len() == 1 {
        lines[0]
    } else {
        join_lines(lines.drop_last()) + seq!['\n'] + lines.last()
    }
}

/// The lines written one after the other.
pub open spec fn concat_lines(lines: Seq<Seq<char>>) -> Seq<char>
    decreases lines.len(),
{
    if lines.len() == 0 {
        Seq::empty()
    } else {
        concat_lines(lines.drop_last()) + lines.last()
    }
}

/// The position of the first `d` in `s`, or -1.
pub open spec fn first_index_of(s: Seq<char>, d: char) -> int
    decreases s.len(),
{
    if s.len() == 0 {
        -1
    } else if s[0] == d {
        0
    } else {
        let k = first_index_of(s.drop_first(), d);
        if k < 0 {
            -1
        } else {
            k + 1
        }
    }
}

/// The position of the last `d` in `s`, or -1.
pub open spec fn last_index_of(s: Seq<char>, d: char) -> int
    decreases s.len(),
{
    if s.len() == 0 {
        -1
    } else if s.last() == d {
        s.len() - 1
    } else {
        last_index_of(s.drop_last(), d)
    }
}

proof fn lemma_first_index_of(s: Seq<char>, d: char, i: int)
    requires
        0 <= i <= s.len(),
        forall|j: int| 0 <= j < i ==> s[j] != d,
        i < s.len() ==> s[i] == d,
    ensures
        first_index_of(s, d) == if i < s.len() {
            i
        } else {
            -1
        },
    decreases s.len(),
{
    if s.len() > 0 && i > 0 {
        assert forall|j: int| 0 <= j < i - 1 implies s.drop_first()[j] != d by {
            assert(s.drop_first()[j] == s[j + 1]);
        }
        lemma_first_index_of(s.drop_first(), d, i - 1);
    }
}

proof fn lemma_last_index_of(s: Seq<char>, d: char, i: int)
    requires
        -1 <= i < s.len(),
        forall|j: int| i < j < s.len() ==> s[j] != d,
        i >= 0 ==> s[i] == d,
    ensures
        last_index_of(s, d) == i,
    decreases s.len(),
{
    if s.len() > 0 && i < s.len() - 1 {
        lemma_last_index_of(s.drop_last(), d, i);
    }
}

/// `lines` with `c` put at position `p` of line `li`.
pub open spec fn insert_at(lines: Seq<Seq<char>>, li: int, p: int, c: char) -> Seq<Seq<char>> {
    lines.update(li, lines[li].insert(p, c))
}

/// `lines` with the character at position `p` of line `li` taken out.
pub open spec fn remove_at(lines: Seq<Seq<char>>, li: int, p: int) -> Seq<Seq<char>> {
    lines.update(li, lines[li].remove(p))
}

/// `lines` with line `li` cut in two at position `p`.
pub open spec fn split_line(lines: Seq<Seq<char>>, li: int, p: int) -> Seq<Seq<char>> {
    lines.take(li) + seq![lines[li].take(p), lines[li].skip(p)] + lines.skip(li + 1)
}

/// `lines` with line `li + 1` appended to line `li`.
pub open spec fn merge_next(lines: Seq<Seq<char>>, li: int) -> Seq<Seq<char>> {
    lines.take(li) + seq![lines[li] + lines[li + 1]] + lines.skip(li + 2)
}

/// The line the cursor moves to one line down, within `len` lines.
pub open spec fn line_below(line: usize, len: nat) -> usize {
    let up = if line == usize::MAX {
        usize::MAX as int
    } else {
        line + 1
    };
    let top = if len == 0 {
        0
    } else {
        len - 1
    };
    if up > top {
        top as usize
    } else {
        up as usize
    }
}

/// The line the cursor moves to one line up, within `len` lines.
pub open spec fn line_above(line: usize, len: nat) -> usize {
    let down = if line == 0 {
        0
    } else {
        line - 1
    };
    let top = if len == 0 {
        0
    } else {
        len - 1
    };
    if down > top {
        top as usize
    } else {
        down as usize
    }
}

/// The value of an editor: its lines, cursor, mode and the rest, as
/// mathematical values.
#[verifier::ext_equal]
pub struct EditorView {
    pub is_focused: bool,
    pub label: Seq<char>,
    pub mode: EditMode,
    pub lines: Seq<Seq<char>>,
    pub scroll_offset: usize,
    pub cursor_index: usize,
    pub cursor_line_index: usize,
    pub anchor: usize,
    pub anchor_line: usize,
    pub copy_buffer: Seq<Seq<char>>,
}

impl EditorView {
    /// There is a line under the cursor.
    pub open spec fn has_line(self) -> bool {
        self.cursor_line_index < self.lines.len()
    }

    /// The line under the cursor.
    pub open spec fn line(self) -> Seq<char> {
        self.lines[self.cursor_line_index as int]
    }

    pub open spec fn in_mode(self, mode: EditMode) -> Self {
        EditorView { mode, ..self }
    }

    pub open spec fn with_focus(self, value: bool) -> Self {
        EditorView { is_focused: value, ..self }
    }

    pub open spec fn with_cursor(self, index: int) -> Self {
        EditorView { cursor_index: index as usize, ..self }
    }

    /// One line down, not past the last line.
    pub open spec fn next_line(self) -> Self {
        EditorView {
            cursor_line_index: line_below(self.cursor_line_index, self.lines.len()),
            ..self
        }
    }

    /// One line up, not before the first line.
    pub open spec fn previous_line(self) -> Self {
        EditorView {
            cursor_line_index: line_above(self.cursor_line_index, self.lines.len()),
            ..self
        }
    }

    /// One character forward, not past the end of the line.
    pub open spec fn next_char(self) -> Self {
        if self.has_line() {
            let up = if self.cursor_index == usize::MAX {
                usize::MAX as int
            } else {
                self.cursor_index + 1
            };
            self.with_cursor(
                if up > self.line().len() {
                    self.line().len() as int
                } else {
                    up
                },
            )
        } else {
            self
        }
    }

    /// One character back, not before the start of the line.
    pub open spec fn previous_char(self) -> Self {
        self.with_cursor(
            if self.cursor_index == 0 {
                0
            } else {
                self.cursor_index - 1
            },
        )
    }

    pub open spec fn end_of_line(self) -> Self {
        if self.has_line() {
            self.with_cursor(self.line().len() as int)
        } else {
            self
        }
    }

    pub open spec fn start_of_line(self) -> Self {
        if self.has_line() {
            self.with_cursor(0)
        } else {
            self
        }
    }

    /// The part of the line after the cursor.
    pub open spec fn after_cursor(self) -> Seq<char> {
        self.line().subrange(self.cursor_index + 1, self.line().len() as int)
    }

    /// The part of the line before the cursor.
    pub open spec fn before_cursor(self) -> Seq<char> {
        self.line().take(self.cursor_index as int)
    }

    /// A search forward on the line can start: the cursor is on a character.
    pub open spec fn can_look_forward(self) -> bool {
        self.has_line() ==> self.cursor_index < self.line().len()
    }

    /// A search backward on the line can start: the cursor is within the line.
    pub open spec fn can_look_backward(self) -> bool {
        self.has_line() ==> self.cursor_index <= self.line().len()
    }

    /// `d` comes after the cursor on its line.
    pub open spec fn forward_hit(self, d: char) -> bool {
        self.has_line() && first_index_of(self.after_cursor(), d) >= 0
    }

    /// The cursor put just before the first `d` after it, when there is one.
    pub open spec fn forward_to(self, d: char) -> Self {
        if self.forward_hit(d) {
            self.with_cursor(self.cursor_index + first_index_of(self.after_cursor(), d))
        } else {
            self
        }
    }

    /// `d` comes before the cursor on its line.
    pub open spec fn backward_hit(self, d: char) -> bool {
        self.has_line() && last_index_of(self.before_cursor(), d) >= 0
    }

    /// The cursor put on the last `d` before it, when there is one.
    pub open spec fn backward_to(self, d: char) -> Self {
        if self.backward_hit(d) {
            self.with_cursor(last_index_of(self.before_cursor(), d))
        } else {
            self
        }
    }

    /// Just past the next space, or to the end of the line.
    pub open spec fn next_word(self) -> Self {
        if self.forward_hit(' ') {
            self.forward_to(' ').next_char()
        } else {
            self.end_of_line()
        }
    }

    /// Just past the last space before the cursor, or to the start of the line.
    pub open spec fn previous_word(self) -> Self {
        if self.backward_hit(' ') {
            self.backward_to(' ').next_char()
        } else {
            self.start_of_line()
        }
    }

    /// `c` put at the cursor, brought back to the end of the line first, and
    /// the cursor past it.
    pub open spec fn with_char(self, c: char) -> Self {
        if self.has_line() {
            let p = if self.cursor_index <= self.line().len() {
                self.cursor_index as int
            } else {
                self.line().len() as int
            };
            EditorView {
                lines: insert_at(self.lines, self.cursor_line_index as int, p, c),
                cursor_index: (p + 1) as usize,
                ..self
            }
        } else {
            self
        }
    }

    /// A character can be taken out at the cursor: on a line that is not
    /// empty, the cursor is on a character.
    pub open spec fn can_delete_char(self) -> bool {
        self.has_line() && self.line().len() > 0 ==> self.cursor_index < self.line().len()
    }

    /// The character under the cursor taken out; an empty line stays.
    pub open spec fn without_char(self) -> Self {
        if self.has_line() && self.line().len() > 0 {
            EditorView {
                lines: remove_at(self.lines, self.cursor_line_index as int, self.cursor_index as int),
                ..self
            }
        } else {
            self
        }
    }

    /// An empty line opened below the cursor's line.
    pub open spec fn with_line_below(self) -> Self {
        EditorView {
            lines: self.lines.insert(self.cursor_line_index + 1, Seq::<char>::empty()),
            ..self
        }
    }

    /// An empty line opened at the cursor's line, pushing it down.
    pub open spec fn with_line_above(self) -> Self {
        EditorView {
            lines: self.lines.insert(self.cursor_line_index as int, Seq::<char>::empty()),
            ..self
        }
    }

    /// The next line appended to the cursor's line, when there is one.
    pub open spec fn merged_with_next_line(self) -> Self {
        if self.cursor_line_index + 1 < self.lines.len() {
            EditorView { lines: merge_next(self.lines, self.cursor_line_index as int), ..self }
        } else {
            self
        }
    }

    /// The cursor's line can be cut at the cursor: it is not empty and the
    /// cursor is within it.
    pub open spec fn can_cut(self) -> bool {
        self.has_line() ==> 0 < self.line().len() && self.cursor_index <= self.line().len()
    }

    /// The cursor's line cut at the cursor, the cursor at the start of the
    /// new line below.
    pub open spec fn cut_at_cursor(self) -> Self {
        if self.has_line() {
            EditorView {
                lines: split_line(self.lines, self.cursor_line_index as int, self.cursor_index as int),
                cursor_line_index: (self.cursor_line_index + 1) as usize,
                cursor_index: 0,
                ..self
            }
        } else {
            self
        }
    }

    /// The view scrolled by `delta` lines, staying within `usize`.
    pub open spec fn scrolled(self, delta: isize) -> Self {
        let to = self.scroll_offset + delta;
        EditorView {
            scroll_offset: if to < 0 {
                0
            } else if to > usize::MAX {
                usize::MAX
            } else {
                to as usize
            },
            ..self
        }
    }
}

impl View for TextEditorState {
    type V = EditorView;

    open spec fn view(&self) -> EditorView {
        EditorView {
            is_focused: self.is_focused,
            label: self.label@,
            mode: self.mode,
            lines: self.lines@.map_values(|l: Vec<char>| l@),
            scroll_offset: self.scroll_offset,
            cursor_index: self.cursor_index,
            cursor_line_index: self.cursor_line_index,
            anchor: self.anchor,
            anchor_line: self.anchor_line,
            copy_buffer: self.copy_buffer@.map_values(|l: Vec<char>| l@),
        }
    }
}

/// A multi-line modal text editor.
pub struct TextEditor {
    pub state: TextEditorState,
}

impl View for TextEditor {
    type V = EditorView;

    open spec fn view(&self) -> EditorView {
        self.state@
    }
}

impl TextEditor {
    /// An editor without the focus, in normal mode, with no line, the cursor
    /// and the anchor at the start and an empty copy buffer; the default text
    /// is not loaded.
    pub fn new(label: &str, default: &str) -> (r: Self)
        ensures
            r@ == (EditorView {
                is_focused: false,
                label: label@,
                mode: EditMode::Normal,
                lines: Seq::empty(),
                scroll_offset: 0,
                cursor_index: 0,
                cursor_line_index: 0,
                anchor: 0,
                anchor_line: 0,
                copy_buffer: Seq::empty(),
            }),
    {
        broadcast use vstd::string::group_string_axioms;

        let r = TextEditor {
            state: TextEditorState {
                is_focused: false,
                label: label.to_string(),
                mode: EditMode::Normal,
                lines: Vec::new(),
                scroll_offset: 0,
                cursor_index: 0,
                cursor_line_index: 0,
                anchor: 0,
                anchor_line: 0,
                copy_buffer: Vec::new(),
            },
        };
        assert(r@.lines =~= Seq::empty());
        assert(r@.copy_buffer =~= Seq::empty());
        r
    }

    pub fn is_focused(&self) -> (r: bool)
        ensures
            r == self@.is_focused,
    {
        self.state.is_focused
    }

    pub fn set_focus(&mut self, value: bool)
        ensures
            final(self)@ == old(self)@.with_focus(value),
    {
        self.state.is_focused = value;
    }

    /// The cursor as (position in the line, line).
    pub fn get_cursor_position(&self) -> (r: (usize, usize))
        ensures
            r == (self@.cursor_index, self@.cursor_line_index),
    {
        (self.state.cursor_index, self.state.cursor_line_index)
    }

    /// Scrolls by `delta` lines, staying within `usize`.
    pub fn scroll_vertical_offset(&mut self, delta: isize)
        ensures
            final(self)@ == old(self)@.scrolled(delta),
    {
        if delta < 0 {
            let down: usize = if delta == isize::MIN {
                (isize::MAX as usize) + 1
            } else {
                (-delta) as usize
            };
            self.state.scroll_offset = self.state.scroll_offset.saturating_sub(down);
        } else {
            self.state.scroll_offset = self.state.scroll_offset.saturating_add(delta as usize);
        }
    }

    /// The characters of all lines, one after the other.
    pub fn to_raw_string(&self) -> (r: String)
        requires
            self@.lines.len() > 0,
        ensures
            r@ == concat_lines(self@.lines),
    {
        let lines = &self.state.lines;
        let ghost text = self@.lines;
        let mut all: Vec<char> = Vec::new();
        let mut i: usize = 0;
        while i < lines.len()
            invariant
                0 <= i <= lines@.len(),
                text == lines@.map_values(|l: Vec<char>| l@),
                all@ == concat_lines(text.take(i as int)),
            decreases lines@.len() - i,
        {
            let line = &lines[i];
            let ghost before = all@;
            let mut j: usize = 0;
            while j < line.len()
                invariant
                    0 <= j <= line@.len(),
                    all@ == before + line@.take(j as int),
                decreases line@.len() - j,
            {
                all.push(line[j]);
                j = j + 1;
                assert(all@ =~= before + line@.take(j as int));
            }
            proof {
                assert(text.take(i + 1).drop_last() =~= text.take(i as int));
                assert(line@.take(j as int) =~= line@);
            }
            i = i + 1;
        }
        assert(text.take(i as int) =~= text);
        string_from_chars(&all)
    }


    /// The lines joined with a newline between each two.
    pub fn to_content(&self) -> (r: String)
        requires
            self@.lines.len() > 0,
        ensures
            r@ == join_lines(self@.lines),
    {
        let lines = &self.state.lines;
        let ghost text = self@.lines;
        let mut all: Vec<char> = Vec::new();
        let mut i: usize = 0;
        while i < lines.len()
            invariant
                0 <= i <= lines@.len(),
                lines@.len() > 0,
                text == lines@.map_values(|l: Vec<char>| l@),
                i > 0 ==> all@ == join_lines(text.take(i as int)),
                i == 0 ==> all@.len() == 0,
            decreases lines@.len() - i,
        {
            let ghost before = all@;
            if i > 0 {
                all.push('\n');
            }
            let line = &lines[i];
            let ghost mid = all@;
            let mut j: usize = 0;
            while j < line.len()
                invariant
                    0 <= j <= line@.len(),
                    all@ == mid + line@.take(j as int),
                decreases line@.len() - j,
            {
                all.push(line[j]);
                j = j + 1;
                assert(all@ =~= mid + line@.take(j as int));
            }
            proof {
                assert(line@.take(j as int) =~= line@);
                assert(text[i as int] == line@);
                if i == 0 {
                    assert(text.take(1) =~= seq![line@]);
                    assert(all@ =~= line@);
                } else {
                    assert(text.take(i + 1).drop_last() =~= text.take(i as int));
                    assert(all@ =~= before + seq!['\n'] + line@);
                }
            }
            i = i + 1;
        }
        assert(text.take(i as int) =~= text);
        string_from_chars(&all)
    }

    /// Loads `content`, one line for each piece between newlines.
    pub fn replace(&mut self, content: String)
        ensures
            final(self)@ == (EditorView { lines: final(self)@.lines, ..old(self)@ }),
            join_lines(final(self)@.lines) == content@,
            forall|i: int|
                0 <= i < final(self)@.lines.len() ==> !(#[trigger] final(self)@.lines[i]).contains(
                    '\n',
                ),
            final(self)@.lines.len() >= 1,
    {
        let chars = chars_of(content.as_str());
        let mut lines: Vec<Vec<char>> = Vec::new();
        let mut cur: Vec<char> = Vec::new();
        let mut i: usize = 0;
        while i < chars.len()
            invariant
                0 <= i <= chars@.len(),
                join_lines(lines@.map_values(|l: Vec<char>| l@).push(cur@)) == chars@.take(i as int),
                forall|k: int| 0 <= k < lines@.len() ==> !(#[trigger] lines@[k]@).contains('\n'),
                !cur@.contains('\n'),
            decreases chars@.len() - i,
        {
            let c = chars[i];
            let ghost done = lines@.map_values(|l: Vec<char>| l@);
            let ghost old_cur = cur@;
            if c == '\n' {
                let mut fresh: Vec<char> = Vec::new();
                std::mem::swap(&mut fresh, &mut cur);
                lines.push(fresh);
                proof {
                    assert(lines@.map_values(|l: Vec<char>| l@) =~= done.push(old_cur));
                    assert(done.push(old_cur).push(cur@).drop_last() =~= done.push(old_cur));
                    assert(cur@ =~= Seq::<char>::empty());
                    assert(join_lines(done.push(old_cur).push(cur@)) =~= join_lines(
                        done.push(old_cur),
                    ) + seq!['\n']);
                }
            } else {
                cur.push(c);
                proof {
                    if done.len() == 0 {
                        assert(done.push(cur@) =~= seq![cur@]);
                        assert(done.push(old_cur) =~= seq![old_cur]);
                    } else {
                        assert(done.push(cur@).drop_last() =~= done);
                        assert(done.push(old_cur).drop_last() =~= done);
                    }
                    assert(!cur@.contains('\n')) by {
                        if cur@.contains('\n') {
                            let k = choose|k: int| 0 <= k < cur@.len() && cur@[k] == '\n';
                            if k < old_cur.len() {
                                assert(old_cur[k] == '\n');
                            }
                        }
                    }
                }
            }
            proof {
                assert(chars@.take(i + 1) =~= chars@.take(i as int).push(c));
            }
            i = i + 1;
        }
        let ghost done = lines@.map_values(|l: Vec<char>| l@);
        lines.push(cur);
        proof {
            assert(lines@.map_values(|l: Vec<char>| l@) =~= done.push(cur@));
            assert(chars@.take(i as int) =~= chars@);
        }
        self.state.lines = lines;
    }

    pub fn switch_mode(&mut self, mode: EditMode)
        ensures
            final(self)@ == old(self)@.in_mode(mode),
    {
        self.state.mode = mode;
    }

    /// Moves the cursor one line down, staying on the last line.
    pub fn move_to_next_line(&mut self)
        ensures
            final(self)@ == old(self)@.next_line(),
    {
        let up = self.state.cursor_line_index.saturating_add(1);
        let top = self.state.lines.len().saturating_sub(1);
        self.state.cursor_line_index = if up > top {
            top
        } else {
            up
        };
    }

    /// Moves the cursor one line up, staying on the first line.
    pub fn move_to_previous_line(&mut self)
        ensures
            final(self)@ == old(self)@.previous_line(),
    {
        let down = self.state.cursor_line_index.saturating_sub(1);
        let top = self.state.lines.len().saturating_sub(1);
        self.state.cursor_line_index = if down > top {
            top
        } else {
            down
        };
    }

    /// Moves the cursor one character forward, not past the end of its line.
    pub fn move_to_next_char(&mut self)
        ensures
            final(self)@ == old(self)@.next_char(),
    {
        if self.state.cursor_line_index < self.state.lines.len() {
            let len = self.state.lines[self.state.cursor_line_index].len();
            let up = self.state.cursor_index.saturating_add(1);
            self.state.cursor_index = if up > len {
                len
            } else {
                up
            };
        }
    }

    /// Moves the cursor one character back, not before the start of its line.
    pub fn move_to_previous_char(&mut self)
        ensures
            final(self)@ == old(self)@.previous_char(),
    {
        self.state.cursor_index = self.state.cursor_index.saturating_sub(1);
    }

    /// Looks for `delimiter` after the cursor on its line; when found, moves
    /// the cursor to just before it and says so.
    pub fn move_forward_to(&mut self, delimiter: char) -> (r: bool)
        requires
            old(self)@.can_look_forward(),
        ensures
            r == old(self)@.forward_hit(delimiter),
            final(self)@ == old(self)@.forward_to(delimiter),
    {
        let li = self.state.cursor_line_index;
        if li < self.state.lines.len() {
            let len = self.state.lines[li].len();
            assert(self.state.cursor_index < len);
            let start = self.state.cursor_index + 1;
            match find_forward(&self.state.lines[li], start, delimiter) {
                Some(i) => {
                    self.state.cursor_index = self.state.cursor_index + (i - start);
                    return true;
                },
                None => {},
            }
        }
        false
    }

    /// Looks for `delimiter` before the cursor on its line; when found, moves
    /// the cursor onto the last one and says so.
    pub fn move_backward_to(&mut self, delimiter: char) -> (r: bool)
        requires
            old(self)@.can_look_backward(),
        ensures
            r == old(self)@.backward_hit(delimiter),
            final(self)@ == old(self)@.backward_to(delimiter),
    {
        let li = self.state.cursor_line_index;
        if li < self.state.lines.len() {
            match find_backward(&self.state.lines[li], self.state.cursor_index, delimiter) {
                Some(i) => {
                    self.state.cursor_index = i;
                    return true;
                },
                None => {},
            }
        }
        false
    }

    /// Moves the cursor to the end of its line.
    pub fn move_to_end_of_line(&mut self)
        ensures
            final(self)@ == old(self)@.end_of_line(),
    {
        if self.state.cursor_line_index < self.state.lines.len() {
            self.state.cursor_index = self.state.lines[self.state.cursor_line_index].len();
        }
    }

    /// Moves the cursor to the start of its line.
    pub fn move_to_start_of_line(&mut self)
        ensures
            final(self)@ == old(self)@.start_of_line(),
    {
        if self.state.cursor_line_index < self.state.lines.len() {
            self.state.cursor_index = 0;
        }
    }

    /// Moves the cursor just past the next space on its line, or to the end
    /// of the line when there is none.
    pub fn move_to_next_word(&mut self)
        requires
            old(self)@.can_look_forward(),
        ensures
            final(self)@ == old(self)@.next_word(),
    {
        if !self.move_forward_to(' ') {
            self.move_to_end_of_line();
        } else {
            self.move_to_next_char();
        }
    }

    /// Moves the cursor just past the last space before it on its line, or to
    /// the start of the line when there is none.
    pub fn move_to_previous_word(&mut self)
        requires
            old(self)@.can_look_backward(),
        ensures
            final(self)@ == old(self)@.previous_word(),
    {
        if !self.move_backward_to(' ') {
            self.move_to_start_of_line();
        } else {
            self.move_to_next_char();
        }
    }

    /// Puts `c` at the cursor (brought back to the end of its line first)
    /// and moves the cursor past it.
    pub fn insert_char(&mut self, c: char)
        ensures
            final(self)@ == old(self)@.with_char(c),
    {
        let li = self.state.cursor_line_index;
        if li < self.state.lines.len() {
            let len = self.state.lines[li].len();
            if self.state.cursor_index > len {
                self.state.cursor_index = len;
            }
            let p = self.state.cursor_index;
            let ghost before = self@.lines;
            self.state.lines[li].insert(p, c);
            proof {
                assert(self@.lines =~= insert_at(before, li as int, p as int, c));
                assert(self.state.lines@[li as int].len() == self@.line().len());
            }
        }
        self.move_to_next_char();
    }

    /// Takes out the character under the cursor; an empty line is left as it is.
    pub fn delete_char(&mut self)
        requires
            old(self)@.can_delete_char(),
        ensures
            final(self)@ == old(self)@.without_char(),
    {
        let li = self.state.cursor_line_index;
        if li < self.state.lines.len() {
            if self.state.lines[li].len() == 0 {
                return;
            }
            let ghost before = self@.lines;
            let p = self.state.cursor_index;
            self.state.lines[li].remove(p);
            proof {
                assert(self@.lines =~= remove_at(before, li as int, p as int));
            }
        }
    }

    /// Opens an empty line below the cursor's line.
    pub fn insert_new_line_below(&mut self)
        requires
            old(self)@.has_line(),
        ensures
            final(self)@ == old(self)@.with_line_below(),
    {
        let ghost before = self@.lines;
        let below = self.state.cursor_line_index;
        assert(below < self.state.lines.len());
        self.state.lines.insert(below + 1, Vec::new());
        proof {
            assert(self@.lines =~= before.insert(below + 1, Seq::<char>::empty()));
        }
    }

    /// Opens an empty line at the cursor's line, pushing it down.
    pub fn insert_new_line_above(&mut self)
        requires
            old(self)@.cursor_line_index <= old(self)@.lines.len(),
        ensures
            final(self)@ == old(self)@.with_line_above(),
    {
        let ghost before = self@.lines;
        self.state.lines.insert(self.state.cursor_line_index, Vec::new());
        proof {
            assert(self@.lines =~= before.insert(
                old(self).state.cursor_line_index as int,
                Seq::<char>::empty(),
            ));
        }
    }

    /// Appends the next line to the cursor's line; nothing happens on the last line.
    pub fn merge_with_next_line(&mut self)
        ensures
            final(self)@ == old(self)@.merged_with_next_line(),
    {
        if self.state.cursor_line_index >= self.state.lines.len() {
            return;
        }
        if self.state.cursor_line_index + 1 >= self.state.lines.len() {
            return;
        }
        self.merge_line(self.state.cursor_line_index + 1, self.state.cursor_line_index);
    }

    /// Moves the part of the cursor's line from the cursor on to a new line
    /// below, and puts the cursor at the start of that line.
    pub fn cut_into_next_newline(&mut self)
        requires
            old(self)@.can_cut(),
        ensures
            final(self)@ == old(self)@.cut_at_cursor(),
    {
        let li = self.state.cursor_line_index;
        if li < self.state.lines.len() {
            let ghost before = self@.lines;
            let from = self.state.cursor_index;
            let to = self.state.lines[li].len() - 1;
            let mut portion = self.remove_line_portion(from, to);
            self.insert_new_line_below();
            let ghost mid = self@.lines;
            let ghost mid_lines = self.state.lines@;
            let ghost f = portion@;
            assert(self@.lines.len() == self.state.lines@.len());
            self.state.lines[li + 1].append(&mut portion);
            proof {
                let m = split_line(before, li as int, from as int);
                let line = before[li as int];
                assert(line.subrange(0, from as int) + line.subrange(to + 1, line.len() as int)
                    =~= line.take(from as int));
                assert(self.state.lines@.len() == m.len());
                assert forall|i: int| 0 <= i < m.len() implies #[trigger] self@.lines[i] == m[i] by {
                    assert(self@.lines[i] == self.state.lines@[i]@);
                    assert(mid[i] == mid_lines[i]@);
                    if i < li {
                        assert(m[i] == before[i]);
                        assert(self.state.lines@[i] == mid_lines[i]);
                    } else if i == li {
                        assert(m[i] == line.take(from as int));
                        assert(self.state.lines@[i] == mid_lines[i]);
                    } else if i == li + 1 {
                        assert(m[i] == line.skip(from as int));
                        assert(line.subrange(from as int, to + 1) =~= line.skip(from as int));
                        assert(self.state.lines@[i]@ == mid_lines[i]@ + f);
                        assert(mid_lines[i]@ =~= Seq::<char>::empty());
                        assert(self.state.lines@[i]@ =~= line.skip(from as int));
                    } else {
                        assert(m[i] == before[i - 1]);
                        assert(self.state.lines@[i] == mid_lines[i]);
                    }
                }
                assert(self@.lines =~= m);
            }
            self.move_to_next_line();
            self.move_to_start_of_line();
        }
    }

    /// Takes positions `from` to `to` (both included) out of the cursor's
    /// line and returns them.
    fn remove_line_portion(&mut self, from: usize, to: usize) -> (r: Vec<char>)
        requires
            old(self)@.has_line(),
            from <= to + 1 <= old(self)@.line().len(),
        ensures
            r@ == old(self)@.line().subrange(from as int, to + 1),
            final(self)@ == (EditorView {
                lines: old(self)@.lines.update(
                    old(self)@.cursor_line_index as int,
                    old(self)@.line().subrange(0, from as int) + old(self)@.line().subrange(
                        to + 1,
                        old(self)@.line().len() as int,
                    ),
                ),
                ..old(self)@
            }),
    {
        let li = self.state.cursor_line_index;
        let ghost line = self@.line();
        let ghost before = self@.lines;
        let len = self.state.lines[li].len();
        assert(to < len);
        let mut captured: Vec<char> = Vec::new();
        let mut k: usize = from;
        while k <= to
            invariant
                from <= k <= to + 1,
                to < len,
                len == line.len(),
                li == self.state.cursor_line_index,
                li < self.state.lines@.len(),
                self.state.lines@.len() == before.len(),
                before[li as int] == line,
                forall|j: int|
                    0 <= j < before.len() && j != li ==> #[trigger] self.state.lines@[j]@ == before[j],
                self.state.lines@[li as int]@ == line.subrange(0, from as int) + line.subrange(
                    k as int,
                    line.len() as int,
                ),
                captured@ == line.subrange(from as int, k as int),
                self@ == (EditorView { lines: self@.lines, ..old(self)@ }),
            decreases to + 1 - k,
        {
            let ch = self.state.lines[li].remove(from);
            captured.push(ch);
            proof {
                assert(captured@ =~= line.subrange(from as int, k + 1));
                assert(self.state.lines@[li as int]@ =~= line.subrange(0, from as int)
                    + line.subrange(k + 1, line.len() as int));
            }
            k = k + 1;
        }
        proof {
            assert(self@.lines =~= before.update(
                li as int,
                line.subrange(0, from as int) + line.subrange(to + 1, line.len() as int),
            ));
        }
        captured
    }

    /// Appends line `from` to line `to` and takes line `from` out.
    fn merge_line(&mut self, from: usize, to: usize)
        requires
            from == to + 1,
            from < old(self)@.lines.len(),
        ensures
            final(self)@ == (EditorView { lines: merge_next(old(self)@.lines, to as int), ..old(self)@ }),
    {
        let ghost before = self@.lines;
        let mut from_line = self.state.lines[from].clone();
        assert(from_line@ =~= before[from as int]);
        self.delete_line(from);
        let ghost mid = self@.lines;
        let ghost f = from_line@;
        let ghost mid_lines = self.state.lines@;
        assert(self@.lines.len() == self.state.lines@.len());
        self.state.lines[to].append(&mut from_line);
        proof {
            let m = merge_next(before, to as int);
            assert(mid =~= before.remove(from as int));
            assert(self.state.lines@.len() == m.len());
            assert forall|i: int| 0 <= i < m.len() implies #[trigger] self@.lines[i] == m[i] by {
                assert(self@.lines[i] == self.state.lines@[i]@);
                assert(mid[i] == mid_lines[i]@);
                if i < to {
                    assert(m[i] == before[i]);
                    assert(self.state.lines@[i] == mid_lines[i]);
                } else if i == to {
                    assert(m[i] == before[i] + before[i + 1]);
                    assert(self.state.lines@[i]@ == mid_lines[i]@ + f);
                } else {
                    assert(m[i] == before[i + 1]);
                    assert(self.state.lines@[i] == mid_lines[i]);
                }
            }
            assert(self@.lines =~= m);
        }
    }

    /// Takes line `at` out, when there is one.
    fn delete_line(&mut self, at: usize)
        ensures
            final(self)@ == (EditorView {
                lines: if at < old(self)@.lines.len() {
                    old(self)@.lines.remove(at as int)
                } else {
                    old(self)@.lines
                },
                ..old(self)@
            }),
    {
        let ghost before = self@.lines;
        if at < self.state.lines.len() {
            self.state.lines.remove(at);
            proof {
                assert(self@.lines =~= before.remove(at as int));
            }
        }
    }
}

/// What a character key does in normal mode.
pub open spec fn normal_char_effect(v: EditorView, c: char, control: bool) -> EditorView {
    if c == 'h' {
        v.previous_char()
    } else if c == 'j' {
        v.next_line()
    } else if c == 'e' {
        v.next_char().next_word().previous_char()
    } else if c == 'k' {
        v.previous_line()
    } else if c == 'l' {
        v.next_char()
    } else if c == 'a' {
        v.next_char().in_mode(EditMode::Insert)
    } else if c == 'A' {
        v.end_of_line().in_mode(EditMode::Insert)
    } else if c == '0' {
        v.start_of_line()
    } else if c == '$' {
        v.end_of_line()
    } else if c == 'I' {
        v.start_of_line().in_mode(EditMode::Insert)
    } else if c == 'J' {
        v.merged_with_next_line()
    } else if c == 'w' {
        v.next_word()
    } else if c == 'b' {
        v.previous_word()
    } else if c == 'x' {
        v.without_char()
    } else if c == 'd' {
        if control {
            v.scrolled(16isize)
        } else {
            v
        }
    } else if c == 'u' {
        if control {
            v.scrolled(-16isize)
        } else {
            v
        }
    } else if c == 'o' {
        v.with_line_below().next_line().in_mode(EditMode::Insert)
    } else if c == 'O' {
        v.with_line_above().in_mode(EditMode::Insert)
    } else if c == 'i' {
        v.in_mode(EditMode::Insert)
    } else {
        v
    }
}

/// What a key does in normal mode.
pub open spec fn normal_mode_effect(v: EditorView, key: KeyEvent) -> EditorView {
    if !key.is_press() {
        v
    } else {
        match key.code {
            KeyCode::Esc => v.with_focus(false),
            KeyCode::Char(c) => normal_char_effect(v, c, key.control),
            KeyCode::Left => v.previous_char(),
            KeyCode::Right => v.next_char(),
            KeyCode::Up => v.previous_line(),
            KeyCode::Down => v.next_line(),
            KeyCode::Backspace => if v.cursor_index == 0 {
                v.previous_line().end_of_line()
            } else {
                v.previous_char()
            },
            _ => v,
        }
    }
}

/// The normal-mode keys that the editor can carry out: the word motions and
/// the deletion need the cursor within its line, and opening a line below
/// needs a line under the cursor.
pub open spec fn normal_key_allowed(v: EditorView, key: KeyEvent) -> bool {
    key.is_press() ==> match key.code {
        KeyCode::Char(c) => {
            &&& c == 'e' ==> v.next_char().can_look_forward()
            &&& c == 'w' ==> v.can_look_forward()
            &&& c == 'b' ==> v.can_look_backward()
            &&& c == 'x' ==> v.can_delete_char()
            &&& c == 'o' ==> v.has_line()
            &&& c == 'O' ==> v.cursor_line_index <= v.lines.len()
        },
        _ => true,
    }
}

/// What a key does in insert mode.
pub open spec fn insert_mode_effect(v: EditorView, key: KeyEvent) -> EditorView {
    if !key.is_press() {
        v
    } else {
        match key.code {
            KeyCode::Esc => v.in_mode(EditMode::Normal),
            KeyCode::Char(c) => v.with_char(c),
            KeyCode::Left => v.previous_char(),
            KeyCode::Right => v.next_char(),
            KeyCode::Up => v.previous_line(),
            KeyCode::Down => v.next_line(),
            KeyCode::Tab => v.with_char(' ').with_char(' ').with_char(' ').with_char(' '),
            KeyCode::Backspace => if v.cursor_index == 0 {
                v.previous_line().end_of_line().merged_with_next_line()
            } else {
                v.previous_char().without_char()
            },
            KeyCode::Enter => v.cut_at_cursor(),
            _ => v,
        }
    }
}

/// The insert-mode keys that the editor can carry out: a deletion needs the
/// cursor within its line, and a line break a line that is not empty.
pub open spec fn insert_key_allowed(v: EditorView, key: KeyEvent) -> bool {
    key.is_press() ==> match key.code {
        KeyCode::Backspace => v.cursor_index != 0 ==> v.previous_char().can_delete_char(),
        KeyCode::Enter => v.can_cut(),
        _ => true,
    }
}

/// What a key does in the two visual modes, whose arrow keys go the other way.
pub open spec fn visual_mode_effect(v: EditorView, key: KeyEvent) -> EditorView {
    if !key.is_press() {
        v
    } else {
        match key.code {
            KeyCode::Esc => v.in_mode(EditMode::Normal),
            KeyCode::Char(c) => if c == 'h' {
                v.previous_char()
            } else if c == 'j' {
                v.next_line()
            } else if c == 'k' {
                v.previous_line()
            } else if c == 'l' {
                v.next_char()
            } else if c == 'i' {
                v.in_mode(EditMode::Insert)
            } else {
                v
            },
            KeyCode::Left => v.next_char(),
            KeyCode::Right => v.previous_char(),
            KeyCode::Up => v.next_line(),
            KeyCode::Down => v.previous_line(),
            KeyCode::Backspace => v.previous_char(),
            _ => v,
        }
    }
}

/// What a key does to the editor in its current mode.
pub open spec fn key_effect(v: EditorView, key: KeyEvent) -> EditorView {
    match v.mode {
        EditMode::Normal => normal_mode_effect(v, key),
        EditMode::Insert => insert_mode_effect(v, key),
        _ => visual_mode_effect(v, key),
    }
}

/// The keys the editor can carry out in its current mode.
pub open spec fn key_allowed(v: EditorView, key: KeyEvent) -> bool {
    match v.mode {
        EditMode::Normal => normal_key_allowed(v, key),
        EditMode::Insert => insert_key_allowed(v, key),
        _ => true,
    }
}

/// Acts on a key in normal mode; says whether the key asks to leave the
/// editor (a press of Esc, which also drops the focus).
pub fn handle_normal_mode(me: &mut TextEditor, key: &KeyEvent) -> (exit: bool)
    requires
        normal_key_allowed(old(me)@, *key),
    ensures
        final(me)@ == normal_mode_effect(old(me)@, *key),
        exit == (key.is_press() && key.code == KeyCode::Esc),
{
    if key.kind != KeyEventKind::Press {
        return false;
    }
    match key.code {
        KeyCode::Esc => {
            me.set_focus(false);
            return true;
        },
        KeyCode::Char(c) => {
            if c == 'h' {
                me.move_to_previous_char();
            } else if c == 'j' {
                me.move_to_next_line();
            } else if c == 'e' {
                me.move_to_next_char();
                me.move_to_next_word();
                me.move_to_previous_char();
            } else if c == 'k' {
                me.move_to_previous_line();
            } else if c == 'l' {
                me.move_to_next_char();
            } else if c == 'a' {
                me.move_to_next_char();
                me.switch_mode(EditMode::Insert);
            } else if c == 'A' {
                me.move_to_end_of_line();
                me.switch_mode(EditMode::Insert);
            } else if c == '0' {
                me.move_to_start_of_line();
            } else if c == '$' {
                me.move_to_end_of_line();
            } else if c == 'I' {
                me.move_to_start_of_line();
                me.switch_mode(EditMode::Insert);
            } else if c == 'J' {
                me.merge_with_next_line();
            } else if c == 'w' {
                me.move_to_next_word();
            } else if c == 'b' {
                me.move_to_previous_word();
            } else if c == 'x' {
                me.delete_char();
            } else if c == 'd' {
                if key.control {
                    me.scroll_vertical_offset(16);
                }
            } else if c == 'u' {
                if key.control {
                    me.scroll_vertical_offset(-16);
                }
            } else if c == 'o' {
                me.insert_new_line_below();
                me.move_to_next_line();
                me.switch_mode(EditMode::Insert);
            } else if c == 'O' {
                me.insert_new_line_above();
                me.switch_mode(EditMode::Insert);
            } else if c == 'i' {
                me.switch_mode(EditMode::Insert);
            }
        },
        KeyCode::Left => {
            me.move_to_previous_char();
        },
        KeyCode::Right => {
            me.move_to_next_char();
        },
        KeyCode::Up => {
            me.move_to_previous_line();
        },
        KeyCode::Down => {
            me.move_to_next_line();
        },
        KeyCode::Backspace => {
            if me.get_cursor_position().0 == 0 {
                me.move_to_previous_line();
                me.move_to_end_of_line();
            } else {
                me.move_to_previous_char();
            }
        },
        _ => {},
    }
    false
}

/// Acts on a key in insert mode.
pub fn handle_insert_mode(me: &mut TextEditor, key: &KeyEvent)
    requires
        insert_key_allowed(old(me)@, *key),
    ensures
        final(me)@ == insert_mode_effect(old(me)@, *key),
{
    if key.kind != KeyEventKind::Press {
        return;
    }
    match key.code {
        KeyCode::Esc => {
            me.switch_mode(EditMode::Normal);
        },
        KeyCode::Char(c) => {
            me.insert_char(c);
        },
        KeyCode::Left => {
            me.move_to_previous_char();
        },
        KeyCode::Right => {
            me.move_to_next_char();
        },
        KeyCode::Up => {
            me.move_to_previous_line();
        },
        KeyCode::Down => {
            me.move_to_next_line();
        },
        KeyCode::Tab => {
            me.insert_char(' ');
            me.insert_char(' ');
            me.insert_char(' ');
            me.insert_char(' ');
        },
        KeyCode::Backspace => {
            if me.get_cursor_position().0 == 0 {
                me.move_to_previous_line();
                me.move_to_end_of_line();
                me.merge_with_next_line();
            } else {
                me.move_to_previous_char();
                me.delete_char();
            }
        },
        KeyCode::Enter => {
            me.cut_into_next_newline();
        },
        _ => {},
    }
}

/// Acts on a key in visual mode.
pub fn handle_visual_mode(me: &mut TextEditor, key: &KeyEvent)
    ensures
        final(me)@ == visual_mode_effect(old(me)@, *key),
{
    if key.kind != KeyEventKind::Press {
        return;
    }
    match key.code {
        KeyCode::Esc => {
            me.switch_mode(EditMode::Normal);
        },
        KeyCode::Char(c) => {
            if c == 'h' {
                me.move_to_previous_char();
            } else if c == 'j' {
                me.move_to_next_line();
            } else if c == 'k' {
                me.move_to_previous_line();
            } else if c == 'l' {
                me.move_to_next_char();
            } else if c == 'i' {
                me.switch_mode(EditMode::Insert);
            }
        },
        KeyCode::Left => {
            me.move_to_next_char();
        },
        KeyCode::Right => {
            me.move_to_previous_char();
        },
        KeyCode::Up => {
            me.move_to_next_line();
        },
        KeyCode::Down => {
            me.move_to_previous_line();
        },
        KeyCode::Backspace => {
            me.move_to_previous_char();
        },
        _ => {},
    }
}

/// Acts on a key in visual-line mode, as visual mode does.
pub fn handle_visual_line_mode(me: &mut TextEditor, key: &KeyEvent)
    ensures
        final(me)@ == visual_mode_effect(old(me)@, *key),
{
    handle_visual_mode(me, key)
}

impl TextEditor {
    /// Acts on a key in the editor's mode; says whether the key asks to
    /// leave the editor.
    pub fn handle(&mut self, key: &KeyEvent) -> (exit: bool)
        requires
            key_allowed(old(self)@, *key),
        ensures
            final(self)@ == key_effect(old(self)@, *key),
            exit == (old(self)@.mode == EditMode::Normal && key.is_press() && key.code
                == KeyCode::Esc),
    {
        match self.state.mode {
            EditMode::Normal => handle_normal_mode(self, key),
            EditMode::Insert => {
                handle_insert_mode(self, key);
                false
            },
            EditMode::Visual => {
                handle_visual_mode(self, key);
                false
            },
            EditMode::VisualLine => {
                handle_visual_line_mode(self, key);
                false
            },
        }
    }

    /// Whether the editor can carry out `key` in its mode: the motions and
    /// edits that read the cursor's line need the cursor within it.
    pub fn accepts_key(&self, key: &KeyEvent) -> (r: bool)
        ensures
            r == key_allowed(self@, *key),
    {
        if key.kind != KeyEventKind::Press {
            return true;
        }
        let s = &self.state;
        let has_line = s.cursor_line_index < s.lines.len();
        let len: usize = if has_line {
            s.lines[s.cursor_line_index].len()
        } else {
            0
        };
        let cursor = s.cursor_index;
        match s.mode {
            EditMode::Normal => match key.code {
                KeyCode::Char(c) => {
                    if c == 'e' {
                        !has_line || (cursor < usize::MAX && cursor + 1 < len)
                    } else if c == 'w' {
                        !has_line || cursor < len
                    } else if c == 'b' {
                        !has_line || cursor <= len
                    } else if c == 'x' {
                        !has_line || len == 0 || cursor < len
                    } else if c == 'o' {
                        has_line
                    } else if c == 'O' {
                        s.cursor_line_index <= s.lines.len()
                    } else {
                        true
                    }
                },
                _ => true,
            },
            EditMode::Insert => match key.code {
                KeyCode::Backspace => cursor == 0 || !has_line || len == 0 || cursor - 1 < len,
                KeyCode::Enter => !has_line || (0 < len && cursor <= len),
                _ => true,
            },
            _ => true,
        }
    }
}

/// The position in `line` of the first `d` at or after `start`.
fn find_forward(line: &Vec<char>, start: usize, d: char) -> (r: Option<usize>)
    requires
        start <= line@.len(),
    ensures
        ({
            let k = first_index_of(line@.subrange(start as int, line@.len() as int), d);
            match r {
                Some(i) => k >= 0 && i == start + k,
                None => k < 0,
            }
        }),
{
    let ghost rest = line@.subrange(start as int, line@.len() as int);
    let mut i: usize = start;
    while i < line.len()
        invariant
            start <= i <= line@.len(),
            rest == line@.subrange(start as int, line@.len() as int),
            forall|j: int| 0 <= j < i - start ==> rest[j] != d,
        decreases line@.len() - i,
    {
        if line[i] == d {
            proof {
                lemma_first_index_of(rest, d, i - start);
            }
            return Some(i);
        }
        i = i + 1;
    }
    proof {
        lemma_first_index_of(rest, d, i - start);
    }
    None
}

/// The position in `line` of the last `d` before `end`.
fn find_backward(line: &Vec<char>, end: usize, d: char) -> (r: Option<usize>)
    requires
        end <= line@.len(),
    ensures
        ({
            let k = last_index_of(line@.take(end as int), d);
            match r {
                Some(i) => k >= 0 && i == k,
                None => k < 0,
            }
        }),
{
    let ghost before = line@.take(end as int);
    let mut i: usize = end;
    while i > 0
        invariant
            0 <= i <= end,
            end <= line@.len(),
            before == line@.take(end as int),
            forall|j: int| i <= j < end ==> before[j] != d,
        decreases i,
    {
        if line[i - 1] == d {
            proof {
                lemma_last_index_of(before, d, i - 1);
            }
            return Some(i - 1);
        }
        i = i - 1;
    }
    proof {
        lemma_last_index_of(before, d, -1);
    }
    None
}

/// Cutting a line in two and appending the second part back gives the lines
/// that were there before.
pub proof fn law_split_then_merge(lines: Seq<Seq<char>>, li: int, p: int)
    requires
        0 <= li < lines.len(),
        0 <= p <= lines[li].len(),
    ensures
        merge_next(split_line(lines, li, p), li) == lines,
{
    let s = split_line(lines, li, p);
    let m = merge_next(s, li);
    assert(s[li] + s[li + 1] =~= lines[li]);
    assert(m =~= lines);
}

/// Putting a character at a position and taking out the character at that
/// position gives the lines that were there before.
pub proof fn law_insert_then_remove(lines: Seq<Seq<char>>, li: int, p: int, c: char)
    requires
        0 <= li < lines.len(),
        0 <= p <= lines[li].len(),
    ensures
        remove_at(insert_at(lines, li, p, c), li, p) == lines,
{
    assert(lines[li].insert(p, c).remove(p) =~= lines[li]);
    assert(remove_at(insert_at(lines, li, p, c), li, p) =~= lines);
}

proof fn lemma_concat_lines_append(a: Seq<Seq<char>>, b: Seq<Seq<char>>)
    ensures
        concat_lines(a + b) == concat_lines(a) + concat_lines(b),
    decreases b.len(),
{
    if b.len() == 0 {
        assert(a + b =~= a);
        assert(concat_lines(a) + concat_lines(b) =~= concat_lines(a));
    } else {
        lemma_concat_lines_append(a, b.drop_last());
        assert((a + b).drop_last() =~= a + b.drop_last());
        assert(concat_lines(a) + concat_lines(b) =~= concat_lines(a) + concat_lines(b.drop_last())
            + b.last());
    }
}

/// Cutting a line in two keeps the characters of all lines, one after the
/// other, as they were.
pub proof fn law_split_keeps_characters(lines: Seq<Seq<char>>, li: int, p: int)
    requires
        0 <= li < lines.len(),
        0 <= p <= lines[li].len(),
    ensures
        concat_lines(split_line(lines, li, p)) == concat_lines(lines),
{
    let a = lines.take(li);
    let b = lines.skip(li + 1);
    let l = lines[li];
    let two = seq![l.take(p), l.skip(p)];
    lemma_concat_lines_append(a + two, b);
    lemma_concat_lines_append(a, two);
    lemma_concat_lines_append(a + seq![l], b);
    lemma_concat_lines_append(a, seq![l]);
    assert(lines =~= a + seq![l] + b);
    assert(two.drop_last() =~= seq![l.take(p)]);
    assert(seq![l.take(p)].drop_last() =~= Seq::<Seq<char>>::empty());
    assert(seq![l].drop_last() =~= Seq::<Seq<char>>::empty());
    reveal_with_fuel(concat_lines, 3);
    assert(concat_lines(two) =~= l.take(p) + l.skip(p));
    assert(l.take(p) + l.skip(p) =~= l);
    assert(concat_lines(seq![l]) =~= l);
}

/// Appending a line to the one before it keeps the characters of all lines,
/// one after the other, as they were.
pub proof fn law_merge_keeps_characters(lines: Seq<Seq<char>>, li: int)
    requires
        0 <= li,
        li + 1 < lines.len(),
    ensures
        concat_lines(merge_next(lines, li)) == concat_lines(lines),
{
    let a = lines.take(li);
    let b = lines.skip(li + 2);
    let two = seq![lines[li], lines[li + 1]];
    let one = seq![lines[li] + lines[li + 1]];
    lemma_concat_lines_append(a + one, b);
    lemma_concat_lines_append(a, one);
    lemma_concat_lines_append(a + two, b);
    lemma_concat_lines_append(a, two);
    assert(lines =~= a + two + b);
    assert(two.drop_last() =~= seq![lines[li]]);
    assert(seq![lines[li]].drop_last() =~= Seq::<Seq<char>>::empty());
    assert(one.drop_last() =~= Seq::<Seq<char>>::empty());
    reveal_with_fuel(concat_lines, 3);
    assert(concat_lines(two) =~= lines[li] + lines[li + 1]);
    assert(concat_lines(one) =~= lines[li] + lines[li + 1]);
}

/// In normal mode, `a` appends after the cursor: the editor goes to insert
/// mode with the cursor one character further along its line, or at the end
/// of the line when it is already there; the text stays as it was. So `a`
/// differs from `i`, which leaves the cursor where it is, whenever the cursor
/// is before the end of its line.
pub proof fn law_append_moves_past_the_cursor(v: EditorView, key: KeyEvent)
    requires
        v.mode == EditMode::Normal,
        v.has_line(),
        v.line().len() <= usize::MAX,
        key.is_press(),
        key.code == KeyCode::Char('a'),
    ensures
        key_effect(v, key).mode == EditMode::Insert,
        key_effect(v, key).lines == v.lines,
        key_effect(v, key).cursor_line_index == v.cursor_line_index,
        key_effect(v, key).cursor_index == if v.cursor_index < v.line().len() {
            v.cursor_index + 1
        } else {
            v.line().len() as int
        },
        v.cursor_index < v.line().len() ==> key_effect(v, key).cursor_index != key_effect(
            v,
            KeyEvent { code: KeyCode::Char('i'), ..key },
        ).cursor_index,
{
    let n = v.next_char();
    if v.cursor_index < v.line().len() {
        assert(n.cursor_index == v.cursor_index + 1);
    } else {
        assert(n.cursor_index == v.line().len());
    }
}

/// In normal mode the cursor keys keep the text and the line: `h` moves one
/// character back and `l` one forward, within the line; `0` goes to the
/// start of the line and `$` to its end; `i` enters insert mode where the
/// cursor is, `I` at the start of the line and `A` at its end. The motions
/// stay in normal mode.
pub proof fn law_normal_mode_cursor_keys(v: EditorView, key: KeyEvent)
    requires
        v.mode == EditMode::Normal,
        v.has_line(),
        v.cursor_index <= v.line().len(),
        v.line().len() <= usize::MAX,
        key.is_press(),
    ensures
        ({
            let at = |c: char| key_effect(v, KeyEvent { code: KeyCode::Char(c), ..key });
            &&& forall|c: char|
                c == 'h' || c == 'l' || c == '0' || c == '$' || c == 'i' || c == 'I' || c == 'A' ==> {
                    &&& #[trigger] at(c).lines == v.lines
                    &&& at(c).cursor_line_index == v.cursor_line_index
                }
            &&& at('h').cursor_index == if v.cursor_index == 0 {
                0
            } else {
                v.cursor_index - 1
            }
            &&& at('l').cursor_index == if v.cursor_index < v.line().len() {
                v.cursor_index + 1
            } else {
                v.cursor_index as int
            }
            &&& at('0').cursor_index == 0
            &&& at('$').cursor_index == v.line().len()
            &&& at('i').cursor_index == v.cursor_index
            &&& at('I').cursor_index == 0
            &&& at('A').cursor_index == v.line().len()
            &&& at('h').mode == EditMode::Normal && at('l').mode == EditMode::Normal
            &&& at('0').mode == EditMode::Normal && at('$').mode == EditMode::Normal
            &&& at('i').mode == EditMode::Insert && at('I').mode == EditMode::Insert
            &&& at('A').mode == EditMode::Insert
        }),
{
}

/// In insert mode, typing a character and then Backspace leaves the lines as
/// they were.
pub proof fn law_type_then_backspace(v: EditorView, c: char)
    requires
        v.mode == EditMode::Insert,
        v.has_line(),
        v.line().len() < usize::MAX,
    ensures
        insert_mode_effect(
            insert_mode_effect(v, KeyEvent { code: KeyCode::Char(c), control: false, shift: false, kind: KeyEventKind::Press }),
            KeyEvent { code: KeyCode::Backspace, control: false, shift: false, kind: KeyEventKind::Press },
        ).lines == v.lines,
{
    let p = if v.cursor_index <= v.line().len() {
        v.cursor_index as int
    } else {
        v.line().len() as int
    };
    law_insert_then_remove(v.lines, v.cursor_line_index as int, p, c);
    let w = v.with_char(c);
    assert(w.previous_char().cursor_index == p);
    assert(w.previous_char().line() =~= v.line().insert(p, c));
}

/// In insert mode, Enter and then Backspace at the start of the new line
/// leave the lines as they were.
pub proof fn law_enter_then_backspace(v: EditorView)
    requires
        v.mode == EditMode::Insert,
        v.has_line(),
        v.can_cut(),
        v.lines.len() < usize::MAX,
    ensures
        insert_mode_effect(
            insert_mode_effect(v, KeyEvent { code: KeyCode::Enter, control: false, shift: false, kind: KeyEventKind::Press }),
            KeyEvent { code: KeyCode::Backspace, control: false, shift: false, kind: KeyEventKind::Press },
        ).lines == v.lines,
{
    law_split_then_merge(v.lines, v.cursor_line_index as int, v.cursor_index as int);
    let w = v.cut_at_cursor();
    assert(w.lines.len() == v.lines.len() + 1);
    assert(w.previous_line().cursor_line_index == v.cursor_line_index);
}

/// No line holds a newline.
pub open spec fn no_newlines(lines: Seq<Seq<char>>) -> bool {
    forall|i: int| 0 <= i < lines.len() ==> !(#[trigger] lines[i]).contains('\n')
}

proof fn lemma_join_last_newline(lines: Seq<Seq<char>>)
    requires
        lines.len() >= 1,
        no_newlines(lines),
    ensures
        lines.len() == 1 ==> last_index_of(join_lines(lines), '\n') == -1,
        lines.len() >= 2 ==> last_index_of(join_lines(lines), '\n') == join_lines(lines.drop_last()).len(),
{
    let s = join_lines(lines);
    if lines.len() == 1 {
        assert(s == lines[0]);
        assert forall|j: int| -1 < j < s.len() implies s[j] != '\n' by {
            if s[j] == '\n' {
                assert(lines[0].contains('\n'));
            }
        }
        lemma_last_index_of(s, '\n', -1);
    } else {
        let a = join_lines(lines.drop_last());
        let l = lines.last();
        assert(s == a + seq!['\n'] + l);
        assert forall|j: int| a.len() < j < s.len() implies s[j] != '\n' by {
            assert(s[j] == l[j - a.len() - 1]);
            if s[j] == '\n' {
                assert(lines[lines.len() - 1].contains('\n'));
            }
        }
        lemma_last_index_of(s, '\n', a.len() as int);
    }
}

/// Lines without newlines are given back by the text they join into: two
/// such lists with the same joined text are the same. So loading a text
/// into the editor and joining its lines gives the text back, and joining
/// lines and loading the result gives the lines back.
pub proof fn law_join_lines_injective(a: Seq<Seq<char>>, b: Seq<Seq<char>>)
    requires
        a.len() >= 1,
        b.len() >= 1,
        no_newlines(a),
        no_newlines(b),
        join_lines(a) == join_lines(b),
    ensures
        a == b,
    decreases a.len(),
{
    lemma_join_last_newline(a);
    lemma_join_last_newline(b);
    let s = join_lines(a);
    if a.len() == 1 {
        assert(b.len() == 1) by {
            if b.len() >= 2 {
                assert(last_index_of(s, '\n') >= 0);
            }
        }
        assert(a =~= b);
    } else {
        assert(b.len() >= 2);
        let k = join_lines(a.drop_last()).len();
        let a1 = a.drop_last();
        let b1 = b.drop_last();
        assert(join_lines(a1) =~= s.take(k as int));
        assert(join_lines(b1) =~= s.take(k as int));
        assert(a.last() =~= s.skip(k + 1int));
        assert(b.last() =~= s.skip(k + 1int));
        assert(no_newlines(a1));
        assert(no_newlines(b1));
        law_join_lines_injective(a1, b1);
        assert(a =~= b1.push(b.last()));
        assert(b =~= b1.push(b.last()));
    }
}

proof fn lemma_first_index_bound(s: Seq<char>, d: char)
    ensures
        -1 <= first_index_of(s, d) < s.len(),
    decreases s.len(),
{
    if s.len() > 0 {
        lemma_first_index_bound(s.drop_first(), d);
    }
}

proof fn lemma_last_index_bound(s: Seq<char>, d: char)
    ensures
        -1 <= last_index_of(s, d) < s.len(),
    decreases s.len(),
{
    if s.len() > 0 {
        lemma_last_index_bound(s.drop_last(), d);
    }
}

} // verus!
