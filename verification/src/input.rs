//! The multi-line text editor behind every text-entry surface: a buffer of
//! lines addressed by character, a cursor, and a vertical viewport.
//!
//! The editor's behaviour is stated over [`EditorModel`], a mathematical model
//! of the buffer; every method's contract says exactly which model transition
//! it performs.

use vstd::prelude::*;

use crate::text::chars_to_string;
use crate::text::is_space;
use crate::text::is_space_char;
use crate::text::str_chars;

verus! {

/// The mathematical model of a [`TextInput`]: the lines as character
/// sequences, the cursor, the viewport, and the editable flag.
pub struct EditorModel {
    /// The buffered lines, each without line breaks.
    pub lines: Seq<Seq<char>>,
    /// The line the cursor stands on.
    pub cursor_line: int,
    /// The character column the cursor stands at, up to the line's length.
    pub cursor_col: int,
    /// The first visible line.
    pub scroll: int,
    /// The height of the visible window, at least 1.
    pub max_visible: int,
    /// Whether mutating operations have any effect.
    pub editable: bool,
}

impl EditorModel {
    /// Well-formedness: at least one line, the cursor inside the buffer and
    /// at most one past its line's end, the viewport positive and not below
    /// the cursor's line.
    pub open spec fn wf(self) -> bool {
        &&& self.wf_core()
        &&& 0 <= self.scroll <= self.cursor_line
    }

    /// Everything of [`EditorModel::wf`] except the viewport's position,
    /// which cursor movement may break until the next scroll adjustment.
    pub open spec fn wf_core(self) -> bool {
        &&& self.lines.len() >= 1
        &&& 0 <= self.cursor_line < self.lines.len()
        &&& 0 <= self.cursor_col <= self.lines[self.cursor_line].len()
        &&& 1 <= self.max_visible <= 0x10000
        &&& 0 <= self.scroll
    }

    /// Two editors agree on everything a reader of the buffer can observe:
    /// the lines, the cursor, and the editable flag (the viewport may differ).
    pub open spec fn same_content(self, other: EditorModel) -> bool {
        self.lines == other.lines && self.cursor_line == other.cursor_line && self.cursor_col
            == other.cursor_col && self.editable == other.editable
    }

    /// The viewport after the scroll adjustment that follows cursor movement:
    /// a cursor above the window pulls the window up to it; one below pushes
    /// the window down so the cursor's line is the last visible one.
    pub open spec fn adjusted(self) -> EditorModel {
        let up = if self.cursor_line < self.scroll {
            self.cursor_line
        } else {
            self.scroll
        };
        let down = if self.cursor_line >= up + self.max_visible {
            self.cursor_line - (self.max_visible - 1)
        } else {
            up
        };
        EditorModel { scroll: down, ..self }
    }

    /// Inserting a character at the cursor; the cursor advances past it.
    pub open spec fn insert_char_spec(self, c: char) -> EditorModel {
        if !self.editable {
            self
        } else {
            EditorModel {
                lines: self.lines.update(
                    self.cursor_line,
                    self.lines[self.cursor_line].insert(self.cursor_col, c),
                ),
                cursor_col: self.cursor_col + 1,
                ..self
            }.adjusted()
        }
    }

    /// Splitting the cursor's line at the cursor; the cursor moves to the
    /// start of the new second half.
    pub open spec fn insert_newline_spec(self) -> EditorModel {
        if !self.editable {
            self
        } else {
            let line = self.lines[self.cursor_line];
            let left = line.subrange(0, self.cursor_col);
            let right = line.subrange(self.cursor_col, line.len() as int);
            EditorModel {
                lines: self.lines.update(self.cursor_line, left).insert(
                    self.cursor_line + 1,
                    right,
                ),
                cursor_line: self.cursor_line + 1,
                cursor_col: 0,
                ..self
            }.adjusted()
        }
    }

    /// Forward delete: removes the character at the cursor, or merges the
    /// next line into this one when the cursor is at the line's end.
    pub open spec fn delete_char_spec(self) -> EditorModel {
        if !self.editable {
            self
        } else if self.cursor_col < self.lines[self.cursor_line].len() {
            EditorModel {
                lines: self.lines.update(
                    self.cursor_line,
                    self.lines[self.cursor_line].remove(self.cursor_col),
                ),
                ..self
            }
        } else if self.cursor_line + 1 < self.lines.len() {
            EditorModel {
                lines: self.lines.update(
                    self.cursor_line,
                    self.lines[self.cursor_line] + self.lines[self.cursor_line + 1],
                ).remove(self.cursor_line + 1),
                ..self
            }
        } else {
            self
        }
    }

    /// Backward delete: removes the character before the cursor, or merges
    /// this line into the previous one when the cursor is at column 0.
    pub open spec fn backspace_spec(self) -> EditorModel {
        if !self.editable {
            self
        } else if self.cursor_col > 0 {
            EditorModel {
                lines: self.lines.update(
                    self.cursor_line,
                    self.lines[self.cursor_line].remove(self.cursor_col - 1),
                ),
                cursor_col: self.cursor_col - 1,
                ..self
            }.adjusted()
        } else if self.cursor_line > 0 {
            EditorModel {
                lines: self.lines.update(
                    self.cursor_line - 1,
                    self.lines[self.cursor_line - 1] + self.lines[self.cursor_line],
                ).remove(self.cursor_line),
                cursor_line: self.cursor_line - 1,
                cursor_col: self.lines[self.cursor_line - 1].len() as int,
                ..self
            }.adjusted()
        } else {
            self.adjusted()
        }
    }

    /// One step left, wrapping to the previous line's end at column 0.
    pub open spec fn move_left_spec(self) -> EditorModel {
        if self.cursor_col > 0 {
            EditorModel { cursor_col: self.cursor_col - 1, ..self }.adjusted()
        } else if self.cursor_line > 0 {
            EditorModel {
                cursor_line: self.cursor_line - 1,
                cursor_col: self.lines[self.cursor_line - 1].len() as int,
                ..self
            }.adjusted()
        } else {
            self.adjusted()
        }
    }

    /// One step right, wrapping to the next line's start at the line's end.
    pub open spec fn move_right_spec(self) -> EditorModel {
        if self.cursor_col < self.lines[self.cursor_line].len() {
            EditorModel { cursor_col: self.cursor_col + 1, ..self }.adjusted()
        } else if self.cursor_line + 1 < self.lines.len() {
            EditorModel { cursor_line: self.cursor_line + 1, cursor_col: 0, ..self }.adjusted()
        } else {
            self.adjusted()
        }
    }

    /// One line up, clamping the column to the target line's length.
    pub open spec fn move_up_spec(self) -> EditorModel {
        if self.cursor_line > 0 {
            let len = self.lines[self.cursor_line - 1].len() as int;
            EditorModel {
                cursor_line: self.cursor_line - 1,
                cursor_col: if self.cursor_col <= len {
                    self.cursor_col
                } else {
                    len
                },
                ..self
            }.adjusted()
        } else {
            self.adjusted()
        }
    }

    /// One line down, clamping the column to the target line's length.
    pub open spec fn move_down_spec(self) -> EditorModel {
        if self.cursor_line + 1 < self.lines.len() {
            let len = self.lines[self.cursor_line + 1].len() as int;
            EditorModel {
                cursor_line: self.cursor_line + 1,
                cursor_col: if self.cursor_col <= len {
                    self.cursor_col
                } else {
                    len
                },
                ..self
            }.adjusted()
        } else {
            self.adjusted()
        }
    }

    /// The column where a backward word deletion from `col` stops: first the
    /// run of whitespace before `col`, then the run of non-whitespace before
    /// that.
    pub open spec fn word_start(line: Seq<char>, col: int) -> int {
        Self::skip_nonspaces_back(line, Self::skip_spaces_back(line, col))
    }

    /// Steps backward over whitespace.
    pub open spec fn skip_spaces_back(line: Seq<char>, i: int) -> int
        decreases i,
    {
        if i > 0 && i <= line.len() && is_space(line[i - 1]) {
            Self::skip_spaces_back(line, i - 1)
        } else {
            i
        }
    }

    /// Steps backward over non-whitespace.
    pub open spec fn skip_nonspaces_back(line: Seq<char>, i: int) -> int
        decreases i,
    {
        if i > 0 && i <= line.len() && !is_space(line[i - 1]) {
            Self::skip_nonspaces_back(line, i - 1)
        } else {
            i
        }
    }

    /// Deleting the word before the cursor: trailing whitespace, then the
    /// word itself; the cursor moves to the deletion point.
    pub open spec fn delete_word_backward_spec(self) -> EditorModel {
        if !self.editable || self.cursor_col == 0 {
            self
        } else {
            let line = self.lines[self.cursor_line];
            let nc = Self::word_start(line, self.cursor_col);
            EditorModel {
                lines: self.lines.update(
                    self.cursor_line,
                    line.subrange(0, nc) + line.subrange(self.cursor_col, line.len() as int),
                ),
                cursor_col: nc,
                ..self
            }
        }
    }
}

/// The editor after inserting the characters of `cs` one by one.
pub open spec fn apply_inserts(m: EditorModel, cs: Seq<char>) -> EditorModel
    decreases cs.len(),
{
    if cs.len() == 0 {
        m
    } else {
        apply_inserts(m.insert_char_spec(cs.first()), cs.drop_first())
    }
}

/// The editor after `n` backward deletions.
pub open spec fn apply_backspaces(m: EditorModel, n: nat) -> EditorModel
    decreases n,
{
    if n == 0 {
        m
    } else {
        apply_backspaces(m.backspace_spec(), (n - 1) as nat)
    }
}

proof fn lemma_adjusted_wf(m: EditorModel)
    requires
        m.wf_core(),
    ensures
        m.adjusted().wf(),
        m.adjusted().same_content(m),
{
}

proof fn lemma_insert_char_wf(m: EditorModel, c: char)
    requires
        m.wf(),
    ensures
        m.insert_char_spec(c).wf(),
{
    if m.editable {
        let mid = EditorModel {
            lines: m.lines.update(
                m.cursor_line,
                m.lines[m.cursor_line].insert(m.cursor_col, c),
            ),
            cursor_col: m.cursor_col + 1,
            ..m
        };
        assert(mid.wf_core());
        lemma_adjusted_wf(mid);
    }
}

proof fn lemma_backspace_wf(m: EditorModel)
    requires
        m.wf(),
    ensures
        m.backspace_spec().wf(),
{
    if !m.editable {
    } else if m.cursor_col > 0 {
        let mid = EditorModel {
            lines: m.lines.update(
                m.cursor_line,
                m.lines[m.cursor_line].remove(m.cursor_col - 1),
            ),
            cursor_col: m.cursor_col - 1,
            ..m
        };
        assert(mid.wf_core());
        lemma_adjusted_wf(mid);
    } else if m.cursor_line > 0 {
        let mid = EditorModel {
            lines: m.lines.update(
                m.cursor_line - 1,
                m.lines[m.cursor_line - 1] + m.lines[m.cursor_line],
            ).remove(m.cursor_line),
            cursor_line: m.cursor_line - 1,
            cursor_col: m.lines[m.cursor_line - 1].len() as int,
            ..m
        };
        assert(mid.wf_core());
        lemma_adjusted_wf(mid);
    } else {
        lemma_adjusted_wf(m);
    }
}

/// One inserted character is undone exactly by one backward deletion: the
/// lines, the cursor and the editable flag return to what they were.
proof fn lemma_insert_then_backspace(m: EditorModel, c: char)
    requires
        m.wf(),
    ensures
        m.insert_char_spec(c).backspace_spec().same_content(m),
{
    if m.editable {
        let line = m.lines[m.cursor_line];
        let m1 = m.insert_char_spec(c);
        lemma_insert_char_wf(m, c);
        assert(m1.cursor_col == m.cursor_col + 1);
        let m2 = m1.backspace_spec();
        assert(line.insert(m.cursor_col, c).remove(m.cursor_col) =~= line);
        assert(m2.lines =~~= m.lines);
    }
}

proof fn lemma_apply_inserts_wf(m: EditorModel, cs: Seq<char>)
    requires
        m.wf(),
    ensures
        apply_inserts(m, cs).wf(),
    decreases cs.len(),
{
    if cs.len() > 0 {
        lemma_insert_char_wf(m, cs.first());
        lemma_apply_inserts_wf(m.insert_char_spec(cs.first()), cs.drop_first());
    }
}

proof fn lemma_apply_backspaces_wf(m: EditorModel, n: nat)
    requires
        m.wf(),
    ensures
        apply_backspaces(m, n).wf(),
    decreases n,
{
    if n > 0 {
        lemma_backspace_wf(m);
        lemma_apply_backspaces_wf(m.backspace_spec(), (n - 1) as nat);
    }
}

proof fn lemma_backspaces_last(m: EditorModel, n: nat)
    ensures
        apply_backspaces(m, n + 1) == apply_backspaces(m, n).backspace_spec(),
    decreases n,
{
    if n == 0 {
        assert(apply_backspaces(m, 1) == apply_backspaces(m.backspace_spec(), 0));
        assert(apply_backspaces(m.backspace_spec(), 0) == m.backspace_spec());
    } else {
        lemma_backspaces_last(m.backspace_spec(), (n - 1) as nat);
        assert(apply_backspaces(m, n + 1) == apply_backspaces(m.backspace_spec(), n));
        assert(apply_backspaces(m, n) == apply_backspaces(m.backspace_spec(), (n - 1) as nat));
    }
}

/// A backward deletion looks only at the lines, the cursor and the editable
/// flag, so two editors that agree on those stay in agreement through it.
proof fn lemma_backspace_congruence(a: EditorModel, b: EditorModel)
    requires
        a.wf(),
        b.wf(),
        a.same_content(b),
    ensures
        a.backspace_spec().same_content(b.backspace_spec()),
{
}

/// Any run of insertions followed by as many backward deletions returns the
/// editor to its original lines and cursor position, from any well-formed
/// starting state (the viewport may end elsewhere; it shows, but is not,
/// content).
pub proof fn lemma_insert_backspace_round_trip(m: EditorModel, cs: Seq<char>)
    requires
        m.wf(),
    ensures
        apply_backspaces(apply_inserts(m, cs), cs.len()).same_content(m),
    decreases cs.len(),
{
    if cs.len() > 0 {
        let c = cs.first();
        let rest = cs.drop_first();
        let m1 = m.insert_char_spec(c);
        lemma_insert_char_wf(m, c);
        lemma_insert_backspace_round_trip(m1, rest);
        let x = apply_inserts(m1, rest);
        lemma_apply_inserts_wf(m1, rest);
        let y = apply_backspaces(x, rest.len());
        lemma_apply_backspaces_wf(x, rest.len());
        lemma_backspaces_last(x, rest.len());
        lemma_backspace_congruence(y, m1);
        lemma_insert_then_backspace(m, c);
    }
}

/// Splits a character sequence into lines at `'\n'`; the separators are
/// dropped, empty lines are kept, and an empty input gives one empty line.
pub open spec fn split_lines(s: Seq<char>) -> Seq<Seq<char>>
    decreases s.len(),
{
    if s.len() == 0 {
        seq![Seq::<char>::empty()]
    } else {
        let rest = split_lines(s.drop_last());
        if s.last() == '\n' {
            rest.push(Seq::<char>::empty())
        } else {
            rest.update(rest.len() - 1, rest.last().push(s.last()))
        }
    }
}

/// Joins lines with `'\n'` between them.
pub open spec fn join_lines(ls: Seq<Seq<char>>) -> Seq<char>
    decreases ls.len(),
{
    if ls.len() == 0 {
        Seq::<char>::empty()
    } else if ls.len() == 1 {
        ls[0]
    } else {
        join_lines(ls.drop_last()) + seq!['\n'] + ls.last()
    }
}

/// Splitting always yields at least one line.
pub proof fn lemma_split_lines_nonempty(s: Seq<char>)
    ensures
        split_lines(s).len() >= 1,
    decreases s.len(),
{
    if s.len() > 0 {
        lemma_split_lines_nonempty(s.drop_last());
    }
}

proof fn lemma_join_push(ls: Seq<Seq<char>>, c: char)
    requires
        ls.len() >= 1,
    ensures
        join_lines(ls.update(ls.len() - 1, ls.last().push(c))) =~= join_lines(ls).push(c),
    decreases ls.len(),
{
    let upd = ls.update(ls.len() - 1, ls.last().push(c));
    if ls.len() == 1 {
        assert(join_lines(upd) =~= ls[0].push(c));
    } else {
        assert(upd.drop_last() =~= ls.drop_last());
        assert(join_lines(upd) =~= join_lines(ls.drop_last()) + seq!['\n'] + ls.last().push(c));
    }
}

/// Splitting a text into lines and joining them again gives the text back.
///
/// This is the content half of the editor's round-trip law: building an
/// editor from a text and reading it out yields the same text; the cursor is
/// reset by construction and is deliberately not part of the law.
pub proof fn lemma_text_round_trip(s: Seq<char>)
    ensures
        join_lines(split_lines(s)) == s,
    decreases s.len(),
{
    if s.len() == 0 {
        assert(join_lines(split_lines(s)) =~= s);
    } else {
        let t = s.drop_last();
        lemma_text_round_trip(t);
        lemma_split_lines_nonempty(t);
        if s.last() == '\n' {
            assert(split_lines(s) =~= split_lines(t).push(Seq::<char>::empty()));
            assert(split_lines(s).drop_last() =~= split_lines(t));
            assert(join_lines(split_lines(s)) =~= join_lines(split_lines(t)) + seq!['\n']);
            assert(t + seq!['\n'] =~= s);
        } else {
            lemma_join_push(split_lines(t), s.last());
            assert(join_lines(split_lines(s)) =~= join_lines(split_lines(t)).push(s.last()));
            assert(t.push(s.last()) =~= s);
        }
    }
}

/// A multi-line text entry widget: lines of characters, a cursor addressed by
/// (line, column) in character units, and a vertical scroll window.
#[derive(Debug, Clone)]
pub struct TextInput {
    lines: Vec<Vec<char>>,
    cursor_line: usize,
    cursor_col: usize,
    scroll_offset: usize,
    max_visible_lines: usize,
    editable: bool,
}

impl View for TextInput {
    type V = EditorModel;

    closed spec fn view(&self) -> EditorModel {
        EditorModel {
            lines: self.lines@.map_values(|l: Vec<char>| l@),
            cursor_line: self.cursor_line as int,
            cursor_col: self.cursor_col as int,
            scroll: self.scroll_offset as int,
            max_visible: self.max_visible_lines as int,
            editable: self.editable,
        }
    }
}

/// The model of a freshly constructed empty editor.
pub open spec fn empty_editor() -> EditorModel {
    EditorModel {
        lines: seq![Seq::<char>::empty()],
        cursor_line: 0,
        cursor_col: 0,
        scroll: 0,
        max_visible: 10,
        editable: true,
    }
}

/// The model of an editor built from a text: the text split into lines, the
/// cursor at the end of the last line, the viewport at the top.
pub open spec fn editor_of_text(text: Seq<char>) -> EditorModel {
    let lines = split_lines(text);
    EditorModel {
        lines: lines,
        cursor_line: lines.len() - 1,
        cursor_col: lines.last().len() as int,
        scroll: 0,
        max_visible: 10,
        editable: true,
    }
}

impl TextInput {
    /// An empty, editable editor holding one empty line.
    pub fn new() -> (r: TextInput)
        ensures
            r@ == empty_editor(),
            r@.wf(),
    {
        let mut lines: Vec<Vec<char>> = Vec::new();
        lines.push(Vec::new());
        let r = TextInput {
            lines,
            cursor_line: 0,
            cursor_col: 0,
            scroll_offset: 0,
            max_visible_lines: 10,
            editable: true,
        };
        proof {
            assert(r@.lines =~= empty_editor().lines);
        }
        r
    }

    /// An editor seeded with `text`, split into lines at `'\n'`, the cursor
    /// at the end.
    pub fn with_text(text: String) -> (r: TextInput)
        ensures
            r@ == editor_of_text(text@),
            r@.wf(),
    {
        let chars = str_chars(text.as_str());
        let mut lines: Vec<Vec<char>> = Vec::new();
        lines.push(Vec::new());
        let mut i: usize = 0;
        proof {
            assert(lines@.map_values(|l: Vec<char>| l@) =~= split_lines(text@.subrange(0, 0)));
        }
        while i < chars.len()
            invariant
                chars@ == text@,
                0 <= i <= chars@.len(),
                lines@.len() >= 1,
                lines@.map_values(|l: Vec<char>| l@) =~= split_lines(text@.subrange(0, i as int)),
            decreases chars@.len() - i,
        {
            let ghost prefix = text@.subrange(0, i as int);
            let ghost next = text@.subrange(0, i + 1);
            proof {
                assert(next.drop_last() =~= prefix);
                lemma_split_lines_nonempty(prefix);
            }
            let c = chars[i];
            if c == '\n' {
                lines.push(Vec::new());
                proof {
                    assert(lines@.map_values(|l: Vec<char>| l@) =~= split_lines(next));
                }
            } else {
                let last = lines.len() - 1;
                lines[last].push(c);
                proof {
                    assert(lines@.map_values(|l: Vec<char>| l@) =~= split_lines(next));
                }
            }
            i = i + 1;
        }
        proof {
            assert(text@.subrange(0, text@.len() as int) =~= text@);
            lemma_split_lines_nonempty(text@);
        }
        let cursor_line = lines.len() - 1;
        let cursor_col = lines[cursor_line].len();
        TextInput {
            lines,
            cursor_line,
            cursor_col,
            scroll_offset: 0,
            max_visible_lines: 10,
            editable: true,
        }
    }

    /// Turns editing on or off; a read-only editor ignores every mutation.
    pub fn set_editable(&mut self, editable: bool)
        ensures
            final(self)@ == (EditorModel { editable: editable, ..old(self)@ }),
    {
        self.editable = editable;
    }

    /// The buffered text: the lines joined with `'\n'`.
    pub fn get_text(&self) -> (r: String)
        requires
            self@.wf(),
        ensures
            r@ == join_lines(self@.lines),
    {
        let mut acc: Vec<char> = Vec::new();
        let ghost all = self@.lines;
        let mut i: usize = 0;
        proof {
            assert(all.subrange(0, 1) =~= seq![all[0]]);
        }
        while i < self.lines.len()
            invariant
                all == self@.lines,
                self.lines@.len() == all.len() >= 1,
                forall|j: int| 0 <= j < all.len() ==> self.lines@[j]@ == all[j],
                0 <= i <= all.len(),
                acc@ == join_lines(all.subrange(0, i as int)),
            decreases all.len() - i,
        {
            if i > 0 {
                acc.push('\n');
            }
            let ghost before = acc@;
            let line = &self.lines[i];
            let mut j: usize = 0;
            while j < line.len()
                invariant
                    line@ == all[i as int],
                    0 <= j <= line@.len(),
                    acc@ == before + line@.subrange(0, j as int),
                decreases line@.len() - j,
            {
                acc.push(line[j]);
                assert(acc@ =~= before + line@.subrange(0, j + 1));
                j = j + 1;
            }
            proof {
                let prefix = all.subrange(0, i as int);
                let next = all.subrange(0, i + 1);
                assert(next.drop_last() =~= prefix);
                assert(line@.subrange(0, line@.len() as int) =~= all[i as int]);
                if i == 0 {
                    assert(acc@ =~= join_lines(next));
                } else {
                    assert(acc@ =~= join_lines(prefix) + seq!['\n'] + all[i as int]);
                    assert(acc@ =~= join_lines(next));
                }
            }
            i = i + 1;
        }
        proof {
            assert(all.subrange(0, all.len() as int) =~= all);
        }
        chars_to_string(&acc)
    }

    /// Resets the buffer to one empty line with the cursor at its start; a
    /// no-op when read-only, and the viewport height is kept either way.
    pub fn clear(&mut self)
        requires
            old(self)@.wf(),
        ensures
            final(self)@ == (if old(self)@.editable {
                EditorModel { max_visible: old(self)@.max_visible, ..empty_editor() }
            } else {
                old(self)@
            }),
            final(self)@.wf(),
    {
        if !self.editable {
            return ;
        }
        let mut lines: Vec<Vec<char>> = Vec::new();
        lines.push(Vec::new());
        self.lines = lines;
        self.cursor_line = 0;
        self.cursor_col = 0;
        self.scroll_offset = 0;
        proof {
            assert(self@.lines =~= seq![Seq::<char>::empty()]);
        }
    }

    /// Sets the viewport height used by scroll adjustment, at least 1.
    pub fn set_max_visible_lines(&mut self, height: usize)
        requires
            old(self)@.wf(),
        ensures
            final(self)@ == (EditorModel {
                max_visible: if height == 0 {
                    1
                } else if height > 0x10000 {
                    0x10000
                } else {
                    height as int
                },
                ..old(self)@
            }),
            final(self)@.wf(),
    {
        self.max_visible_lines = if height == 0 {
            1
        } else if height > 0x10000 {
            0x10000
        } else {
            height
        };
    }

    /// Pulls the viewport to the cursor, as [`EditorModel::adjusted`] says.
    fn adjust_scroll(&mut self)
        requires
            old(self)@.wf_core(),
        ensures
            final(self)@ == old(self)@.adjusted(),
            final(self)@.wf(),
    {
        if self.cursor_line < self.scroll_offset {
            self.scroll_offset = self.cursor_line;
        }
        if self.cursor_line - self.scroll_offset >= self.max_visible_lines {
            self.scroll_offset = self.cursor_line - (self.max_visible_lines - 1);
        }
    }

    /// Inserts `c` at the cursor and advances the cursor past it; a no-op
    /// when the editor is read-only.
    pub fn insert_char(&mut self, c: char)
        requires
            old(self)@.wf(),
        ensures
            final(self)@ == old(self)@.insert_char_spec(c),
            final(self)@.wf(),
    {
        if !self.editable {
            return;
        }
        let l = self.cursor_line;
        let col = self.cursor_col;
        self.lines[l].insert(col, c);
        proof {
            assert(self.lines@[l as int].len() == self.lines@[l as int]@.len());
        }
        self.cursor_col = col + 1;
        proof {
            assert(self@.lines =~= old(self)@.lines.update(
                l as int,
                old(self)@.lines[l as int].insert(col as int, c),
            ));
        }
        self.adjust_scroll();
    }

    /// Splits the cursor's line at the cursor; the cursor moves to column 0
    /// of the new second line. A no-op when read-only.
    pub fn insert_newline(&mut self)
        requires
            old(self)@.wf(),
        ensures
            final(self)@ == old(self)@.insert_newline_spec(),
            final(self)@.wf(),
    {
        if !self.editable {
            return;
        }
        let l = self.cursor_line;
        let col = self.cursor_col;
        let right = self.lines[l].split_off(col);
        proof {
            assert(self.lines.len() == self.lines@.len());
        }
        self.lines.insert(l + 1, right);
        self.cursor_line = l + 1;
        self.cursor_col = 0;
        proof {
            let line = old(self)@.lines[l as int];
            assert(self@.lines =~= old(self)@.lines.update(
                l as int,
                line.subrange(0, col as int),
            ).insert(l + 1, line.subrange(col as int, line.len() as int)));
        }
        self.adjust_scroll();
    }

    /// Forward delete at the cursor; merges the next line in at end-of-line;
    /// a no-op on the last line's end or when read-only.
    pub fn delete_char(&mut self)
        requires
            old(self)@.wf(),
        ensures
            final(self)@ == old(self)@.delete_char_spec(),
            final(self)@.wf(),
    {
        if !self.editable {
            return;
        }
        let l = self.cursor_line;
        let col = self.cursor_col;
        proof {
            assert(self.lines.len() == self.lines@.len());
        }
        if col < self.lines[l].len() {
            self.lines[l].remove(col);
            proof {
                assert(self@.lines =~= old(self)@.lines.update(
                    l as int,
                    old(self)@.lines[l as int].remove(col as int),
                ));
            }
        } else if l + 1 < self.lines.len() {
            let mut next = self.lines.remove(l + 1);
            self.lines[l].append(&mut next);
            proof {
                assert(self@.lines =~= old(self)@.lines.update(
                    l as int,
                    old(self)@.lines[l as int] + old(self)@.lines[l + 1],
                ).remove(l + 1));
            }
        }
    }

    /// Backward delete before the cursor; merges this line into the previous
    /// one at column 0; a no-op at the buffer's start or when read-only.
    pub fn backspace(&mut self)
        requires
            old(self)@.wf(),
        ensures
            final(self)@ == old(self)@.backspace_spec(),
            final(self)@.wf(),
    {
        if !self.editable {
            return;
        }
        let l = self.cursor_line;
        let col = self.cursor_col;
        if col > 0 {
            self.lines[l].remove(col - 1);
            self.cursor_col = col - 1;
            proof {
                assert(self@.lines =~= old(self)@.lines.update(
                    l as int,
                    old(self)@.lines[l as int].remove(col - 1),
                ));
            }
        } else if l > 0 {
            let mut removed = self.lines.remove(l);
            let prev_len = self.lines[l - 1].len();
            self.lines[l - 1].append(&mut removed);
            self.cursor_line = l - 1;
            self.cursor_col = prev_len;
            proof {
                assert(self@.lines =~= old(self)@.lines.update(
                    l - 1,
                    old(self)@.lines[l - 1] + old(self)@.lines[l as int],
                ).remove(l as int));
            }
        }
        self.adjust_scroll();
    }

    /// One step left, wrapping to the previous line's end.
    pub fn move_cursor_left(&mut self)
        requires
            old(self)@.wf(),
        ensures
            final(self)@ == old(self)@.move_left_spec(),
            final(self)@.wf(),
    {
        if self.cursor_col > 0 {
            self.cursor_col = self.cursor_col - 1;
        } else if self.cursor_line > 0 {
            self.cursor_line = self.cursor_line - 1;
            self.cursor_col = self.lines[self.cursor_line].len();
        }
        self.adjust_scroll();
    }

    /// One step right, wrapping to the next line's start.
    pub fn move_cursor_right(&mut self)
        requires
            old(self)@.wf(),
        ensures
            final(self)@ == old(self)@.move_right_spec(),
            final(self)@.wf(),
    {
        let l = self.cursor_line;
        let col = self.cursor_col;
        proof {
            assert(self.lines.len() == self.lines@.len());
            assert(self.lines@[l as int].len() == self.lines@[l as int]@.len());
        }
        if col < self.lines[l].len() {
            self.cursor_col = col + 1;
        } else if l + 1 < self.lines.len() {
            self.cursor_line = l + 1;
            self.cursor_col = 0;
        }
        self.adjust_scroll();
    }

    /// One line up, clamping the column to the target line's length.
    pub fn move_cursor_up(&mut self)
        requires
            old(self)@.wf(),
        ensures
            final(self)@ == old(self)@.move_up_spec(),
            final(self)@.wf(),
    {
        if self.cursor_line > 0 {
            self.cursor_line = self.cursor_line - 1;
            let len = self.lines[self.cursor_line].len();
            if self.cursor_col > len {
                self.cursor_col = len;
            }
        }
        self.adjust_scroll();
    }

    /// One line down, clamping the column to the target line's length.
    pub fn move_cursor_down(&mut self)
        requires
            old(self)@.wf(),
        ensures
            final(self)@ == old(self)@.move_down_spec(),
            final(self)@.wf(),
    {
        proof {
            assert(self.lines.len() == self.lines@.len());
        }
        if self.cursor_line + 1 < self.lines.len() {
            self.cursor_line = self.cursor_line + 1;
            let len = self.lines[self.cursor_line].len();
            if self.cursor_col > len {
                self.cursor_col = len;
            }
        }
        self.adjust_scroll();
    }

    /// Moves the cursor to column 0 of its line.
    pub fn move_to_line_start(&mut self)
        requires
            old(self)@.wf(),
        ensures
            final(self)@ == (EditorModel { cursor_col: 0, ..old(self)@ }),
            final(self)@.wf(),
    {
        self.cursor_col = 0;
    }

    /// Moves the cursor to the end of its line.
    pub fn move_to_line_end(&mut self)
        requires
            old(self)@.wf(),
        ensures
            final(self)@ == (EditorModel {
                cursor_col: old(self)@.lines[old(self)@.cursor_line].len() as int,
                ..old(self)@
            }),
            final(self)@.wf(),
    {
        self.cursor_col = self.lines[self.cursor_line].len();
    }

    /// Empties the cursor's line and moves the cursor to column 0; a no-op
    /// when read-only.
    pub fn clear_current_line(&mut self)
        requires
            old(self)@.wf(),
        ensures
            final(self)@ == (if old(self)@.editable {
                EditorModel {
                    lines: old(self)@.lines.update(old(self)@.cursor_line, Seq::<char>::empty()),
                    cursor_col: 0,
                    ..old(self)@
                }
            } else {
                old(self)@
            }),
            final(self)@.wf(),
    {
        if !self.editable {
            return;
        }
        let l = self.cursor_line;
        self.lines[l].clear();
        self.cursor_col = 0;
        proof {
            assert(self@.lines =~= old(self)@.lines.update(l as int, Seq::<char>::empty()));
        }
    }

    /// Truncates the cursor's line at the cursor; a no-op when read-only.
    pub fn delete_to_line_end(&mut self)
        requires
            old(self)@.wf(),
        ensures
            final(self)@ == (if old(self)@.editable {
                EditorModel {
                    lines: old(self)@.lines.update(
                        old(self)@.cursor_line,
                        old(self)@.lines[old(self)@.cursor_line].subrange(
                            0,
                            old(self)@.cursor_col,
                        ),
                    ),
                    ..old(self)@
                }
            } else {
                old(self)@
            }),
            final(self)@.wf(),
    {
        if !self.editable {
            return;
        }
        let l = self.cursor_line;
        let col = self.cursor_col;
        self.lines[l].truncate(col);
        proof {
            assert(self@.lines =~= old(self)@.lines.update(
                l as int,
                old(self)@.lines[l as int].subrange(0, col as int),
            ));
        }
    }

    /// Deletes the run of whitespace and then the run of non-whitespace
    /// immediately before the cursor; the cursor moves to the deletion point.
    pub fn delete_word_backward(&mut self)
        requires
            old(self)@.wf(),
        ensures
            final(self)@ == old(self)@.delete_word_backward_spec(),
            final(self)@.wf(),
    {
        if !self.editable {
            return;
        }
        let l = self.cursor_line;
        let col = self.cursor_col;
        if col == 0 {
            return;
        }
        let ghost line = self@.lines[l as int];
        let mut nc: usize = col;
        while nc > 0 && is_space_char(self.lines[l][nc - 1])
            invariant
                *self == *old(self),
                line == self@.lines[l as int],
                l == self@.cursor_line,
                col == self@.cursor_col,
                self@.wf(),
                0 <= nc <= col,
                EditorModel::skip_spaces_back(line, col as int)
                    == EditorModel::skip_spaces_back(line, nc as int),
            decreases nc,
        {
            nc = nc - 1;
        }
        assert(EditorModel::skip_spaces_back(line, col as int) == nc);
        let ghost mid = nc as int;
        while nc > 0 && !is_space_char(self.lines[l][nc - 1])
            invariant
                *self == *old(self),
                line == self@.lines[l as int],
                l == self@.cursor_line,
                col == self@.cursor_col,
                self@.wf(),
                0 <= nc <= col,
                EditorModel::skip_nonspaces_back(line, mid)
                    == EditorModel::skip_nonspaces_back(line, nc as int),
            decreases nc,
        {
            nc = nc - 1;
        }
        assert(EditorModel::word_start(line, col as int) == nc);
        let mut tail = self.lines[l].split_off(col);
        self.lines[l].truncate(nc);
        self.lines[l].append(&mut tail);
        self.cursor_col = nc;
        proof {
            assert(line.subrange(0, col as int).subrange(0, nc as int) =~= line.subrange(
                0,
                nc as int,
            ));
            assert(self@.lines =~= old(self)@.lines.update(
                l as int,
                line.subrange(0, nc as int) + line.subrange(col as int, line.len() as int),
            ));
        }
    }
}

impl Default for TextInput {
    /// The same editor as [`TextInput::new`].
    fn default() -> (r: TextInput)
        ensures
            r@ == empty_editor(),
            r@.wf(),
    {
        TextInput::new()
    }
}

} // verus!
