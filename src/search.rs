//! The search box: its text, the cursor within it, and which pane has focus.
use vstd::prelude::*;
use crate::ui::{Focus, InputMode};

verus! {

/// Relies on std's `String::push`: appends `c` to `s`.
#[verifier::external_body]
fn push_char(s: &mut String, c: char)
    ensures
        final(s)@ == old(s)@.push(c),
{
    s.push(c)
}

/// The smaller of `a` and `b`.
pub open spec fn min_int(a: int, b: int) -> int {
    if a <= b {
        a
    } else {
        b
    }
}

/// The search box. `character_index` counts characters, not bytes.
#[derive(Debug, Clone)]
pub struct Search {
    pub input: String,
    pub character_index: usize,
    pub focused: bool,
    pub input_mode: InputMode,
}

impl Search {
    /// The text typed so far.
    pub open spec fn text(&self) -> Seq<char> {
        self.input@
    }

    /// An empty, unfocused search box in normal mode.
    pub fn new() -> (r: Self)
        ensures
            r.text().len() == 0,
            r.character_index == 0,
            !r.focused,
            r.input_mode == InputMode::Normal,
    {
        Search { input: String::new(), character_index: 0, focused: false, input_mode: InputMode::Normal }
    }

    /// The text typed so far.
    pub fn input(&self) -> (r: &str)
        ensures
            r@ == self.text(),
    {
        self.input.as_str()
    }

    /// `new_cursor_pos`, kept within the text.
    pub fn clamp_cursor(&self, new_cursor_pos: usize) -> (r: usize)
        ensures
            r == min_int(new_cursor_pos as int, self.text().len() as int),
    {
        let n = self.input.as_str().unicode_len();
        if new_cursor_pos <= n {
            new_cursor_pos
        } else {
            n
        }
    }

    /// One character to the left, stopping at the start.
    pub fn move_cursor_left(&mut self)
        ensures
            final(self).text() == old(self).text(),
            final(self).character_index == min_int(
                if old(self).character_index > 0 {
                    old(self).character_index - 1
                } else {
                    0
                },
                old(self).text().len() as int,
            ),
            final(self).focused == old(self).focused,
            final(self).input_mode == old(self).input_mode,
    {
        let moved = if self.character_index > 0 {
            self.character_index - 1
        } else {
            0
        };
        self.character_index = self.clamp_cursor(moved);
    }

    /// One character to the right, stopping at the end.
    pub fn move_cursor_right(&mut self)
        ensures
            final(self).text() == old(self).text(),
            final(self).character_index == min_int(
                if old(self).character_index < usize::MAX {
                    old(self).character_index + 1
                } else {
                    usize::MAX as int
                },
                old(self).text().len() as int,
            ),
            final(self).focused == old(self).focused,
            final(self).input_mode == old(self).input_mode,
    {
        let moved = if self.character_index < usize::MAX {
            self.character_index + 1
        } else {
            usize::MAX
        };
        self.character_index = self.clamp_cursor(moved);
    }

    /// Inserts `new_char` at the cursor (at the end where the cursor is past
    /// it) and moves the cursor past it.
    pub fn enter_char(&mut self, new_char: char)
        requires
            old(self).text().len() < usize::MAX,
        ensures
            ({
                let k = min_int(old(self).character_index as int, old(self).text().len() as int);
                &&& final(self).text() == old(self).text().take(k).push(new_char) + old(self).text().skip(k)
                &&& final(self).character_index == min_int(
                    if old(self).character_index < usize::MAX {
                        old(self).character_index + 1
                    } else {
                        usize::MAX as int
                    },
                    old(self).text().len() as int + 1,
                )
            }),
            final(self).focused == old(self).focused,
            final(self).input_mode == old(self).input_mode,
    {
        let n = self.input.as_str().unicode_len();
        let k = if self.character_index <= n {
            self.character_index
        } else {
            n
        };
        let mut updated = String::from_str(self.input.as_str().substring_char(0, k));
        push_char(&mut updated, new_char);
        updated.append(self.input.as_str().substring_char(k, n));
        proof {
            assert(self.input@.subrange(0, k as int) =~= self.input@.take(k as int));
            assert(self.input@.subrange(k as int, n as int) =~= self.input@.skip(k as int));
        }
        self.input = updated;
        self.move_cursor_right();
    }

    /// Removes the character before the cursor and moves the cursor back
    /// over it; nothing happens with the cursor at the start.
    pub fn delete_char(&mut self)
        ensures
            old(self).character_index == 0 ==> final(self).text() == old(self).text()
                && final(self).character_index == 0,
            old(self).character_index != 0 ==> {
                let n = old(self).text().len() as int;
                let before = min_int(old(self).character_index - 1, n);
                let after = min_int(old(self).character_index as int, n);
                &&& final(self).text() == old(self).text().take(before) + old(self).text().skip(after)
                &&& final(self).character_index == min_int(
                    old(self).character_index - 1,
                    final(self).text().len() as int,
                )
            },
            final(self).focused == old(self).focused,
            final(self).input_mode == old(self).input_mode,
    {
        if self.character_index != 0 {
            let n = self.input.as_str().unicode_len();
            let current_index = self.character_index;
            let from_left = current_index - 1;
            let before = if from_left <= n {
                from_left
            } else {
                n
            };
            let after = if current_index <= n {
                current_index
            } else {
                n
            };
            let mut updated = String::from_str(self.input.as_str().substring_char(0, before));
            updated.append(self.input.as_str().substring_char(after, n));
            proof {
                assert(self.input@.subrange(0, before as int) =~= self.input@.take(before as int));
                assert(self.input@.subrange(after as int, n as int) =~= self.input@.skip(after as int));
            }
            self.input = updated;
            self.move_cursor_left();
        }
    }

    /// Empties the box and puts the cursor at the start.
    pub fn reset_cursor(&mut self)
        ensures
            final(self).text().len() == 0,
            final(self).character_index == 0,
            final(self).focused == old(self).focused,
            final(self).input_mode == old(self).input_mode,
    {
        self.input = String::new();
        self.character_index = 0;
    }

    /// The search request for the text typed so far.
    pub fn submit_message(&self) -> (r: String)
        ensures
            r@ == self.text(),
    {
        self.input.clone()
    }
}

/// Which of the main window's panes have focus, and the search box.
#[derive(Debug, Clone)]
pub struct MainWindow {
    pub search: Search,
    pub library_focused: bool,
    pub content_focused: bool,
}

impl MainWindow {
    /// Gives focus to the pane that `focus` names and takes it from the
    /// others. Any pane but the search box also returns it to normal mode.
    pub fn set_focus(&mut self, focus: Focus)
        ensures
            final(self).search.focused == (focus == Focus::Search),
            final(self).library_focused == (focus == Focus::Library),
            final(self).content_focused == (focus == Focus::Content),
            final(self).search.input_mode == (if focus == Focus::Search {
                old(self).search.input_mode
            } else {
                InputMode::Normal
            }),
            final(self).search.text() == old(self).search.text(),
            final(self).search.character_index == old(self).search.character_index,
    {
        self.search.focused = focus == Focus::Search;
        if focus != Focus::Search {
            self.search.input_mode = InputMode::Normal;
        }
        self.library_focused = focus == Focus::Library;
        self.content_focused = focus == Focus::Content;
    }
}

} // verus!
