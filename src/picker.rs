//! The interactive picker's state: entries, query, selection and scroll, and
//! how each key press changes it.

use vstd::prelude::*;
use crate::paths::{join_path, joined};
use crate::order::{is_newest_first, sort_newest_first, views};
use crate::text::{chars_of, push_char, string_of};

verus! {

/// A key as the picker distinguishes it.
#[derive(Clone, Copy, Debug, PartialEq, Eq)]
pub enum KeyCode {
    Esc,
    Up,
    Down,
    Enter,
    Backspace,
    Char(char),
    Other,
}

/// The modifier keys held with a key.
#[derive(Clone, Copy, Debug, PartialEq, Eq)]
pub enum Modifiers {
    Plain,
    Control,
    Other,
}

/// One key event: the key, its modifiers, and whether it is a press (rather
/// than a repeat or a release).
#[derive(Clone, Copy, Debug, PartialEq, Eq)]
pub struct KeyPress {
    pub code: KeyCode,
    pub modifiers: Modifiers,
    pub is_press: bool,
}

/// What a key press asks of the picker.
#[derive(Clone, Copy, Debug, PartialEq, Eq)]
pub enum Action {
    Cancel,
    MoveUp,
    MoveDown,
    Select,
    Erase,
    Type(char),
    Ignore,
}

/// Control characters: Unicode general category Cc.
pub open spec fn is_control_char(c: char) -> bool {
    (c as u32) <= 0x1f || (0x7f <= (c as u32) && (c as u32) <= 0x9f)
}

/// The picker's key bindings.
pub open spec fn key_action(k: KeyPress) -> Action {
    if !k.is_press {
        Action::Ignore
    } else {
        match k.code {
            KeyCode::Esc => Action::Cancel,
            KeyCode::Up => Action::MoveUp,
            KeyCode::Down => Action::MoveDown,
            KeyCode::Enter => Action::Select,
            KeyCode::Backspace => Action::Erase,
            KeyCode::Char(c) => {
                if k.modifiers == Modifiers::Control && c == 'c' {
                    Action::Cancel
                } else if k.modifiers == Modifiers::Control && c == 'p' {
                    Action::MoveUp
                } else if k.modifiers == Modifiers::Control && c == 'n' {
                    Action::MoveDown
                } else if k.modifiers == Modifiers::Plain && !is_control_char(c) {
                    Action::Type(c)
                } else {
                    Action::Ignore
                }
            },
            KeyCode::Other => Action::Ignore,
        }
    }
}

/// Whether `c` is a control character.
fn is_control(c: char) -> (r: bool)
    ensures
        r == is_control_char(c),
{
    let u = c as u32;
    u <= 0x1f || (0x7f <= u && u <= 0x9f)
}

impl KeyPress {
    /// What this key press asks of the picker.
    pub fn action(&self) -> (r: Action)
        ensures
            r == key_action(*self),
    {
        if !self.is_press {
            return Action::Ignore;
        }
        match self.code {
            KeyCode::Esc => Action::Cancel,
            KeyCode::Up => Action::MoveUp,
            KeyCode::Down => Action::MoveDown,
            KeyCode::Enter => Action::Select,
            KeyCode::Backspace => Action::Erase,
            KeyCode::Char(c) => {
                let control = match self.modifiers {
                    Modifiers::Control => true,
                    _ => false,
                };
                let plain = match self.modifiers {
                    Modifiers::Plain => true,
                    _ => false,
                };
                if control && c == 'c' {
                    Action::Cancel
                } else if control && c == 'p' {
                    Action::MoveUp
                } else if control && c == 'n' {
                    Action::MoveDown
                } else if plain && !is_control(c) {
                    Action::Type(c)
                } else {
                    Action::Ignore
                }
            },
            KeyCode::Other => Action::Ignore,
        }
    }
}

/// The picker's state as values.
pub ghost struct PickerState {
    pub root: Seq<char>,
    pub entries: Seq<Seq<char>>,
    pub query: Seq<char>,
    pub selected: nat,
    pub scroll: nat,
}

impl PickerState {
    /// The selection is an entry (or 0 when there is none), and an empty list
    /// is never scrolled.
    pub open spec fn wf(self) -> bool {
        &&& (self.entries.len() == 0 ==> self.selected == 0 && self.scroll == 0)
        &&& (self.entries.len() > 0 ==> self.selected < self.entries.len())
    }

    /// The state after moving the selection up one row (stopping at the top).
    pub open spec fn moved_up(self) -> PickerState {
        PickerState { selected: if self.selected > 0 { (self.selected - 1) as nat } else { 0 }, ..self }
    }

    /// The state after moving the selection down one row (stopping at the bottom).
    pub open spec fn moved_down(self) -> PickerState {
        PickerState {
            selected: if self.selected + 1 < self.entries.len() {
                self.selected + 1
            } else {
                self.selected
            },
            ..self
        }
    }

    /// The scroll offset that brings the selection into a window of `height` rows.
    pub open spec fn visible_scroll(self, height: nat) -> nat {
        if self.entries.len() == 0 {
            self.scroll
        } else if self.selected < self.scroll {
            self.selected
        } else if self.selected >= self.scroll + height {
            (self.selected + 1 - height) as nat
        } else {
            self.scroll
        }
    }

    /// The path of the selected entry.
    pub open spec fn selected_path(self) -> Seq<char> {
        joined(self.root, self.entries[self.selected as int])
    }
}

/// The state after a run of moves, in order: `true` moves down, `false` up.
pub open spec fn after_moves(s: PickerState, moves: Seq<bool>) -> PickerState
    decreases moves.len(),
{
    if moves.len() == 0 {
        s
    } else {
        let t = if moves[0] {
            s.moved_down()
        } else {
            s.moved_up()
        };
        after_moves(t, moves.drop_first())
    }
}

/// On a non-empty list, any run of moves up and down leaves the entries as
/// they were and the selection on one of them.
pub proof fn lemma_moves_keep_selection(s: PickerState, moves: Seq<bool>)
    requires
        s.wf(),
        s.entries.len() > 0,
    ensures
        after_moves(s, moves).wf(),
        after_moves(s, moves).entries == s.entries,
        after_moves(s, moves).selected < s.entries.len(),
    decreases moves.len(),
{
    if moves.len() > 0 {
        let t = if moves[0] {
            s.moved_down()
        } else {
            s.moved_up()
        };
        lemma_moves_keep_selection(t, moves.drop_first());
    }
}

/// How the picker goes on after a key press.
#[derive(Debug, PartialEq, Eq)]
pub enum Transition {
    /// Keep reading keys.
    Continue,
    /// The user chose the workspace at this path.
    Selected(String),
    /// The user left without choosing.
    Cancelled,
}

/// The text of a list row: a marker for the selected row, a folder sign, the name.
pub open spec fn row_text(name: Seq<char>, highlighted: bool) -> Seq<char> {
    (if highlighted {
        "→ "@
    } else {
        "  "@
    }) + "📁 "@ + name
}

/// One visible row of the list.
#[derive(Debug, PartialEq, Eq)]
pub struct Row {
    pub text: String,
    pub highlighted: bool,
}

/// What the picker shows: the query line and the visible rows, top first.
#[derive(Debug, PartialEq, Eq)]
pub struct Frame {
    pub query_line: String,
    pub rows: Vec<Row>,
}

/// The picker over the workspaces under one root.
pub struct App {
    root: String,
    entries: Vec<String>,
    query: Vec<char>,
    selected: usize,
    scroll: usize,
}

impl View for App {
    type V = PickerState;

    closed spec fn view(&self) -> PickerState {
        PickerState {
            root: self.root@,
            entries: self.entries@.map_values(|e: String| e@),
            query: self.query@,
            selected: self.selected as nat,
            scroll: self.scroll as nat,
        }
    }
}

impl App {
    /// The state's invariant.
    pub open spec fn wf(&self) -> bool {
        self@.wf()
    }

    /// The picker over the directories `names` under `root`, newest first,
    /// with the first entry selected and `initial_query` as the typed text.
    pub fn new(root: String, names: Vec<String>, initial_query: Option<String>) -> (r: App)
        ensures
            r.wf(),
            r@.root == root@,
            r@.entries.len() == names@.len(),
            r@.entries.to_multiset() == views(names@).to_multiset(),
            is_newest_first(r@.entries),
            r@.query == (match initial_query {
                Some(q) => q@,
                None => Seq::empty(),
            }),
            r@.selected == 0,
            r@.scroll == 0,
    {
        let entries = sort_newest_first(&names);
        proof {
            vstd::seq_lib::to_multiset_len(views(entries@));
            vstd::seq_lib::to_multiset_len(views(names@));
        }
        let query = match initial_query {
            Some(q) => chars_of(q.as_str()),
            None => Vec::new(),
        };
        let r = App { root, entries, query, selected: 0, scroll: 0 };
        assert(r@.entries == views(r.entries@));
        r
    }

    /// The path of the selected entry, if there is one.
    pub fn selected_path(&self) -> (r: Option<String>)
        requires
            self.wf(),
        ensures
            r is Some <==> self@.entries.len() > 0,
            r matches Some(p) ==> p@ == self@.selected_path(),
    {
        if self.selected < self.entries.len() {
            Some(join_path(self.root.as_str(), self.entries[self.selected].as_str()))
        } else {
            None
        }
    }

    /// Handles one key event and says whether the picker goes on.
    pub fn handle_key(&mut self, key: KeyPress) -> (r: Transition)
        requires
            old(self).wf(),
        ensures
            final(self).wf(),
            ({
                let s = old(self)@;
                match key_action(key) {
                    Action::Cancel => r == Transition::Cancelled && final(self)@ == s,
                    Action::MoveUp => r == Transition::Continue && final(self)@ == s.moved_up(),
                    Action::MoveDown => r == Transition::Continue && final(self)@ == s.moved_down(),
                    Action::Select => final(self)@ == s && if s.entries.len() == 0 {
                        r == Transition::Cancelled
                    } else {
                        r matches Transition::Selected(p) && p@ == s.selected_path()
                    },
                    Action::Erase => r == Transition::Continue && final(self)@ == (PickerState {
                        query: if s.query.len() > 0 {
                            s.query.drop_last()
                        } else {
                            s.query
                        },
                        ..s
                    }),
                    Action::Type(c) => r == Transition::Continue && final(self)@ == (PickerState {
                        query: s.query.push(c),
                        ..s
                    }),
                    Action::Ignore => r == Transition::Continue && final(self)@ == s,
                }
            }),
    {
        match key.action() {
            Action::Cancel => Transition::Cancelled,
            Action::MoveUp => {
                self.move_up();
                Transition::Continue
            },
            Action::MoveDown => {
                self.move_down();
                Transition::Continue
            },
            Action::Select => match self.selected_path() {
                Some(p) => Transition::Selected(p),
                None => Transition::Cancelled,
            },
            Action::Erase => {
                self.backspace();
                Transition::Continue
            },
            Action::Type(c) => {
                self.type_char(c);
                Transition::Continue
            },
            Action::Ignore => Transition::Continue,
        }
    }

    /// Scrolls the selection into a list that shows `height` rows (the rows
    /// inside any border, not the border itself), then lays out the query line
    /// and the rows that fit, top first.
    pub fn render(&mut self, height: usize) -> (r: Frame)
        requires
            old(self).wf(),
        ensures
            final(self)@ == (PickerState { scroll: old(self)@.visible_scroll(height as nat), ..old(self)@ }),
            final(self).wf(),
            r.query_line@ == "> "@ + final(self)@.query,
            ({
                let s = final(self)@;
                let shown = if s.entries.len() - s.scroll < height {
                    s.entries.len() - s.scroll
                } else {
                    height as int
                };
                &&& r.rows@.len() == shown
                &&& forall|k: int| 0 <= k < shown ==> {
                    &&& (#[trigger] r.rows@[k]).highlighted == (s.scroll + k == s.selected)
                    &&& r.rows@[k].text@ == row_text(s.entries[s.scroll + k], s.scroll + k == s.selected)
                }
            }),
    {
        self.ensure_selection_visible(height);
        let mut query_line = String::from_str("> ");
        query_line.append(string_of(self.query.as_slice()).as_str());
        let n = self.entries.len();
        let end: usize = if n - self.scroll < height {
            n
        } else {
            self.scroll + height
        };
        let mut rows: Vec<Row> = Vec::new();
        let mut idx: usize = self.scroll;
        while idx < end
            invariant
                self.wf(),
                n == self@.entries.len(),
                self@.scroll <= idx <= end <= n,
                end - self@.scroll == (if n - self@.scroll < height { n - self@.scroll } else { height as int }),
                rows@.len() == idx - self@.scroll,
                forall|k: int| 0 <= k < rows@.len() ==> {
                    &&& (#[trigger] rows@[k]).highlighted == (self@.scroll + k == self@.selected)
                    &&& rows@[k].text@ == row_text(self@.entries[self@.scroll + k], self@.scroll + k == self@.selected)
                },
            decreases end - idx,
        {
            let highlighted = idx == self.selected;
            let mut text = if highlighted {
                String::from_str("→ ")
            } else {
                String::from_str("  ")
            };
            text.append("📁 ");
            text.append(self.entries[idx].as_str());
            assert(self.entries@[idx as int]@ == self@.entries[idx as int]);
            rows.push(Row { text, highlighted });
            idx += 1;
        }
        Frame { query_line, rows }
    }

    /// Index of the selected entry.
    pub fn selected(&self) -> (r: usize)
        ensures
            r == self@.selected,
    {
        self.selected
    }

    /// Index of the topmost visible entry.
    pub fn scroll(&self) -> (r: usize)
        ensures
            r == self@.scroll,
    {
        self.scroll
    }

    /// The text typed so far.
    pub fn query(&self) -> (r: String)
        ensures
            r@ == self@.query,
    {
        string_of(self.query.as_slice())
    }

    /// Number of entries.
    pub fn len(&self) -> (r: usize)
        ensures
            r == self@.entries.len(),
    {
        self.entries.len()
    }

    /// Moves the selection up one row, stopping at the top.
    pub fn move_up(&mut self)
        requires
            old(self).wf(),
        ensures
            final(self)@ == old(self)@.moved_up(),
            final(self).wf(),
    {
        if self.selected > 0 {
            self.selected = self.selected - 1;
        }
    }

    /// Moves the selection down one row, stopping at the bottom.
    pub fn move_down(&mut self)
        requires
            old(self).wf(),
        ensures
            final(self)@ == old(self)@.moved_down(),
            final(self).wf(),
    {
        if self.selected < self.entries.len() && self.entries.len() - self.selected > 1 {
            self.selected = self.selected + 1;
        }
    }

    /// Removes the last character of the query, if any.
    pub fn backspace(&mut self)
        requires
            old(self).wf(),
        ensures
            final(self)@ == (PickerState {
                query: if old(self)@.query.len() > 0 {
                    old(self)@.query.drop_last()
                } else {
                    old(self)@.query
                },
                ..old(self)@
            }),
            final(self).wf(),
    {
        let ghost before = self@;
        let _ = self.query.pop();
        assert(self@.query =~= if before.query.len() > 0 { before.query.drop_last() } else { before.query });
        assert(self@.entries == before.entries);
    }

    /// Appends a character to the query; control characters are left out.
    pub fn type_char(&mut self, c: char)
        requires
            old(self).wf(),
        ensures
            final(self)@ == if is_control_char(c) {
                old(self)@
            } else {
                PickerState { query: old(self)@.query.push(c), ..old(self)@ }
            },
            final(self).wf(),
    {
        let ghost before = self@;
        if !is_control(c) {
            self.query.push(c);
        }
        assert(self@.entries == before.entries);
    }

    /// Scrolls, never moving the selection, so that the selection lies in a
    /// window of `height` rows.
    pub fn ensure_selection_visible(&mut self, height: usize)
        requires
            old(self).wf(),
        ensures
            final(self)@ == (PickerState { scroll: old(self)@.visible_scroll(height as nat), ..old(self)@ }),
            final(self).wf(),
            height >= 1 ==> final(self)@.scroll <= final(self)@.selected < final(self)@.scroll + height,
    {
        let ghost before = self@;
        if self.entries.len() == 0 {
            return;
        }
        if self.selected < self.scroll {
            self.scroll = self.selected;
        } else if self.selected - self.scroll >= height {
            self.scroll = self.selected + 1 - height;
        }
        assert(self@.entries == before.entries);
    }
}

} // verus!
