//! The line in which a search is typed.

use vstd::prelude::*;
use crate::text::{strip, stripped, text_of};
use crate::ui::{Action, Event, KeyCode};

verus! {

/// The text of a search with its cursor.
///
/// The text always ends with one cell on which the cursor stands when it is
/// behind everything typed; that cell holds a space. `cursor_pos` counts
/// characters.
#[derive(Clone, Debug, PartialEq, Eq)]
pub struct SearchBarComponent {
    pub cursor_pos: usize,
    pub query: Vec<char>,
    pub dim: bool,
}

/// The text and cursor after a press of `key`: backspace removes the
/// character before the cursor, the arrows move the cursor within the text, a
/// character is put in at the cursor, and every other key changes nothing.
pub open spec fn after_key(query: Seq<char>, cursor: int, key: KeyCode) -> (Seq<char>, int) {
    match key {
        KeyCode::Backspace => if cursor == 0 {
            (query, cursor)
        } else {
            (query.remove(cursor - 1), cursor - 1)
        },
        KeyCode::Left => if cursor == 0 {
            (query, cursor)
        } else {
            (query, cursor - 1)
        },
        KeyCode::Right => if cursor == query.len() - 1 {
            (query, cursor)
        } else {
            (query, cursor + 1)
        },
        KeyCode::Char(c) => (query.insert(cursor, c), cursor + 1),
        _ => (query, cursor),
    }
}

impl SearchBarComponent {
    /// Whether the cursor stands on a cell of the text.
    pub open spec fn wf(&self) -> bool {
        self.cursor_pos < self.query@.len()
    }

    /// An empty search.
    pub fn new() -> (r: Self)
        ensures
            r.wf(),
            r.query@ == seq![' '],
            r.cursor_pos == 0,
            !r.dim,
    {
        let mut query: Vec<char> = Vec::new();
        query.push(' ');
        assert(query@ =~= seq![' ']);
        SearchBarComponent { cursor_pos: 0, query, dim: false }
    }

    /// What was typed, without white space at either end.
    pub fn get_contents(&self) -> (r: String)
        ensures
            r@ == stripped(self.query@),
    {
        strip(&self.query)
    }

    /// Whether nothing was typed: the text is the cursor's cell alone.
    pub fn is_empty(&self) -> (r: bool)
        ensures
            r == (self.query@ == seq![' ']),
    {
        let r = self.query.len() == 1 && self.query[0] == ' ';
        assert(r ==> self.query@ =~= seq![' ']);
        r
    }

    /// Empties the search.
    pub fn clear_contents(&mut self)
        ensures
            final(self).wf(),
            final(self).query@ == seq![' '],
            final(self).cursor_pos == 0,
            final(self).dim == old(self).dim,
    {
        let mut query: Vec<char> = Vec::new();
        query.push(' ');
        assert(query@ =~= seq![' ']);
        self.query = query;
        self.cursor_pos = 0;
    }

    /// Shows the search dimmed or not.
    pub fn set_dim(&mut self, dim: bool)
        ensures
            final(self).dim == dim,
            final(self).query == old(self).query,
            final(self).cursor_pos == old(self).cursor_pos,
    {
        self.dim = dim;
    }

    /// The text before the cursor, the character under it, and the text
    /// behind it.
    pub fn parts(&self) -> (r: (String, String, String))
        requires
            self.wf(),
        ensures
            r.0@ == self.query@.subrange(0, self.cursor_pos as int),
            r.1@ == self.query@.subrange(self.cursor_pos as int, self.cursor_pos + 1),
            r.2@ == self.query@.subrange(self.cursor_pos + 1, self.query@.len() as int),
    {
        let len = self.query.len();
        (
            text_of(&self.query, 0, self.cursor_pos),
            text_of(&self.query, self.cursor_pos, self.cursor_pos + 1),
            text_of(&self.query, self.cursor_pos + 1, len),
        )
    }

    /// Takes an event: the press of a key changes text and cursor as
    /// [`after_key`] says, every other event changes nothing.
    pub fn handle_events(&mut self, event: &Event)
        requires
            old(self).wf(),
        ensures
            final(self).wf(),
            final(self).dim == old(self).dim,
            match event.pressed() {
                Some(key) => (final(self).query@, final(self).cursor_pos as int) == after_key(
                    old(self).query@,
                    old(self).cursor_pos as int,
                    key,
                ),
                None => final(self).query@ == old(self).query@ && final(self).cursor_pos == old(self).cursor_pos,
            },
    {
        let key = match event.pressed_key() {
            Some(key) => key,
            None => { return ; },
        };
        match key {
            KeyCode::Backspace => {
                if self.cursor_pos != 0 {
                    let _ = self.query.remove(self.cursor_pos - 1);
                    self.cursor_pos = self.cursor_pos - 1;
                }
            },
            KeyCode::Left => {
                if self.cursor_pos != 0 {
                    self.cursor_pos = self.cursor_pos - 1;
                }
            },
            KeyCode::Right => {
                if self.cursor_pos != self.query.len() - 1 {
                    self.cursor_pos = self.cursor_pos + 1;
                }
            },
            KeyCode::Char(c) => {
                let len = self.query.len();
                self.query.insert(self.cursor_pos, c);
                self.cursor_pos = self.cursor_pos + 1;
            },
            _ => {},
        }
    }

    /// Takes note of an action: the search keeps none.
    pub fn update(&mut self, action: &Action)
        ensures
            *final(self) == *old(self),
    {
    }
}

} // verus!
