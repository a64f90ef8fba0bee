//! What the interface does with keys and with what comes back from a source:
//! which page follows which, what each page asks for, and what it keeps.
//!
//! Drawing belongs to the program around this library. It hands in each
//! event as a plain value, performs the actions that come out, and draws the
//! pages from their fields.

use vstd::prelude::*;
use crate::dto::{Chapter, ChapterList, Filter, Manga, MangaList};
use crate::supervisor::Source;

pub mod app;
pub mod manga_details_page;
pub mod manga_list_page;
pub mod search_bar;
pub mod selection;
pub mod source_list_page;

verus! {

/// The key that an event names, as far as the interface tells keys apart.
#[derive(Clone, Copy, Debug, PartialEq, Eq, Structural)]
pub enum KeyCode {
    Backspace,
    Enter,
    Left,
    Right,
    Up,
    Down,
    Esc,
    Char(char),
    Other,
}

/// What happened to the key.
#[derive(Clone, Copy, Debug, PartialEq, Eq, Structural)]
pub enum KeyEventKind {
    Press,
    Repeat,
    Release,
}

/// One event of the keyboard.
#[derive(Clone, Copy, Debug, PartialEq, Eq, Structural)]
pub struct KeyEvent {
    pub code: KeyCode,
    pub kind: KeyEventKind,
}

impl KeyEvent {
    /// The event that the key `code` was pressed.
    pub fn press(code: KeyCode) -> (r: Self)
        ensures
            r == (KeyEvent { code, kind: KeyEventKind::Press }),
    {
        KeyEvent { code, kind: KeyEventKind::Press }
    }
}

/// One event of the terminal.
#[derive(Clone, Copy, Debug, PartialEq, Eq, Structural)]
pub enum Event {
    Tick,
    Render,
    Init,
    Error,
    Key(KeyEvent),
}

impl Event {
    /// The key that was pressed, if the event is the press of a key.
    pub open spec fn pressed(self) -> Option<KeyCode> {
        match self {
            Event::Key(k) => if k.kind == KeyEventKind::Press {
                Some(k.code)
            } else {
                None
            },
            _ => None,
        }
    }

    /// The key that was pressed, if the event is the press of a key.
    pub fn pressed_key(&self) -> (r: Option<KeyCode>)
        ensures
            r == self.pressed(),
    {
        match self {
            Event::Key(k) => match k.kind {
                KeyEventKind::Press => Some(k.code),
                _ => None,
            },
            _ => None,
        }
    }
}

/// A page of the interface.
#[derive(Clone, Copy, Debug, PartialEq, Eq, Structural)]
pub enum Page {
    Sources,
    Mangas,
    MangaDetails,
}

/// Something to ask of the active source.
#[derive(Clone, Debug, PartialEq, Eq)]
pub enum Command {
    SearchManga { keyword: String, page: u32, filter: Filter },
    FetchChapterList { identifier: String, page: u32, filter: Filter },
    FetchMangaDetail { identifier: String },
    FetchChapterDetail { identifier: String },
}

/// Something that the interface is to do, or is told.
#[derive(Clone, Debug, PartialEq, Eq)]
pub enum Action {
    Tick,
    Render,
    NextPage(Page),
    PrevPage,
    Quit,
    FetchSources,
    RunCommand(Command),
    DownloadChapter(String),
    SetActiveSource(Source),
    SetActiveManga(Manga),
    SetActiveChapter(Chapter),
    DisplayMangaList(MangaList),
    DisplayChapterList(ChapterList),
    DisplaySourceList(Vec<Source>),
    InvokeError(String),
}

} // verus!
