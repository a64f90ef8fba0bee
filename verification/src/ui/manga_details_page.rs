//! The page of one title: its details and the list of its chapters.

use vstd::prelude::*;
use crate::dto::{ChapterListEntry, Filter, FilterView, Manga, Order};
use crate::paging::page_after;
use crate::ui::selection::{next_of, previous_of, Selection};
use crate::ui::{Action, Command, Event, KeyCode};

verus! {

/// The list of the chapters of the title, as far as they are loaded.
#[derive(Debug, PartialEq, Eq)]
pub struct ChapterTableComponent {
    /// The identifier of the title whose chapters are listed.
    pub active_manga: Option<String>,
    pub state: Selection,
    pub chapters: Vec<ChapterListEntry>,
    pub curr_page: u32,
    pub max_page: u32,
}

/// The filter under which chapters are asked for: the default one.
pub open spec fn chapter_filter() -> FilterView {
    FilterView { language: "en"@, sort: Order::Descending }
}

/// Whether `action` asks the source for page `page` of the chapters of the
/// title `identifier`.
pub open spec fn asks_for_chapters(action: Action, identifier: Seq<char>, page: u32) -> bool {
    &&& action matches Action::RunCommand(
        Command::FetchChapterList { identifier: i, page: p, filter },
    )
    &&& i@ == identifier
    &&& p == page
    &&& filter@ == chapter_filter()
}

impl ChapterTableComponent {
    /// An empty list for no title.
    pub fn new() -> (r: Self)
        ensures
            r.active_manga is None,
            r.state.selected is None,
            r.chapters@.len() == 0,
            r.curr_page == 0,
            r.max_page == 0,
    {
        ChapterTableComponent {
            active_manga: None,
            state: Selection::new(),
            chapters: Vec::new(),
            curr_page: 0,
            max_page: 0,
        }
    }

    /// What moving the selection down leads to: where the selection arrives
    /// on the last loaded chapter of a title of which more pages exist, the
    /// next page is asked for.
    pub open spec fn follows_down(pre: Self, actions: Seq<Action>) -> bool {
        let arrived = next_of(pre.state.selected)->0;
        if pre.chapters@.len() > 0 && arrived == pre.chapters@.len() - 1 && pre.active_manga is Some
            && pre.curr_page < pre.max_page {
            actions.len() == 1 && asks_for_chapters(
                actions[0],
                pre.active_manga->0@,
                (pre.curr_page + 1) as u32,
            )
        } else {
            actions.len() == 0
        }
    }

    /// What the list does with an event: the arrows move the selection, down
    /// may ask for more chapters, and enter on a selected chapter of a title
    /// asks to download it. Nothing else does anything.
    pub open spec fn handles(pre: Self, event: Event, post: Self, actions: Seq<Action>) -> bool {
        &&& post.active_manga == pre.active_manga
        &&& post.chapters == pre.chapters
        &&& post.curr_page == pre.curr_page
        &&& post.max_page == pre.max_page
        &&& match event.pressed() {
            Some(KeyCode::Up) => post.state.selected == previous_of(pre.state.selected)
                && actions.len() == 0,
            Some(KeyCode::Down) => post.state.selected == next_of(pre.state.selected)
                && Self::follows_down(pre, actions),
            Some(KeyCode::Enter) => post.state == pre.state && match pre.state.selected {
                Some(i) => if i < pre.chapters@.len() && pre.active_manga is Some {
                    actions == seq![Action::DownloadChapter(pre.chapters@[i as int].identifier)]
                } else {
                    actions.len() == 0
                },
                None => actions.len() == 0,
            },
            _ => post.state == pre.state && actions.len() == 0,
        }
    }

    /// Takes an event and says what follows from it.
    pub fn handle_events(&mut self, event: &Event) -> (actions: Vec<Action>)
        ensures
            Self::handles(*old(self), *event, *final(self), actions@),
    {
        let mut actions: Vec<Action> = Vec::new();
        match event.pressed_key() {
            Some(KeyCode::Up) => {
                self.state.select_previous();
            },
            Some(KeyCode::Down) => {
                self.state.select_next();
                let arrived = match self.state.selected() {
                    Some(i) => i,
                    None => { return actions; },
                };
                if self.chapters.len() > 0 && arrived == self.chapters.len() - 1 {
                    match &self.active_manga {
                        Some(identifier) => match page_after(self.curr_page, self.max_page) {
                            Some(page) => {
                                actions.push(
                                    Action::RunCommand(
                                        Command::FetchChapterList {
                                            identifier: identifier.clone(),
                                            page,
                                            filter: Filter::default(),
                                        },
                                    ),
                                );
                            },
                            None => {},
                        },
                        None => {},
                    }
                }
            },
            Some(KeyCode::Enter) => {
                match self.state.within(self.chapters.len()) {
                    Some(i) => {
                        if self.active_manga.is_some() {
                            actions.push(
                                Action::DownloadChapter(self.chapters[i].identifier.clone()),
                            );
                            assert(actions@ =~= seq![
                                Action::DownloadChapter(self.chapters@[i as int].identifier),
                            ]);
                        }
                    },
                    None => {},
                }
            },
            _ => {},
        }
        actions
    }

    /// The number of pages loaded after one more: it stops at the largest
    /// number that can be told.
    pub open spec fn one_more(page: u32) -> u32 {
        if page == u32::MAX {
            page
        } else {
            (page + 1) as u32
        }
    }

    /// Takes note that the title `identifier` is shown from now on: its
    /// first page of chapters is asked for.
    pub fn show_manga(&mut self, identifier: String) -> (action: Action)
        ensures
            final(self).active_manga == Some(identifier),
            final(self).state == old(self).state,
            final(self).chapters == old(self).chapters,
            final(self).curr_page == old(self).curr_page,
            final(self).max_page == old(self).max_page,
            asks_for_chapters(action, identifier@, 1),
    {
        let action = Action::RunCommand(
            Command::FetchChapterList {
                identifier: identifier.clone(),
                page: 1,
                filter: Filter::default(),
            },
        );
        self.active_manga = Some(identifier);
        action
    }

    /// Takes note of a page of chapters: it is added to what is loaded.
    pub fn show_chapters(&mut self, list: crate::dto::ChapterList)
        ensures
            final(self).active_manga == old(self).active_manga,
            final(self).state == old(self).state,
            final(self).chapters@ == old(self).chapters@ + list.data@,
            final(self).curr_page == Self::one_more(old(self).curr_page),
            final(self).max_page == list.total_page,
    {
        let mut list = list;
        self.chapters.append(&mut list.data);
        if self.curr_page != u32::MAX {
            self.curr_page = self.curr_page + 1;
        }
        self.max_page = list.total_page;
    }
}

/// The page of one title.
#[derive(Debug, PartialEq, Eq)]
pub struct MangaDetailsPage {
    /// The title, once the source has answered.
    pub manga: Option<Manga>,
    pub chapter_table: ChapterTableComponent,
}

impl MangaDetailsPage {
    /// The page as it opens: no title yet, and no chapters.
    pub fn new() -> (r: Self)
        ensures
            r.manga is None,
            r.chapter_table.active_manga is None,
            r.chapter_table.state.selected is None,
            r.chapter_table.chapters@.len() == 0,
            r.chapter_table.curr_page == 0,
            r.chapter_table.max_page == 0,
    {
        MangaDetailsPage { manga: None, chapter_table: ChapterTableComponent::new() }
    }

    /// Whether the event names the key `b`, whatever happened to the key.
    pub open spec fn names_back(event: Event) -> bool {
        event matches Event::Key(k) && k.code == KeyCode::Char('b')
    }

    /// What the page does with an event: the key `b` goes back to the page
    /// before, and the event goes on to the list of chapters.
    pub open spec fn handles(pre: Self, event: Event, post: Self, actions: Seq<Action>) -> bool {
        &&& post.manga == pre.manga
        &&& if Self::names_back(event) {
            post.chapter_table == pre.chapter_table && actions == seq![Action::PrevPage]
        } else {
            ChapterTableComponent::handles(pre.chapter_table, event, post.chapter_table, actions)
        }
    }

    /// Takes an event and says what follows from it.
    pub fn handle_events(&mut self, event: &Event) -> (actions: Vec<Action>)
        ensures
            Self::handles(*old(self), *event, *final(self), actions@),
    {
        let back = match event {
            Event::Key(k) => match k.code {
                KeyCode::Char(c) => c == 'b',
                _ => false,
            },
            _ => false,
        };
        if back {
            let mut actions: Vec<Action> = Vec::new();
            actions.push(Action::PrevPage);
            let more = self.chapter_table.handle_events(event);
            assert(more@.len() == 0);
            assert(actions@ =~= seq![Action::PrevPage]);
            actions
        } else {
            self.chapter_table.handle_events(event)
        }
    }

    /// What the page does with an action: a title is shown and its first
    /// page of chapters asked for, a page of chapters is added to the list,
    /// and every other action changes nothing.
    pub open spec fn updates(pre: Self, action: Action, post: Self, actions: Seq<Action>) -> bool {
        &&& post.chapter_table.state == pre.chapter_table.state
        &&& match action {
            Action::SetActiveManga(manga) => {
                &&& post.manga == Some(manga)
                &&& post.chapter_table.active_manga matches Some(identifier)
                &&& identifier == manga.identifier
                &&& post.chapter_table.chapters == pre.chapter_table.chapters
                &&& post.chapter_table.curr_page == pre.chapter_table.curr_page
                &&& post.chapter_table.max_page == pre.chapter_table.max_page
                &&& actions.len() == 1
                &&& asks_for_chapters(actions[0], manga.identifier@, 1)
            },
            Action::DisplayChapterList(list) => {
                &&& post.manga == pre.manga
                &&& post.chapter_table.active_manga == pre.chapter_table.active_manga
                &&& post.chapter_table.chapters@ == pre.chapter_table.chapters@ + list.data@
                &&& post.chapter_table.curr_page == ChapterTableComponent::one_more(
                    pre.chapter_table.curr_page,
                )
                &&& post.chapter_table.max_page == list.total_page
                &&& actions.len() == 0
            },
            _ => post == pre && actions.len() == 0,
        }
    }

    /// Takes note of an action and says what follows from it.
    pub fn update(&mut self, action: Action) -> (actions: Vec<Action>)
        ensures
            Self::updates(*old(self), action, *final(self), actions@),
    {
        let mut actions: Vec<Action> = Vec::new();
        match action {
            Action::SetActiveManga(manga) => {
                actions.push(self.chapter_table.show_manga(manga.identifier.clone()));
                self.manga = Some(manga);
            },
            Action::DisplayChapterList(list) => {
                self.chapter_table.show_chapters(list);
            },
            _ => {},
        }
        actions
    }
}

} // verus!
