//! The page on which titles are searched and chosen.

use vstd::prelude::*;
use crate::dto::{Filter, FilterView, MangaListEntry, Order};
use crate::text::stripped;
use crate::ui::search_bar::{after_key, SearchBarComponent};
use crate::ui::selection::{next_of, previous_of, Selection};
use crate::ui::{Action, Command, Event, KeyCode, Page};

verus! {

/// Which part of the page takes the keys.
#[derive(Clone, Copy, Debug, PartialEq, Eq, Structural)]
pub enum Focus {
    MangaList,
    SearchBar,
}

/// The list of the titles that a search has found so far.
#[derive(Debug, PartialEq, Eq)]
pub struct MangaListComponent {
    pub items: Vec<MangaListEntry>,
    pub list_state: Selection,
    pub curr_page: u32,
    pub max_page: u32,
    pub dim: bool,
}

impl MangaListComponent {
    /// An empty list, shown dimmed.
    pub fn new() -> (r: Self)
        ensures
            r.items@.len() == 0,
            r.list_state.selected is None,
            r.curr_page == 0,
            r.max_page == 0,
            r.dim,
    {
        MangaListComponent {
            items: Vec::new(),
            list_state: Selection::new(),
            curr_page: 0,
            max_page: 0,
            dim: true,
        }
    }

    /// Shows the list dimmed or not.
    pub fn set_dim(&mut self, dim: bool)
        ensures
            *final(self) == (MangaListComponent { dim, ..*old(self) }),
    {
        self.dim = dim;
    }

    /// Forgets what was found.
    pub fn clear(&mut self)
        ensures
            final(self).items@.len() == 0,
            final(self).list_state.selected is None,
            final(self).curr_page == 0,
            final(self).max_page == 0,
            final(self).dim == old(self).dim,
    {
        self.list_state = Selection::new();
        self.items.clear();
        self.curr_page = 0;
        self.max_page = 0;
    }

    /// The action that starts a search for `keyword`: to ask the source for
    /// the first page.
    pub fn start_search(&self, keyword: &str, filter: &Filter) -> (action: Action)
        ensures
            action matches Action::RunCommand(Command::SearchManga { keyword: k, page, filter: f })
                && k@ == keyword@ && page == 1 && f == *filter,
    {
        Action::RunCommand(
            Command::SearchManga { keyword: keyword.to_owned(), page: 1, filter: filter.clone() },
        )
    }

    /// What the list does with an event: the arrows move the selection, and
    /// enter on a selected title opens the page of its details and asks the
    /// source for them. Nothing else does anything.
    pub open spec fn handles(pre: Self, event: Event, post: Self, actions: Seq<Action>) -> bool {
        &&& post.items == pre.items
        &&& post.curr_page == pre.curr_page
        &&& post.max_page == pre.max_page
        &&& post.dim == pre.dim
        &&& match event.pressed() {
            Some(KeyCode::Up) => post.list_state.selected == previous_of(pre.list_state.selected)
                && actions.len() == 0,
            Some(KeyCode::Down) => post.list_state.selected == next_of(pre.list_state.selected)
                && actions.len() == 0,
            Some(KeyCode::Enter) => post.list_state == pre.list_state && match pre.list_state.selected {
                Some(i) => if i < pre.items@.len() {
                    actions == seq![
                        Action::NextPage(Page::MangaDetails),
                        Action::RunCommand(
                            Command::FetchMangaDetail { identifier: pre.items@[i as int].identifier },
                        ),
                    ]
                } else {
                    actions.len() == 0
                },
                None => actions.len() == 0,
            },
            _ => post.list_state == pre.list_state && actions.len() == 0,
        }
    }

    /// Takes an event and says what follows from it.
    pub fn handle_events(&mut self, event: &Event) -> (actions: Vec<Action>)
        ensures
            Self::handles(*old(self), *event, *final(self), actions@),
    {
        let mut actions: Vec<Action> = Vec::new();
        match event.pressed_key() {
            Some(KeyCode::Up) => {
                self.list_state.select_previous();
            },
            Some(KeyCode::Down) => {
                self.list_state.select_next();
            },
            Some(KeyCode::Enter) => {
                match self.list_state.within(self.items.len()) {
                    Some(i) => {
                        actions.push(Action::NextPage(Page::MangaDetails));
                        actions.push(
                            Action::RunCommand(
                                Command::FetchMangaDetail {
                                    identifier: self.items[i].identifier.clone(),
                                },
                            ),
                        );
                        assert(actions@ =~= seq![
                            Action::NextPage(Page::MangaDetails),
                            Action::RunCommand(
                                Command::FetchMangaDetail {
                                    identifier: self.items@[i as int].identifier,
                                },
                            ),
                        ]);
                    },
                    None => {},
                }
            },
            _ => {},
        }
        actions
    }

    /// The number of pages loaded after one more: it stops at the largest
    /// number that can be told.
    pub open spec fn one_more(page: u32) -> u32 {
        if page == u32::MAX {
            page
        } else {
            (page + 1) as u32
        }
    }

    /// Takes note of an action: a page of results is added to what was
    /// found, every other action changes nothing.
    pub fn update(&mut self, action: Action)
        ensures
            final(self).list_state == old(self).list_state,
            final(self).dim == old(self).dim,
            match action {
                Action::DisplayMangaList(list) => final(self).items@ == old(self).items@
                    + list.data@ && final(self).curr_page == Self::one_more(old(self).curr_page)
                    && final(self).max_page == list.total_page,
                _ => final(self).items == old(self).items && final(self).curr_page == old(self).curr_page && final(self).max_page == old(self).max_page,
            },
    {
        match action {
            Action::DisplayMangaList(list) => {
                let mut list = list;
                if self.curr_page != u32::MAX {
                    self.curr_page = self.curr_page + 1;
                }
                self.max_page = list.total_page;
                self.items.append(&mut list.data);
            },
            _ => {},
        }
    }
}

/// The page of titles: a search line above the list of what it found.
#[derive(Debug, PartialEq, Eq)]
pub struct MangaListPage {
    pub search_bar: SearchBarComponent,
    pub manga_list: MangaListComponent,
    pub focus: Focus,
}

/// The filter of every search: English, newest first.
pub open spec fn search_filter() -> FilterView {
    FilterView { language: "en"@, sort: Order::Descending }
}

impl MangaListPage {
    /// The page as it opens: an empty search line that takes the keys, above
    /// an empty list.
    pub fn new() -> (r: Self)
        ensures
            r.search_bar.wf(),
            r.search_bar.query@ == seq![' '],
            r.manga_list.items@.len() == 0,
            r.focus == Focus::SearchBar,
    {
        MangaListPage {
            search_bar: SearchBarComponent::new(),
            manga_list: MangaListComponent::new(),
            focus: Focus::SearchBar,
        }
    }

    /// What the page does with an event while the search line takes the
    /// keys: the line takes the event; then escape hands the keys to the
    /// list, and enter starts a search for what was typed, empties the list
    /// and hands the keys to it.
    pub open spec fn handles_in_search(
        pre: Self,
        event: Event,
        post: Self,
        actions: Seq<Action>,
    ) -> bool {
        &&& post.search_bar.dim == pre.search_bar.dim
        &&& post.manga_list.dim == pre.manga_list.dim
        &&& match event.pressed() {
            Some(key) => {
                &&& (post.search_bar.query@, post.search_bar.cursor_pos as int) == after_key(
                    pre.search_bar.query@,
                    pre.search_bar.cursor_pos as int,
                    key,
                )
                &&& match key {
                    KeyCode::Esc => post.focus == Focus::MangaList && post.manga_list
                        == pre.manga_list && actions.len() == 0,
                    KeyCode::Enter => {
                        &&& post.focus == Focus::MangaList
                        &&& post.manga_list.items@.len() == 0
                        &&& post.manga_list.list_state.selected is None
                        &&& post.manga_list.curr_page == 0
                        &&& post.manga_list.max_page == 0
                        &&& actions.len() == 1
                        &&& actions[0] matches Action::RunCommand(
                            Command::SearchManga { keyword, page, filter },
                        )
                        &&& keyword@ == stripped(pre.search_bar.query@)
                        &&& page == 1
                        &&& filter@ == search_filter()
                    },
                    _ => post.focus == Focus::SearchBar && post.manga_list == pre.manga_list
                        && actions.len() == 0,
                }
            },
            None => post.search_bar.query@ == pre.search_bar.query@ && post.search_bar.cursor_pos
                == pre.search_bar.cursor_pos && post.manga_list == pre.manga_list && post.focus
                == pre.focus && actions.len() == 0,
        }
    }

    /// What the page does with an event while the list takes the keys: the
    /// list takes the event; then `s` empties the search line and hands the
    /// keys to it, and `b` goes back to the page before.
    pub open spec fn handles_in_list(
        pre: Self,
        event: Event,
        post: Self,
        actions: Seq<Action>,
    ) -> bool {
        match event.pressed() {
            Some(KeyCode::Char('s')) => {
                &&& post.focus == Focus::SearchBar
                &&& post.search_bar.query@ == seq![' ']
                &&& post.search_bar.cursor_pos == 0
                &&& post.search_bar.dim == pre.search_bar.dim
                &&& post.manga_list == pre.manga_list
                &&& actions.len() == 0
            },
            Some(KeyCode::Char('b')) => post.focus == pre.focus && post.search_bar
                == pre.search_bar && post.manga_list == pre.manga_list && actions == seq![
                Action::PrevPage,
            ],
            _ => post.focus == pre.focus && post.search_bar == pre.search_bar
                && MangaListComponent::handles(pre.manga_list, event, post.manga_list, actions),
        }
    }

    /// What the page does with an event.
    pub open spec fn handles(pre: Self, event: Event, post: Self, actions: Seq<Action>) -> bool {
        match pre.focus {
            Focus::SearchBar => Self::handles_in_search(pre, event, post, actions),
            Focus::MangaList => Self::handles_in_list(pre, event, post, actions),
        }
    }

    /// Takes an event and says what follows from it.
    pub fn handle_events(&mut self, event: &Event) -> (actions: Vec<Action>)
        requires
            old(self).search_bar.wf(),
        ensures
            final(self).search_bar.wf(),
            Self::handles(*old(self), *event, *final(self), actions@),
    {
        match self.focus {
            Focus::SearchBar => {
                self.search_bar.handle_events(event);
                let mut actions: Vec<Action> = Vec::new();
                match event.pressed_key() {
                    Some(KeyCode::Esc) => {
                        self.focus = Focus::MangaList;
                    },
                    Some(KeyCode::Enter) => {
                        let keyword = self.search_bar.get_contents();
                        let filter = Filter { language: "en".to_owned(), sort: Order::Descending };
                        self.manga_list.clear();
                        actions.push(self.manga_list.start_search(keyword.as_str(), &filter));
                        self.focus = Focus::MangaList;
                    },
                    _ => {},
                }
                actions
            },
            Focus::MangaList => {
                let mut actions = self.manga_list.handle_events(event);
                match event.pressed_key() {
                    Some(KeyCode::Char('s')) => {
                        self.search_bar.clear_contents();
                        self.focus = Focus::SearchBar;
                    },
                    Some(KeyCode::Char('b')) => {
                        actions.push(Action::PrevPage);
                        assert(actions@ =~= seq![Action::PrevPage]);
                    },
                    _ => {},
                }
                actions
            },
        }
    }

    /// What the page does with an action: a page of results is added to what
    /// was found, every other action changes nothing.
    pub open spec fn updates(pre: Self, action: Action, post: Self) -> bool {
        &&& post.search_bar == pre.search_bar
        &&& post.focus == pre.focus
        &&& post.manga_list.list_state == pre.manga_list.list_state
        &&& post.manga_list.dim == pre.manga_list.dim
        &&& match action {
            Action::DisplayMangaList(list) => {
                &&& post.manga_list.items@ == pre.manga_list.items@ + list.data@
                &&& post.manga_list.curr_page == MangaListComponent::one_more(
                    pre.manga_list.curr_page,
                )
                &&& post.manga_list.max_page == list.total_page
            },
            _ => post.manga_list == pre.manga_list,
        }
    }

    /// Takes note of an action, which goes on to the list.
    pub fn update(&mut self, action: Action)
        ensures
            Self::updates(*old(self), action, *final(self)),
    {
        self.manga_list.update(action);
    }

    /// Dims the part that does not take the keys, as the page is drawn.
    pub fn dim_unfocused(&mut self)
        ensures
            final(self).focus == old(self).focus,
            final(self).manga_list == (MangaListComponent {
                dim: old(self).focus == Focus::SearchBar,
                ..old(self).manga_list
            }),
            final(self).search_bar.dim == (old(self).focus == Focus::MangaList),
            final(self).search_bar.query == old(self).search_bar.query,
            final(self).search_bar.cursor_pos == old(self).search_bar.cursor_pos,
    {
        match self.focus {
            Focus::MangaList => {
                self.manga_list.set_dim(false);
                self.search_bar.set_dim(true);
            },
            Focus::SearchBar => {
                self.manga_list.set_dim(true);
                self.search_bar.set_dim(false);
            },
        }
    }
}

} // verus!
