//! The page on which a source is chosen.

use vstd::prelude::*;
use crate::supervisor::Source;
use crate::ui::search_bar::SearchBarComponent;
use crate::ui::selection::{next_of, previous_of, Selection};
use crate::ui::{Action, Event, KeyCode, Page};

verus! {

/// The list of the sources that were found.
#[derive(Debug, PartialEq, Eq)]
pub struct SourceListComp {
    pub list_state: Selection,
    pub source_list: Vec<Source>,
}

impl SourceListComp {
    /// An empty list.
    pub fn new() -> (r: Self)
        ensures
            r.list_state.selected is None,
            r.source_list@.len() == 0,
    {
        SourceListComp { list_state: Selection::new(), source_list: Vec::new() }
    }

    /// What the list does with an event: the arrows move the selection, and
    /// enter on a selected source makes it the active source and opens the
    /// page of its titles. Nothing else does anything.
    pub open spec fn handles(pre: Self, event: Event, post: Self, actions: Seq<Action>) -> bool {
        &&& post.source_list == pre.source_list
        &&& match event.pressed() {
            Some(KeyCode::Up) => post.list_state.selected == previous_of(pre.list_state.selected)
                && actions.len() == 0,
            Some(KeyCode::Down) => post.list_state.selected == next_of(pre.list_state.selected)
                && actions.len() == 0,
            Some(KeyCode::Enter) => post.list_state == pre.list_state && match pre.list_state.selected {
                Some(i) => if i < pre.source_list@.len() {
                    actions == seq![
                        Action::SetActiveSource(pre.source_list@[i as int]),
                        Action::NextPage(Page::Mangas),
                    ]
                } else {
                    actions.len() == 0
                },
                None => actions.len() == 0,
            },
            _ => post.list_state == pre.list_state && actions.len() == 0,
        }
    }

    /// Takes an event and says what follows from it.
    pub fn handle_events(&mut self, event: &Event) -> (actions: Vec<Action>)
        ensures
            Self::handles(*old(self), *event, *final(self), actions@),
    {
        let mut actions: Vec<Action> = Vec::new();
        match event.pressed_key() {
            Some(KeyCode::Up) => {
                self.list_state.select_previous();
            },
            Some(KeyCode::Down) => {
                self.list_state.select_next();
            },
            Some(KeyCode::Enter) => {
                match self.list_state.within(self.source_list.len()) {
                    Some(i) => {
                        actions.push(Action::SetActiveSource(self.source_list[i].clone()));
                        actions.push(Action::NextPage(Page::Mangas));
                        assert(actions@ =~= seq![
                            Action::SetActiveSource(self.source_list@[i as int]),
                            Action::NextPage(Page::Mangas),
                        ]);
                    },
                    None => {},
                }
            },
            _ => {},
        }
        actions
    }

    /// Takes note of an action: a list of sources replaces the one shown,
    /// every other action changes nothing.
    pub fn update(&mut self, action: Action)
        ensures
            final(self).list_state == old(self).list_state,
            match action {
                Action::DisplaySourceList(list) => final(self).source_list == list,
                _ => final(self).source_list == old(self).source_list,
            },
    {
        match action {
            Action::DisplaySourceList(list) => {
                self.source_list = list;
            },
            _ => {},
        }
    }
}

/// The page of sources: a search line above the list of sources.
#[derive(Debug, PartialEq, Eq)]
pub struct SourcesPage {
    pub search_bar: SearchBarComponent,
    pub source_list: SourceListComp,
}

impl SourcesPage {
    /// The page as it opens, and the action that it opens with: to find the
    /// sources.
    pub fn new() -> (r: (Self, Action))
        ensures
            r.0.search_bar.wf(),
            r.0.search_bar.query@ == seq![' '],
            r.0.source_list.list_state.selected is None,
            r.0.source_list.source_list@.len() == 0,
            r.1 == Action::FetchSources,
    {
        (
            SourcesPage { search_bar: SearchBarComponent::new(), source_list: SourceListComp::new() },
            Action::FetchSources,
        )
    }

    /// What the page does with an event: a press of `q` quits, and every
    /// press goes on to the list of sources. Other events do nothing.
    pub open spec fn handles(pre: Self, event: Event, post: Self, actions: Seq<Action>) -> bool {
        &&& post.search_bar == pre.search_bar
        &&& match event.pressed() {
            Some(KeyCode::Char('q')) => post.source_list == pre.source_list && actions == seq![
                Action::Quit,
            ],
            Some(_) => SourceListComp::handles(
                pre.source_list,
                event,
                post.source_list,
                actions,
            ),
            None => post.source_list == pre.source_list && actions.len() == 0,
        }
    }

    /// Takes an event and says what follows from it.
    pub fn handle_events(&mut self, event: &Event) -> (actions: Vec<Action>)
        ensures
            Self::handles(*old(self), *event, *final(self), actions@),
    {
        match event.pressed_key() {
            None => Vec::new(),
            Some(KeyCode::Char('q')) => {
                let ghost before = self.source_list;
                let mut actions: Vec<Action> = Vec::new();
                actions.push(Action::Quit);
                let more = self.source_list.handle_events(event);
                assert(more@.len() == 0);
                assert(actions@ =~= seq![Action::Quit]);
                actions
            },
            Some(_) => self.source_list.handle_events(event),
        }
    }

    /// What the page does with an action: a list of sources replaces the one
    /// shown, every other action changes nothing.
    pub open spec fn updates(pre: Self, action: Action, post: Self) -> bool {
        &&& post.search_bar == pre.search_bar
        &&& post.source_list.list_state == pre.source_list.list_state
        &&& match action {
            Action::DisplaySourceList(list) => post.source_list.source_list == list,
            _ => post.source_list.source_list == pre.source_list.source_list,
        }
    }

    /// Takes note of an action, which goes on to the list of sources.
    pub fn update(&mut self, action: Action)
        ensures
            Self::updates(*old(self), action, *final(self)),
    {
        self.source_list.update(action);
    }
}

} // verus!
