//! The pages that are open, one above the other, and what each action does
//! to them.

use vstd::prelude::*;
use crate::supervisor::Source;
use crate::ui::manga_details_page::MangaDetailsPage;
use crate::ui::manga_list_page::{Focus, MangaListPage};
use crate::ui::source_list_page::SourcesPage;
use crate::ui::{Action, Command, Event, Page};

verus! {

/// An open page.
#[derive(Debug, PartialEq, Eq)]
pub enum PageState {
    Sources(SourcesPage),
    Mangas(MangaListPage),
    MangaDetails(MangaDetailsPage),
}

impl PageState {
    /// Whether the cursors of the page's search lines stand on their texts.
    pub open spec fn wf(self) -> bool {
        match self {
            PageState::Sources(p) => p.search_bar.wf(),
            PageState::Mangas(p) => p.search_bar.wf(),
            PageState::MangaDetails(_) => true,
        }
    }

    /// Which page this is.
    pub open spec fn kind(self) -> Page {
        match self {
            PageState::Sources(_) => Page::Sources,
            PageState::Mangas(_) => Page::Mangas,
            PageState::MangaDetails(_) => Page::MangaDetails,
        }
    }

    /// Whether this is the page `page` as it opens: nothing typed, nothing
    /// shown, nothing selected.
    pub open spec fn is_fresh(self, page: Page) -> bool {
        &&& self.kind() == page
        &&& self.wf()
        &&& match self {
            PageState::Sources(p) => p.search_bar.query@ == seq![' ']
                && p.source_list.source_list@.len() == 0
                && p.source_list.list_state.selected is None,
            PageState::Mangas(p) => p.search_bar.query@ == seq![' '] && p.manga_list.items@.len()
                == 0 && p.focus == Focus::SearchBar,
            PageState::MangaDetails(p) => p.manga is None && p.chapter_table.chapters@.len() == 0
                && p.chapter_table.active_manga is None,
        }
    }

    /// What the page does with an event: what the page of its kind does.
    pub open spec fn handles(pre: Self, event: Event, post: Self, actions: Seq<Action>) -> bool {
        match (pre, post) {
            (PageState::Sources(a), PageState::Sources(b)) => SourcesPage::handles(
                a,
                event,
                b,
                actions,
            ),
            (PageState::Mangas(a), PageState::Mangas(b)) => MangaListPage::handles(
                a,
                event,
                b,
                actions,
            ),
            (PageState::MangaDetails(a), PageState::MangaDetails(b)) => MangaDetailsPage::handles(
                a,
                event,
                b,
                actions,
            ),
            _ => false,
        }
    }

    /// What the page does with an action: what the page of its kind does.
    pub open spec fn updates(pre: Self, action: Action, post: Self, actions: Seq<Action>) -> bool {
        match (pre, post) {
            (PageState::Sources(a), PageState::Sources(b)) => SourcesPage::updates(a, action, b)
                && actions.len() == 0,
            (PageState::Mangas(a), PageState::Mangas(b)) => MangaListPage::updates(a, action, b)
                && actions.len() == 0,
            (PageState::MangaDetails(a), PageState::MangaDetails(b)) => MangaDetailsPage::updates(
                a,
                action,
                b,
                actions,
            ),
            _ => false,
        }
    }

    /// The page `page` as it opens, and the actions that it opens with: the
    /// page of sources asks to find the sources.
    pub fn open(page: Page) -> (r: (Self, Vec<Action>))
        ensures
            r.0.is_fresh(page),
            r.1@ == if page == Page::Sources {
                seq![Action::FetchSources]
            } else {
                Seq::<Action>::empty()
            },
    {
        let mut actions: Vec<Action> = Vec::new();
        match page {
            Page::Sources => {
                let (opened, first) = SourcesPage::new();
                actions.push(first);
                assert(actions@ =~= seq![Action::FetchSources]);
                (PageState::Sources(opened), actions)
            },
            Page::Mangas => (PageState::Mangas(MangaListPage::new()), actions),
            Page::MangaDetails => (PageState::MangaDetails(MangaDetailsPage::new()), actions),
        }
    }

    /// Takes an event and says what follows from it.
    pub fn handle_events(&mut self, event: &Event) -> (actions: Vec<Action>)
        requires
            old(self).wf(),
        ensures
            final(self).wf(),
            Self::handles(*old(self), *event, *final(self), actions@),
    {
        match self {
            PageState::Sources(p) => p.handle_events(event),
            PageState::Mangas(p) => p.handle_events(event),
            PageState::MangaDetails(p) => p.handle_events(event),
        }
    }

    /// Takes note of an action and says what follows from it.
    pub fn update(&mut self, action: Action) -> (actions: Vec<Action>)
        requires
            old(self).wf(),
        ensures
            final(self).wf(),
            Self::updates(*old(self), action, *final(self), actions@),
    {
        match self {
            PageState::Sources(p) => {
                p.update(action);
                Vec::new()
            },
            PageState::Mangas(p) => {
                p.update(action);
                Vec::new()
            },
            PageState::MangaDetails(p) => p.update(action),
        }
    }
}

/// What the program is to perform for an action.
#[derive(Debug, PartialEq, Eq)]
pub enum Effect {
    /// Draw the page on top.
    Render,
    /// Bring down the active source, start this one and make it the active
    /// source.
    ActivateSource(Source),
    /// Find the sources and report them with `Action::DisplaySourceList`.
    FetchSources,
    /// Ask the active source and report the answer as an action.
    RunCommand(Command),
    /// Download the chapter with this identifier.
    DownloadChapter(String),
}

/// The interface: the open pages, the last of them on top, and whether to
/// leave.
#[derive(Debug, PartialEq, Eq)]
pub struct App {
    pub active_pages: Vec<PageState>,
    pub should_exit: bool,
}

/// The actions that an event gives rise to before any page sees it: a tick
/// and a request to draw are passed on as actions.
pub open spec fn heralds(event: Event) -> Seq<Action> {
    match event {
        Event::Tick => seq![Action::Tick],
        Event::Render => seq![Action::Render],
        _ => Seq::empty(),
    }
}

/// The effect of an action on the program, if it has one.
pub open spec fn effect_of(action: Action) -> Option<Effect> {
    match action {
        Action::Render => Some(Effect::Render),
        Action::SetActiveSource(source) => Some(Effect::ActivateSource(source)),
        Action::FetchSources => Some(Effect::FetchSources),
        Action::RunCommand(command) => Some(Effect::RunCommand(command)),
        Action::DownloadChapter(identifier) => Some(Effect::DownloadChapter(identifier)),
        _ => None,
    }
}

/// Whether an action is one that pages take note of.
pub open spec fn is_news(action: Action) -> bool {
    action is SetActiveManga || action is SetActiveChapter || action is DisplayMangaList
        || action is DisplayChapterList || action is DisplaySourceList
}

impl App {
    /// Whether every open page is well formed.
    pub open spec fn wf(self) -> bool {
        forall|i: int| 0 <= i < self.active_pages@.len() ==> (#[trigger] self.active_pages@[i]).wf()
    }

    /// The interface as it starts: the page of sources alone, which asks to
    /// find the sources.
    pub fn new() -> (r: (Self, Vec<Action>))
        ensures
            r.0.wf(),
            !r.0.should_exit,
            r.0.active_pages@.len() == 1,
            r.0.active_pages@[0].is_fresh(Page::Sources),
            r.1@ == seq![Action::FetchSources],
    {
        let (page, actions) = PageState::open(Page::Sources);
        let mut active_pages: Vec<PageState> = Vec::new();
        active_pages.push(page);
        (App { active_pages, should_exit: false }, actions)
    }

    /// What the interface does with an event: the pages below the top stay
    /// as they are, the page on top takes the event, and what follows is the
    /// heralds of the event and then what the page says. Without a page
    /// only the heralds follow.
    pub open spec fn handles(pre: Self, event: Event, post: Self, actions: Seq<Action>) -> bool {
        &&& post.should_exit == pre.should_exit
        &&& post.active_pages@.len() == pre.active_pages@.len()
        &&& forall|i: int|
            0 <= i < pre.active_pages@.len() - 1 ==> post.active_pages@[i] == pre.active_pages@[i]
        &&& actions.take(heralds(event).len() as int) == heralds(event)
        &&& heralds(event).len() <= actions.len()
        &&& if pre.active_pages@.len() == 0 {
            actions.len() == heralds(event).len()
        } else {
            PageState::handles(
                pre.active_pages@.last(),
                event,
                post.active_pages@.last(),
                actions.skip(heralds(event).len() as int),
            )
        }
    }

    /// Takes an event and says what follows from it.
    pub fn handle_events(&mut self, event: &Event) -> (actions: Vec<Action>)
        requires
            old(self).wf(),
        ensures
            final(self).wf(),
            Self::handles(*old(self), *event, *final(self), actions@),
    {
        let mut actions: Vec<Action> = Vec::new();
        match event {
            Event::Tick => {
                actions.push(Action::Tick);
            },
            Event::Render => {
                actions.push(Action::Render);
            },
            _ => {},
        }
        assert(actions@ =~= heralds(*event));
        let ghost before = self.active_pages@;
        match self.active_pages.pop() {
            Some(top) => {
                let mut top = top;
                let ghost below = self.active_pages@;
                assert(before.last().wf());
                let mut said = top.handle_events(event);
                let ghost page_actions = said@;
                actions.append(&mut said);
                self.active_pages.push(top);
                assert(actions@.take(heralds(*event).len() as int) =~= heralds(*event));
                assert(actions@.skip(heralds(*event).len() as int) =~= page_actions);
                assert forall|i: int| 0 <= i < self.active_pages@.len() implies (
                #[trigger] self.active_pages@[i]).wf() by {
                    if i < below.len() {
                        assert(self.active_pages@[i] == before[i]);
                    }
                }
            },
            None => {
                assert(actions@.take(heralds(*event).len() as int) =~= heralds(*event));
            },
        }
        actions
    }

    /// What the interface does with an action.
    ///
    /// `NextPage` opens the page on top of the others, `PrevPage` closes the
    /// page on top, `Quit` asks to leave. Actions that the program performs
    /// have their effect. News goes to the page on top, which may ask for
    /// more. Every other action changes nothing.
    pub open spec fn acts(
        pre: Self,
        action: Action,
        post: Self,
        effect: Option<Effect>,
        actions: Seq<Action>,
    ) -> bool {
        &&& effect == effect_of(action)
        &&& post.should_exit == (pre.should_exit || action is Quit)
        &&& match action {
            Action::NextPage(page) => {
                &&& post.active_pages@.len() == pre.active_pages@.len() + 1
                &&& post.active_pages@.drop_last() == pre.active_pages@
                &&& post.active_pages@.last().is_fresh(page)
                &&& actions == if page == Page::Sources {
                    seq![Action::FetchSources]
                } else {
                    Seq::<Action>::empty()
                }
            },
            Action::PrevPage => {
                &&& post.active_pages@ == if pre.active_pages@.len() == 0 {
                    pre.active_pages@
                } else {
                    pre.active_pages@.drop_last()
                }
                &&& actions.len() == 0
            },
            _ => if is_news(action) && pre.active_pages@.len() > 0 {
                &&& post.active_pages@.len() == pre.active_pages@.len()
                &&& post.active_pages@.drop_last() == pre.active_pages@.drop_last()
                &&& PageState::updates(
                    pre.active_pages@.last(),
                    action,
                    post.active_pages@.last(),
                    actions,
                )
            } else {
                post.active_pages@ == pre.active_pages@ && actions.len() == 0
            },
        }
    }

    /// Takes an action: says what the program is to perform for it, and
    /// which actions follow from it.
    pub fn handle_action(&mut self, action: Action) -> (r: (Option<Effect>, Vec<Action>))
        requires
            old(self).wf(),
        ensures
            final(self).wf(),
            Self::acts(*old(self), action, *final(self), r.0, r.1@),
    {
        let ghost before = self.active_pages@;
        match action {
            Action::Render => (Some(Effect::Render), Vec::new()),
            Action::Quit => {
                self.should_exit = true;
                (None, Vec::new())
            },
            Action::NextPage(page) => {
                let (opened, actions) = PageState::open(page);
                self.active_pages.push(opened);
                assert(self.active_pages@.drop_last() =~= before);
                assert forall|i: int| 0 <= i < self.active_pages@.len() implies (
                #[trigger] self.active_pages@[i]).wf() by {
                    if i < before.len() {
                        assert(self.active_pages@[i] == before[i]);
                    }
                }
                (None, actions)
            },
            Action::PrevPage => {
                let _ = self.active_pages.pop();
                proof {
                    if before.len() > 0 {
                        assert(self.active_pages@ =~= before.drop_last());
                        assert forall|i: int| 0 <= i < self.active_pages@.len() implies (
                        #[trigger] self.active_pages@[i]).wf() by {
                            assert(self.active_pages@[i] == before[i]);
                        }
                    }
                }
                (None, Vec::new())
            },
            Action::SetActiveSource(source) => (Some(Effect::ActivateSource(source)), Vec::new()),
            Action::FetchSources => (Some(Effect::FetchSources), Vec::new()),
            Action::RunCommand(command) => (Some(Effect::RunCommand(command)), Vec::new()),
            Action::DownloadChapter(identifier) => (
                Some(Effect::DownloadChapter(identifier)),
                Vec::new(),
            ),
            Action::Tick => (None, Vec::new()),
            Action::InvokeError(_) => (None, Vec::new()),
            news => {
                assert(is_news(news));
                match self.active_pages.pop() {
                    Some(top) => {
                        let mut top = top;
                        let ghost below = self.active_pages@;
                        assert(before.last().wf());
                        let actions = top.update(news);
                        self.active_pages.push(top);
                        assert(self.active_pages@.drop_last() =~= before.drop_last());
                        assert forall|i: int| 0 <= i < self.active_pages@.len() implies (
                        #[trigger] self.active_pages@[i]).wf() by {
                            if i < below.len() {
                                assert(self.active_pages@[i] == before[i]);
                            }
                        }
                        (None, actions)
                    },
                    None => (None, Vec::new()),
                }
            },
        }
    }
}

} // verus!
