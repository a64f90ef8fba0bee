//! The data that travels between the client and a source: requests, commands,
//! responses and the catalog shapes that responses carry.
//!
//! Each type has a view, its mathematical model, in which text is a sequence
//! of characters and a list is a sequence of models. Contracts speak of views.

use vstd::prelude::*;

verus! {

/// Protocol version tag that this client writes into every request.
pub const PROTOCOL_VERSION: &'static str = "0.0.0";

/// The models of `items`, in the same order.
pub open spec fn views_of<T: View>(items: Seq<T>) -> Seq<T::V> {
    Seq::new(items.len(), |i: int| items[i]@)
}

/// Outcome that a source reports for a request.
#[derive(Clone, Copy, Debug, PartialEq, Eq, Structural)]
pub enum Status {
    /// The request was served. On the wire this is the text `Ok`.
    Okay,
    /// The request failed. On the wire this is the text `Error`.
    Error,
}

impl View for Status {
    type V = Status;

    open spec fn view(&self) -> Status {
        *self
    }
}

/// Order in which a list is sorted.
#[derive(Clone, Copy, Debug, PartialEq, Eq, Structural)]
pub enum Order {
    Ascending,
    Descending,
}

impl View for Order {
    type V = Order;

    open spec fn view(&self) -> Order {
        *self
    }
}

/// Publication state of a title.
#[derive(Clone, Copy, Debug, PartialEq, Eq, Structural)]
pub enum PublicationStatus {
    Ongoing,
    Completed,
    Hiatus,
    Cancelled,
    Unknown,
}

impl View for PublicationStatus {
    type V = PublicationStatus;

    open spec fn view(&self) -> PublicationStatus {
        *self
    }
}

/// Language and sort order that a list-producing command asks for.
#[derive(Debug, PartialEq, Eq)]
pub struct Filter {
    pub language: String,
    pub sort: Order,
}

/// Model of a [`Filter`].
pub struct FilterView {
    pub language: Seq<char>,
    pub sort: Order,
}

impl View for Filter {
    type V = FilterView;

    open spec fn view(&self) -> FilterView {
        FilterView { language: self.language@, sort: self.sort }
    }
}

impl Clone for Filter {
    fn clone(&self) -> (r: Self)
        ensures
            r == *self,
    {
        Filter { language: self.language.clone(), sort: self.sort }
    }
}

impl Default for Filter {
    /// English, newest first.
    fn default() -> (r: Self)
        ensures
            r@ == (FilterView { language: "en"@, sort: Order::Descending }),
    {
        Filter { language: "en".to_owned(), sort: Order::Descending }
    }
}

/// Operation that a request asks a source to perform.
///
/// An `identifier` is chosen by the source; the client never looks inside one
/// and only hands it back in later commands.
#[derive(Debug, PartialEq, Eq)]
pub enum Command {
    Ping,
    Search { keyword: String, page: u32, filter: Filter },
    FetchChapterList { identifier: String, page: u32, filter: Filter },
    FetchManga { identifier: String },
    FetchChapter { identifier: String },
}

/// Model of a [`Command`].
pub enum CommandView {
    Ping,
    Search { keyword: Seq<char>, page: u32, filter: FilterView },
    FetchChapterList { identifier: Seq<char>, page: u32, filter: FilterView },
    FetchManga { identifier: Seq<char> },
    FetchChapter { identifier: Seq<char> },
}

impl View for Command {
    type V = CommandView;

    open spec fn view(&self) -> CommandView {
        match *self {
            Command::Ping => CommandView::Ping,
            Command::Search { keyword, page, filter } => CommandView::Search {
                keyword: keyword@,
                page,
                filter: filter@,
            },
            Command::FetchChapterList { identifier, page, filter } => CommandView::FetchChapterList {
                identifier: identifier@,
                page,
                filter: filter@,
            },
            Command::FetchManga { identifier } => CommandView::FetchManga {
                identifier: identifier@,
            },
            Command::FetchChapter { identifier } => CommandView::FetchChapter {
                identifier: identifier@,
            },
        }
    }
}

impl Clone for Command {
    fn clone(&self) -> (r: Self)
        ensures
            r == *self,
    {
        match self {
            Command::Ping => Command::Ping,
            Command::Search { keyword, page, filter } => Command::Search {
                keyword: keyword.clone(),
                page: *page,
                filter: filter.clone(),
            },
            Command::FetchChapterList { identifier, page, filter } => Command::FetchChapterList {
                identifier: identifier.clone(),
                page: *page,
                filter: filter.clone(),
            },
            Command::FetchManga { identifier } => Command::FetchManga {
                identifier: identifier.clone(),
            },
            Command::FetchChapter { identifier } => Command::FetchChapter {
                identifier: identifier.clone(),
            },
        }
    }
}

impl Command {
    /// Whether a source answers this command with content when it succeeds.
    /// Only `Ping` is answered without.
    pub open spec fn bears_data(self) -> bool {
        !(self is Ping)
    }

    /// Whether a successful answer to this command carries content.
    pub fn is_data_bearing(&self) -> (r: bool)
        ensures
            r == self.bears_data(),
    {
        match self {
            Command::Ping => false,
            _ => true,
        }
    }
}

/// One message from the client to a source.
#[derive(Debug, PartialEq, Eq)]
pub struct Request {
    pub command: Command,
    pub version: String,
}

/// Model of a [`Request`].
pub struct RequestView {
    pub command: CommandView,
    pub version: Seq<char>,
}

impl View for Request {
    type V = RequestView;

    open spec fn view(&self) -> RequestView {
        RequestView { command: self.command@, version: self.version@ }
    }
}

impl Request {
    /// The request that carries `command` under this client's version tag.
    pub fn new(command: Command) -> (r: Self)
        ensures
            r.command == command,
            r.version@ == PROTOCOL_VERSION@,
    {
        Request { command, version: PROTOCOL_VERSION.to_owned() }
    }
}

/// One message from a source to the client.
#[derive(Debug, PartialEq, Eq)]
pub struct Response<T> {
    pub status: Status,
    pub reason: String,
    pub source_name: String,
    pub content: Option<T>,
}

/// Model of a [`Response`].
pub struct ResponseView<V> {
    pub status: Status,
    pub reason: Seq<char>,
    pub source_name: Seq<char>,
    pub content: Option<V>,
}

impl<T: View> View for Response<T> {
    type V = ResponseView<T::V>;

    open spec fn view(&self) -> ResponseView<T::V> {
        ResponseView {
            status: self.status,
            reason: self.reason@,
            source_name: self.source_name@,
            content: match self.content {
                Some(c) => Some(c@),
                None => None,
            },
        }
    }
}

impl<V> ResponseView<V> {
    /// The rule that every response keeps: one that reports an error carries no
    /// content, one that reports success carries content exactly when the
    /// command bears data.
    pub open spec fn well_formed(self, data_bearing: bool) -> bool {
        match self.status {
            Status::Okay => (self.content is Some) == data_bearing,
            Status::Error => self.content is None,
        }
    }
}

impl<T> Response<T> {
    /// A successful answer that carries `content`.
    pub fn with_content(source_name: String, reason: String, content: T) -> (r: Self)
        ensures
            r.status == Status::Okay,
            r.reason == reason,
            r.source_name == source_name,
            r.content == Some(content),
    {
        Response { status: Status::Okay, reason, source_name, content: Some(content) }
    }

    /// A successful answer without content, as `Ping` gets.
    pub fn acknowledged(source_name: String, reason: String) -> (r: Self)
        ensures
            r.status == Status::Okay,
            r.reason == reason,
            r.source_name == source_name,
            r.content is None,
    {
        Response { status: Status::Okay, reason, source_name, content: None }
    }

    /// An answer that reports a failure, with the reason for a human reader.
    pub fn failed(source_name: String, reason: String) -> (r: Self)
        ensures
            r.status == Status::Error,
            r.reason == reason,
            r.source_name == source_name,
            r.content is None,
    {
        Response { status: Status::Error, reason, source_name, content: None }
    }

    /// Whether the response keeps the rule on status and content for a command
    /// that bears data (`data_bearing`) or does not.
    pub fn is_well_formed(&self, data_bearing: bool) -> (r: bool)
        ensures
            r == match self.status {
                Status::Okay => (self.content is Some) == data_bearing,
                Status::Error => self.content is None,
            },
    {
        match self.status {
            Status::Okay => self.content.is_some() == data_bearing,
            Status::Error => self.content.is_none(),
        }
    }
}

/// A person credited on a title, and in which role.
#[derive(Clone, Debug, PartialEq, Eq)]
pub struct Author {
    pub name: String,
    pub details: String,
}

/// Model of an [`Author`].
pub struct AuthorView {
    pub name: Seq<char>,
    pub details: Seq<char>,
}

impl View for Author {
    type V = AuthorView;

    open spec fn view(&self) -> AuthorView {
        AuthorView { name: self.name@, details: self.details@ }
    }
}

/// One title in a list of search results.
#[derive(Clone, Debug, PartialEq, Eq)]
pub struct MangaListEntry {
    pub identifier: String,
    pub title: String,
    pub status: PublicationStatus,
}

/// Model of a [`MangaListEntry`].
pub struct MangaListEntryView {
    pub identifier: Seq<char>,
    pub title: Seq<char>,
    pub status: PublicationStatus,
}

impl View for MangaListEntry {
    type V = MangaListEntryView;

    open spec fn view(&self) -> MangaListEntryView {
        MangaListEntryView { identifier: self.identifier@, title: self.title@, status: self.status }
    }
}

/// One page of search results. `page` counts from 1, `total_page` is the
/// number of pages that the whole result fills, `data` holds this page's
/// items.
#[derive(Clone, Debug, PartialEq, Eq)]
pub struct MangaList {
    pub page: u32,
    pub total_page: u32,
    pub data: Vec<MangaListEntry>,
}

/// Model of a [`MangaList`].
pub struct MangaListView {
    pub page: u32,
    pub total_page: u32,
    pub data: Seq<MangaListEntryView>,
}

impl View for MangaList {
    type V = MangaListView;

    open spec fn view(&self) -> MangaListView {
        MangaListView {
            page: self.page,
            total_page: self.total_page,
            data: views_of(self.data@),
        }
    }
}

/// A title with its details.
#[derive(Clone, Debug, PartialEq, Eq)]
pub struct Manga {
    pub identifier: String,
    pub title: String,
    pub authors: Vec<Author>,
    pub original_language: String,
    pub language: String,
    pub description: String,
    pub status: PublicationStatus,
}

/// Model of a [`Manga`].
pub struct MangaView {
    pub identifier: Seq<char>,
    pub title: Seq<char>,
    pub authors: Seq<AuthorView>,
    pub original_language: Seq<char>,
    pub language: Seq<char>,
    pub description: Seq<char>,
    pub status: PublicationStatus,
}

impl View for Manga {
    type V = MangaView;

    open spec fn view(&self) -> MangaView {
        MangaView {
            identifier: self.identifier@,
            title: self.title@,
            authors: views_of(self.authors@),
            original_language: self.original_language@,
            language: self.language@,
            description: self.description@,
            status: self.status,
        }
    }
}

/// One chapter in a chapter list.
#[derive(Clone, Debug, PartialEq, Eq)]
pub struct ChapterListEntry {
    pub identifier: String,
    pub title: String,
    pub number: String,
}

/// Model of a [`ChapterListEntry`].
pub struct ChapterListEntryView {
    pub identifier: Seq<char>,
    pub title: Seq<char>,
    pub number: Seq<char>,
}

impl View for ChapterListEntry {
    type V = ChapterListEntryView;

    open spec fn view(&self) -> ChapterListEntryView {
        ChapterListEntryView {
            identifier: self.identifier@,
            title: self.title@,
            number: self.number@,
        }
    }
}

/// One page of a title's chapters, laid out as a [`MangaList`] is.
#[derive(Clone, Debug, PartialEq, Eq)]
pub struct ChapterList {
    pub page: u32,
    pub total_page: u32,
    pub data: Vec<ChapterListEntry>,
}

/// Model of a [`ChapterList`].
pub struct ChapterListView {
    pub page: u32,
    pub total_page: u32,
    pub data: Seq<ChapterListEntryView>,
}

impl View for ChapterList {
    type V = ChapterListView;

    open spec fn view(&self) -> ChapterListView {
        ChapterListView {
            page: self.page,
            total_page: self.total_page,
            data: views_of(self.data@),
        }
    }
}

/// A chapter with the addresses of its pages, in reading order.
#[derive(Clone, Debug, PartialEq, Eq)]
pub struct Chapter {
    pub identifier: String,
    pub manga_identifier: String,
    pub title: String,
    pub number: String,
    pub language: String,
    pub page_urls: Vec<String>,
}

/// Model of a [`Chapter`].
pub struct ChapterView {
    pub identifier: Seq<char>,
    pub manga_identifier: Seq<char>,
    pub title: Seq<char>,
    pub number: Seq<char>,
    pub language: Seq<char>,
    pub page_urls: Seq<Seq<char>>,
}

impl View for Chapter {
    type V = ChapterView;

    open spec fn view(&self) -> ChapterView {
        ChapterView {
            identifier: self.identifier@,
            manga_identifier: self.manga_identifier@,
            title: self.title@,
            number: self.number@,
            language: self.language@,
            page_urls: views_of(self.page_urls@),
        }
    }
}

} // verus!
