//! What the client asks of a source and what it makes of the answers.
//!
//! Every command but `Ping` is preceded by a `Ping` on a connection of its
//! own, which shows that the source answers at all. The program around this
//! library performs the exchanges; the requests to send and the meaning of
//! the responses are decided here: [`search_manga`], [`fetch_chapters`],
//! [`fetch_manga`] and [`fetch_chapter`] give the request of a command,
//! [`ping_source`] judges the answer to a `Ping`, and [`outcome`] the answer
//! to a command. What a request is on the wire, and that it reads back as
//! the same request, is stated in [`crate::wire`] and
//! [`crate::transport`].

use vstd::prelude::*;
use crate::dto::{
    Chapter, Command, CommandView, Filter, Manga, Request, RequestView, Response, Status,
    PROTOCOL_VERSION,
};
use crate::supervisor::Source;
use crate::text::{decimal, decimal_digits};
use crate::transport::ExchangeError;
use crate::wire::{ProtocolError, Wire};

verus! {

/// Why a command gave no content.
#[derive(Clone, Debug, PartialEq, Eq)]
pub enum ClientError {
    /// The exchange itself failed.
    Exchange(ExchangeError),
    /// The source answered the `Ping` before the command with an error.
    NotVerified,
    /// The source answered with an error, for this reason.
    Refused { reason: String },
}

/// The model of the request that carries `command` under this client's
/// version tag.
pub open spec fn request_for(command: CommandView) -> RequestView {
    RequestView { command, version: PROTOCOL_VERSION@ }
}

/// Every request of this client reads back as written: for each command,
/// with any arguments, the document that stands for the request stands for
/// that request and no other.
pub proof fn lemma_requests_read_back(command: CommandView)
    ensures
        Request::decoding(Request::encoding(request_for(command))) == Some(request_for(command)),
{
    Request::lemma_round_trip(request_for(command));
}

/// The request that asks whether the source is alive.
pub fn ping_request() -> (r: Request)
    ensures
        r@ == request_for(CommandView::Ping),
{
    Request::new(Command::Ping)
}

/// The request that searches titles for `keyword`: the keyword, the page and
/// the filter as they are given, under this client's version tag.
pub fn search_manga(keyword: &str, page: u32, filter: &Filter) -> (r: Request)
    ensures
        r@ == request_for(CommandView::Search { keyword: keyword@, page, filter: filter@ }),
{
    Request::new(Command::Search { keyword: keyword.to_owned(), page, filter: filter.clone() })
}

/// The request that lists the chapters of the title `identifier`.
pub fn fetch_chapters(identifier: &str, page: u32, filter: &Filter) -> (r: Request)
    ensures
        r@ == request_for(
            CommandView::FetchChapterList { identifier: identifier@, page, filter: filter@ },
        ),
{
    Request::new(
        Command::FetchChapterList {
            identifier: identifier.to_owned(),
            page,
            filter: filter.clone(),
        },
    )
}

/// The request that fetches the title `identifier`. The identifier is the
/// source's: it is carried as it is given, and never looked into.
pub fn fetch_manga(identifier: &str) -> (r: Request)
    ensures
        r@ == request_for(CommandView::FetchManga { identifier: identifier@ }),
{
    Request::new(Command::FetchManga { identifier: identifier.to_owned() })
}

/// The request that fetches the chapter `identifier`. The identifier is the
/// source's: it is carried as it is given, and never looked into.
pub fn fetch_chapter(identifier: &str) -> (r: Request)
    ensures
        r@ == request_for(CommandView::FetchChapter { identifier: identifier@ }),
{
    Request::new(Command::FetchChapter { identifier: identifier.to_owned() })
}

/// Whether the answer to a `Ping` shows a live source: it does exactly when
/// its status is success.
pub fn ping_source(response: &Response<()>) -> (r: Result<(), ClientError>)
    ensures
        response.status == Status::Okay ==> r is Ok,
        response.status == Status::Error ==> r == Err::<(), ClientError>(
            ClientError::NotVerified,
        ),
{
    match response.status {
        Status::Okay => Ok(()),
        Status::Error => Err(ClientError::NotVerified),
    }
}

/// The content of the answer to a command that bears data: the content where
/// the source reports success and sends it, the protocol's `MissingContent`
/// where it reports success and sends none, and the source's reason where it
/// reports an error.
pub fn outcome<T>(response: Response<T>) -> (r: Result<T, ClientError>)
    ensures
        match (response.status, response.content) {
            (Status::Okay, Some(content)) => r == Ok::<T, ClientError>(content),
            (Status::Okay, None) => r == Err::<T, ClientError>(
                ClientError::Exchange(ExchangeError::Protocol(ProtocolError::MissingContent)),
            ),
            (Status::Error, _) => r == Err::<T, ClientError>(
                ClientError::Refused { reason: response.reason },
            ),
        },
{
    match response.status {
        Status::Okay => match response.content {
            Some(content) => Ok(content),
            None => Err(
                ClientError::Exchange(ExchangeError::Protocol(ProtocolError::MissingContent)),
            ),
        },
        Status::Error => Err(ClientError::Refused { reason: response.reason }),
    }
}

/// The directory below `home` that holds the pages of a chapter: below the
/// downloads directory, in the directory of the title, under the chapter's
/// number and title.
pub open spec fn chapter_folder_of(
    home: Seq<char>,
    manga_title: Seq<char>,
    number: Seq<char>,
    chapter_title: Seq<char>,
) -> Seq<char> {
    home + "/Downloads/mager/"@ + manga_title + "/#"@ + number + " - "@ + chapter_title + "/"@
}

/// The directory below `home` that holds the pages of `chapter` of `manga`.
pub fn chapter_folder(home: &str, manga: &Manga, chapter: &Chapter) -> (r: String)
    ensures
        r@ == chapter_folder_of(home@, manga.title@, chapter.number@, chapter.title@),
{
    let mut folder = home.to_owned();
    folder.append("/Downloads/mager/");
    folder.append(manga.title.as_str());
    folder.append("/#");
    folder.append(chapter.number.as_str());
    folder.append(" - ");
    folder.append(chapter.title.as_str());
    folder.append("/");
    folder
}

/// The file in `folder` that holds the page at position `index` of a
/// chapter: pages are numbered from 1.
pub open spec fn page_file_of(folder: Seq<char>, index: nat) -> Seq<char> {
    folder + "/"@ + decimal_digits(index + 1)
}

/// One page to download: where it is, and the file it goes to.
#[derive(Clone, Debug, PartialEq, Eq)]
pub struct PageDownload {
    pub url: String,
    pub file: String,
}

/// The downloads that fetch `chapter` of `manga`: one for each page, in
/// reading order, each to the file numbered as the page is.
pub fn download_chapter(home: &str, manga: &Manga, chapter: &Chapter) -> (plan: Vec<
    PageDownload,
>)
    ensures
        plan@.len() == chapter.page_urls@.len(),
        forall|i: int|
            0 <= i < plan@.len() ==> (#[trigger] plan@[i]).url@ == chapter.page_urls@[i]@
                && plan@[i].file@ == page_file_of(
                chapter_folder_of(home@, manga.title@, chapter.number@, chapter.title@),
                i as nat,
            ),
{
    let folder = chapter_folder(home, manga, chapter);
    let mut plan: Vec<PageDownload> = Vec::new();
    let mut i: usize = 0;
    while i < chapter.page_urls.len()
        invariant
            i <= chapter.page_urls@.len(),
            plan@.len() == i,
            folder@ == chapter_folder_of(home@, manga.title@, chapter.number@, chapter.title@),
            forall|j: int|
                0 <= j < i ==> (#[trigger] plan@[j]).url@ == chapter.page_urls@[j]@
                    && plan@[j].file@ == page_file_of(folder@, j as nat),
        decreases chapter.page_urls@.len() - i,
    {
        let mut file = folder.clone();
        file.append("/");
        file.append(decimal(i as u64 + 1).as_str());
        plan.push(PageDownload { url: chapter.page_urls[i].clone(), file });
        i += 1;
    }
    plan
}

/// One entry of the sources directory.
#[derive(Clone, Debug, PartialEq, Eq)]
pub struct DirectoryEntry {
    pub name: String,
    pub is_file: bool,
}

/// The names of the files among `entries`, in their order.
pub open spec fn file_names(entries: Seq<DirectoryEntry>) -> Seq<Seq<char>>
    decreases entries.len(),
{
    if entries.len() == 0 {
        Seq::empty()
    } else if entries.last().is_file {
        file_names(entries.drop_last()).push(entries.last().name@)
    } else {
        file_names(entries.drop_last())
    }
}

/// The local sources that the entries of the sources directory stand for:
/// one for each file, under the file's name, without a process.
pub fn list_local_sources(entries: &Vec<DirectoryEntry>) -> (sources: Vec<Source>)
    ensures
        sources@.len() == file_names(entries@).len(),
        forall|i: int|
            0 <= i < sources@.len() ==> (#[trigger] sources@[i]).name@ == file_names(entries@)[i]
                && sources@[i].url is None && sources@[i].is_local && sources@[i].state
                == crate::supervisor::SourceState::Inactive,
{
    let mut sources: Vec<Source> = Vec::new();
    let mut i: usize = 0;
    assert(entries@.take(0) =~= Seq::<DirectoryEntry>::empty());
    while i < entries.len()
        invariant
            i <= entries@.len(),
            sources@.len() == file_names(entries@.take(i as int)).len(),
            forall|j: int|
                0 <= j < sources@.len() ==> (#[trigger] sources@[j]).name@ == file_names(
                    entries@.take(i as int),
                )[j] && sources@[j].url is None && sources@[j].is_local && sources@[j].state
                    == crate::supervisor::SourceState::Inactive,
        decreases entries@.len() - i,
    {
        let ghost head = entries@.take(i + 1);
        assert(head.last() == entries@[i as int]);
        assert(head.drop_last() =~= entries@.take(i as int));
        if entries[i].is_file {
            sources.push(Source::local(entries[i].name.clone()));
        }
        i += 1;
    }
    assert(entries@.take(i as int) =~= entries@);
    sources
}

} // verus!
