//! The rules by which the MangaDex source serves the protocol: what it asks
//! of the API for a command, and which response it makes of the answer.
//!
//! The calls to the API themselves are made by the program around this
//! library. It hands each answer in as a plain value: what the API returned,
//! or an [`ApiFailure`].

use vstd::prelude::*;
use crate::dto::{
    Author, AuthorView, ChapterList, ChapterListEntry, ChapterListEntryView, ChapterListView,
    ChapterView, Command, Filter, MangaList, MangaListEntry, MangaListEntryView, MangaListView,
    MangaView, Request, Response, ResponseView, Status,
};
use crate::mangadex::enums::RelationshipType;
use crate::mangadex::query::chapter::ChapterQuery;
use crate::mangadex::query::manga::SearchQuery;
use crate::mangadex::query::Order;
use crate::mangadex::schema::{
    text_for, Chapter, ChapterResponse, CustomResult, ErrorResponse, Manga, MangaResponse,
    PageResponse, Relationship,
};
use crate::paging::{page_offset, page_start, pages_needed, total_pages};
use crate::text::{chars_of, decimal, decimal_digits, joined, trim, trimmed};
use crate::wire::ProtocolError;

verus! {

/// Name under which this source answers.
pub const SOURCE_NAME: &'static str = "MangaDex";

/// Address of the API.
pub const BASE_URL: &'static str = "https://api.mangadex.org";

/// Language in which titles and descriptions are preferred.
pub const PREFERRED_LANGUAGE: &'static str = "en";

/// Number of titles on one page of search results.
pub const SEARCH_LIMIT: u32 = 20;

/// Number of chapters on one page of a chapter list.
pub const CHAPTER_LIMIT: u32 = 40;

/// Why a call to the API gave no answer.
#[derive(Clone, Debug, PartialEq, Eq)]
pub enum ApiFailure {
    /// The API answered with an HTTP status that reports an error. `report`
    /// is the error report in the answer's body, where it could be read.
    Status { code: u16, report: Option<ErrorResponse> },
    /// The API could not be reached, with what the transport says of it.
    Transport { message: Option<String> },
    /// Anything else.
    Other,
}

/// The reason given to the client for a failure: the status code and the
/// title of the first reported error, or what the transport says, or
/// `Unknown error` where neither is there.
pub open spec fn reason_of(failure: ApiFailure) -> Seq<char> {
    match failure {
        ApiFailure::Status { code, report: Some(r) } => if r.errors@.len() > 0 {
            decimal_digits(code as nat) + ": "@ + r.errors@[0].title@
        } else {
            "Unknown error"@
        },
        ApiFailure::Status { code, report: None } => "Unknown error"@,
        ApiFailure::Transport { message: Some(m) } => m@,
        ApiFailure::Transport { message: None } => "Unknown error"@,
        ApiFailure::Other => "Unknown error"@,
    }
}

/// The reason given to the client for `failure`.
pub fn error_reason(failure: &ApiFailure) -> (r: String)
    ensures
        r@ == reason_of(*failure),
{
    match failure {
        ApiFailure::Status { code, report: Some(r) } => {
            if r.errors.len() > 0 {
                let mut reason = decimal(*code as u64);
                reason.append(": ");
                reason.append(r.errors[0].title.as_str());
                reason
            } else {
                "Unknown error".to_owned()
            }
        },
        ApiFailure::Status { code, report: None } => "Unknown error".to_owned(),
        ApiFailure::Transport { message: Some(m) } => m.clone(),
        ApiFailure::Transport { message: None } => "Unknown error".to_owned(),
        ApiFailure::Other => "Unknown error".to_owned(),
    }
}

/// What a body that the API sent with a status of success stands for: what
/// was asked for, or, where the body is a report of errors after all, a
/// failure of no known reason.
pub fn answer_of<T>(body: CustomResult<T>) -> (r: Result<T, ApiFailure>)
    ensures
        match body {
            CustomResult::Found(found) => r == Ok::<T, ApiFailure>(found),
            CustomResult::Failed(_) => r == Err::<T, ApiFailure>(ApiFailure::Other),
        },
{
    match body {
        CustomResult::Found(found) => Ok(found),
        CustomResult::Failed(_) => Err(ApiFailure::Other),
    }
}

/// The model of a response that reports success with `content`.
pub open spec fn served<V>(reason: Seq<char>, source_name: Seq<char>, content: V) -> ResponseView<
    V,
> {
    ResponseView { status: Status::Okay, reason, source_name, content: Some(content) }
}

/// The model of a response that reports a failure.
pub open spec fn refused<V>(reason: Seq<char>, source_name: Seq<char>) -> ResponseView<V> {
    ResponseView { status: Status::Error, reason, source_name, content: None }
}

/// Every response that this source makes keeps the rule on status and
/// content: one that serves content is well formed for a command that bears
/// data, and one that refuses is well formed for every command.
pub proof fn lemma_responses_well_formed<V>(
    reason: Seq<char>,
    source_name: Seq<char>,
    content: V,
    data_bearing: bool,
)
    ensures
        served(reason, source_name, content).well_formed(true),
        refused::<V>(reason, source_name).well_formed(data_bearing),
{
}

/// The response that reports `failure` to the client.
pub fn create_error_response<T: View>(failure: &ApiFailure, source_name: &str) -> (r: Response<T>)
    ensures
        r@ == refused::<T::V>(reason_of(*failure), source_name@),
{
    Response::failed(source_name.to_owned(), error_reason(failure))
}

/// The title of a catalog entry whose titles by language are `entries`: the
/// one in `language`, else the one listed first, else none.
pub open spec fn title_in(entries: Seq<(String, String)>, language: Seq<char>) -> Option<
    Seq<char>,
> {
    match text_for(entries, language) {
        Some(t) => Some(t),
        None => if entries.len() > 0 {
            Some(entries[0].1@)
        } else {
            None
        },
    }
}

/// The title of `manga` in `preferred_lang`; where it has none in that
/// language, the title that the API lists first; `None` where it has no
/// title at all.
pub fn extract_title(preferred_lang: &str, manga: &Manga) -> (r: Option<String>)
    ensures
        match r {
            Some(t) => title_in(manga.attributes.title.entries@, preferred_lang@) == Some(t@),
            None => title_in(manga.attributes.title.entries@, preferred_lang@) is None,
        },
{
    match manga.attributes.title.get(preferred_lang) {
        Some(t) => Some(t.clone()),
        None => match manga.attributes.title.first() {
            Some(t) => Some(t.clone()),
            None => None,
        },
    }
}

/// The title shown for `manga`: its title in the preferred language or the
/// first listed, `Unknown Title` where it has none.
pub open spec fn shown_title(manga: Manga) -> Seq<char> {
    match title_in(manga.attributes.title.entries@, PREFERRED_LANGUAGE@) {
        Some(t) => t,
        None => "Unknown Title"@,
    }
}

/// The title shown for `manga`.
pub fn title_or_unknown(manga: &Manga) -> (r: String)
    ensures
        r@ == shown_title(*manga),
{
    match extract_title(PREFERRED_LANGUAGE, manga) {
        Some(t) => t,
        None => "Unknown Title".to_owned(),
    }
}

/// The list entry that stands for `manga`.
pub open spec fn list_entry_of(manga: Manga) -> MangaListEntryView {
    MangaListEntryView {
        identifier: manga.id@,
        title: shown_title(manga),
        status: manga.attributes.status.dto_status(),
    }
}

/// The page of search results that the API's answer `found` makes for page
/// number `page`: as many pages in all as the total fills at
/// `SEARCH_LIMIT` titles each, and an entry for each title of the answer. A
/// result without titles has no pages and no entries.
pub open spec fn manga_page_of(found: MangaResponse, page: u32) -> MangaListView {
    MangaListView {
        page,
        total_page: pages_needed(found.total as nat, SEARCH_LIMIT as nat) as u32,
        data: if found.total == 0 {
            Seq::empty()
        } else {
            Seq::new(found.data@.len(), |i: int| list_entry_of(found.data@[i]))
        },
    }
}

/// A page of results is empty and one of no pages exactly when the whole
/// result is empty, and otherwise one of as many pages as the result fills.
pub proof fn lemma_manga_page_of(found: MangaResponse, page: u32)
    ensures
        manga_page_of(found, page).total_page == pages_needed(
            found.total as nat,
            SEARCH_LIMIT as nat,
        ),
        found.total == 0 ==> manga_page_of(found, page).total_page == 0 && manga_page_of(
            found,
            page,
        ).data.len() == 0,
        manga_page_of(found, page).total_page == 0 ==> found.total == 0,
{
    crate::paging::lemma_pages_needed_is_ceiling(found.total as nat, SEARCH_LIMIT as nat);
}

/// Whether `q` is the query that a search for `keyword` puts to the API for
/// the page whose first title is number `start`, sorted in direction `sort`:
/// `SEARCH_LIMIT` titles from `start` on, every sort key in that direction,
/// and in every other respect a fresh query.
pub open spec fn searches_for(
    q: SearchQuery,
    keyword: Seq<char>,
    start: nat,
    sort: crate::dto::Order,
) -> bool {
    &&& q.limit == SEARCH_LIMIT
    &&& q.offset == start
    &&& q.order == crate::mangadex::query::manga::SortingOrder::uniform(Order::of_dto(sort))
    &&& q.title matches Some(t)
    &&& t@ == keyword
    &&& (SearchQuery {
        limit: 20,
        offset: 0,
        order: crate::mangadex::query::manga::SortingOrder::uniform(Order::Descending),
        ..q
    }).has_defaults()
}

/// The query that a search for `keyword` puts to the API for page `page`
/// under `filter`. `None` where there is no such page: `page` is 0, or so
/// large that its first title cannot be numbered.
pub fn search_query(keyword: &str, page: u32, filter: &Filter) -> (r: Option<SearchQuery>)
    ensures
        match page_start(page as nat, SEARCH_LIMIT as nat) {
            Some(start) => if start <= u32::MAX {
                r is Some && searches_for(r->0, keyword@, start, filter.sort)
            } else {
                r is None
            },
            None => r is None,
        },
{
    match page_offset(page, SEARCH_LIMIT) {
        Some(offset) => Some(
            SearchQuery::new(keyword).set_limit(SEARCH_LIMIT).set_offset(offset).set_order(
                crate::mangadex::query::manga::SortingOrder::from_order(filter.sort),
            ),
        ),
        None => None,
    }
}

/// The response to a search for page `page`, made of the API's answer: the
/// page of results where the API answered, the failure's reason where it did
/// not.
pub fn search(page: u32, answer: &Result<MangaResponse, ApiFailure>) -> (r: Response<MangaList>)
    ensures
        match *answer {
            Ok(found) => r@ == served("All good"@, SOURCE_NAME@, manga_page_of(found, page)),
            Err(failure) => r@ == refused::<MangaListView>(reason_of(failure), SOURCE_NAME@),
        },
{
    let found = match answer {
        Ok(found) => found,
        Err(failure) => { return create_error_response(failure, SOURCE_NAME); },
    };
    let total_page = total_pages(found.total, SEARCH_LIMIT);
    let mut data: Vec<MangaListEntry> = Vec::new();
    if found.total != 0 {
        let mut i: usize = 0;
        while i < found.data.len()
            invariant
                i <= found.data@.len(),
                data@.len() == i,
                forall|j: int| 0 <= j < i ==> (#[trigger] data@[j])@ == list_entry_of(found.data@[j]),
            decreases found.data@.len() - i,
        {
            let manga = &found.data[i];
            data.push(
                MangaListEntry {
                    identifier: manga.id.clone(),
                    title: title_or_unknown(manga),
                    status: manga.attributes.status.to_dto(),
                },
            );
            i += 1;
        }
    }
    let list = MangaList { page, total_page, data };
    assert(list@.data =~= manga_page_of(*found, page).data);
    Response::with_content(SOURCE_NAME.to_owned(), "All good".to_owned(), list)
}

/// The list entry that stands for `chapter`: `No title` and `No number`
/// where the API gives none.
pub open spec fn chapter_entry_of(chapter: Chapter) -> ChapterListEntryView {
    ChapterListEntryView {
        identifier: chapter.id@,
        title: match chapter.attributes.title {
            Some(t) => t@,
            None => "No title"@,
        },
        number: match chapter.attributes.chapter {
            Some(n) => n@,
            None => "No number"@,
        },
    }
}

/// The page of chapters that the API's answer `found` makes for page number
/// `page`, laid out as [`manga_page_of`] lays out titles, at `CHAPTER_LIMIT`
/// chapters a page.
pub open spec fn chapter_page_of(found: ChapterResponse, page: u32) -> ChapterListView {
    ChapterListView {
        page,
        total_page: pages_needed(found.total as nat, CHAPTER_LIMIT as nat) as u32,
        data: if found.total == 0 {
            Seq::empty()
        } else {
            Seq::new(found.data@.len(), |i: int| chapter_entry_of(found.data@[i]))
        },
    }
}

/// A page of chapters is empty and one of no pages exactly when the title
/// has no chapters, and otherwise one of as many pages as the chapters fill.
pub proof fn lemma_chapter_page_of(found: ChapterResponse, page: u32)
    ensures
        chapter_page_of(found, page).total_page == pages_needed(
            found.total as nat,
            CHAPTER_LIMIT as nat,
        ),
        found.total == 0 ==> chapter_page_of(found, page).total_page == 0 && chapter_page_of(
            found,
            page,
        ).data.len() == 0,
        chapter_page_of(found, page).total_page == 0 ==> found.total == 0,
{
    crate::paging::lemma_pages_needed_is_ceiling(found.total as nat, CHAPTER_LIMIT as nat);
}

/// Whether `q` is the query that asks the API for the page of chapters whose
/// first chapter is number `start`, sorted in direction `sort`:
/// `CHAPTER_LIMIT` chapters from `start` on, every sort key in that
/// direction, and in every other respect a fresh query.
pub open spec fn lists_chapters(q: ChapterQuery, start: nat, sort: crate::dto::Order) -> bool {
    &&& q.limit == CHAPTER_LIMIT
    &&& q.offset == start
    &&& q.order == crate::mangadex::query::chapter::SortingOrder::uniform(Order::of_dto(sort))
    &&& (ChapterQuery {
        order: crate::mangadex::query::chapter::SortingOrder::uniform(Order::Ascending),
        ..q
    }).has_defaults()
}

/// The query that asks the API for page `page` of a title's chapters under
/// `filter`. Pages lie `CHAPTER_LIMIT` chapters apart, so that the pages of
/// a title together hold each of its chapters once. `None` where there is no
/// such page: `page` is 0, or so large that its first chapter cannot be
/// numbered.
pub fn chapter_query(page: u32, filter: &Filter) -> (r: Option<ChapterQuery>)
    ensures
        match page_start(page as nat, CHAPTER_LIMIT as nat) {
            Some(start) => if start <= u32::MAX {
                r is Some && lists_chapters(r->0, start, filter.sort)
            } else {
                r is None
            },
            None => r is None,
        },
{
    match page_offset(page, CHAPTER_LIMIT) {
        Some(offset) => Some(
            ChapterQuery::new(CHAPTER_LIMIT, offset).set_order(
                crate::mangadex::query::chapter::SortingOrder::from_order(filter.sort),
            ),
        ),
        None => None,
    }
}

/// The response to a request for page `page` of a title's chapters, made of
/// the API's answer.
pub fn fetch_chapter_list(page: u32, answer: &Result<ChapterResponse, ApiFailure>) -> (r: Response<
    ChapterList,
>)
    ensures
        match *answer {
            Ok(found) => r@ == served("All good"@, SOURCE_NAME@, chapter_page_of(found, page)),
            Err(failure) => r@ == refused::<ChapterListView>(reason_of(failure), SOURCE_NAME@),
        },
{
    let found = match answer {
        Ok(found) => found,
        Err(failure) => { return create_error_response(failure, SOURCE_NAME); },
    };
    let total_page = total_pages(found.total, CHAPTER_LIMIT);
    let mut data: Vec<ChapterListEntry> = Vec::new();
    if found.total != 0 {
        let mut i: usize = 0;
        while i < found.data.len()
            invariant
                i <= found.data@.len(),
                data@.len() == i,
                forall|j: int|
                    0 <= j < i ==> (#[trigger] data@[j])@ == chapter_entry_of(found.data@[j]),
            decreases found.data@.len() - i,
        {
            let chapter = &found.data[i];
            let title = match &chapter.attributes.title {
                Some(t) => t.clone(),
                None => "No title".to_owned(),
            };
            let number = match &chapter.attributes.chapter {
                Some(n) => n.clone(),
                None => "No number".to_owned(),
            };
            data.push(ChapterListEntry { identifier: chapter.id.clone(), title, number });
            i += 1;
        }
    }
    let list = ChapterList { page, total_page, data };
    assert(list@.data =~= chapter_page_of(*found, page).data);
    Response::with_content(SOURCE_NAME.to_owned(), "All good".to_owned(), list)
}

/// The identifier of the title that `relationships` point to: that of the
/// last relationship to a title, empty where there is none.
pub open spec fn manga_in(relationships: Seq<Relationship>) -> Seq<char>
    decreases relationships.len(),
{
    if relationships.len() == 0 {
        Seq::empty()
    } else if relationships.last().rel_type == RelationshipType::Manga {
        relationships.last().id@
    } else {
        manga_in(relationships.drop_last())
    }
}

/// The identifier of the title that `relationships` point to.
pub fn manga_identifier(relationships: &Vec<Relationship>) -> (r: String)
    ensures
        r@ == manga_in(relationships@),
{
    let mut i: usize = relationships.len();
    assert(relationships@.take(i as int) =~= relationships@);
    while i > 0
        invariant
            i <= relationships@.len(),
            manga_in(relationships@) == manga_in(relationships@.take(i as int)),
        decreases i,
    {
        let ghost head = relationships@.take(i as int);
        assert(head.last() == relationships@[i - 1]);
        assert(head.drop_last() =~= relationships@.take(i - 1));
        match relationships[i - 1].rel_type {
            RelationshipType::Manga => {
                return relationships[i - 1].id.clone();
            },
            _ => {},
        }
        i -= 1;
    }
    String::new()
}

/// The address of the page file `file` of the chapter stored under `hash`
/// on the page server `base_url`.
pub open spec fn page_address(base_url: Seq<char>, hash: Seq<char>, file: Seq<char>) -> Seq<
    char,
> {
    base_url + "/data/"@ + hash + "/"@ + file
}

/// The addresses of a chapter's pages, in reading order.
pub fn get_chapter_pages(pages: &PageResponse) -> (r: Vec<String>)
    ensures
        r@.len() == pages.chapter.data@.len(),
        forall|i: int|
            0 <= i < r@.len() ==> (#[trigger] r@[i])@ == page_address(
                pages.base_url@,
                pages.chapter.hash@,
                pages.chapter.data@[i]@,
            ),
{
    let mut urls: Vec<String> = Vec::new();
    let mut i: usize = 0;
    while i < pages.chapter.data.len()
        invariant
            i <= pages.chapter.data@.len(),
            urls@.len() == i,
            forall|j: int|
                0 <= j < i ==> (#[trigger] urls@[j])@ == page_address(
                    pages.base_url@,
                    pages.chapter.hash@,
                    pages.chapter.data@[j]@,
                ),
        decreases pages.chapter.data@.len() - i,
    {
        let mut url = pages.base_url.clone();
        url.append("/data/");
        url.append(pages.chapter.hash.as_str());
        url.append("/");
        url.append(pages.chapter.data[i].as_str());
        urls.push(url);
        i += 1;
    }
    urls
}

/// The chapter that the API's answers make: `chapter` tells what it is,
/// `pages` where its pages are served. `No Title` and `No Number` stand
/// where the API gives none.
pub open spec fn chapter_of(chapter: Chapter, pages: PageResponse) -> ChapterView {
    ChapterView {
        identifier: chapter.id@,
        manga_identifier: match chapter.relationships {
            Some(relationships) => manga_in(relationships@),
            None => Seq::empty(),
        },
        title: match chapter.attributes.title {
            Some(t) => t@,
            None => "No Title"@,
        },
        number: match chapter.attributes.chapter {
            Some(n) => n@,
            None => "No Number"@,
        },
        language: chapter.attributes.translated_language@,
        page_urls: Seq::new(
            pages.chapter.data@.len(),
            |i: int| page_address(pages.base_url@, pages.chapter.hash@, pages.chapter.data@[i]@),
        ),
    }
}

/// The response to a request for a chapter, made of the API's two answers:
/// the reason of the first failure where one of them failed, the chapter
/// where neither did.
pub fn fetch_chapter(
    answer: &Result<Chapter, ApiFailure>,
    pages: &Result<PageResponse, ApiFailure>,
) -> (r: Response<crate::dto::Chapter>)
    ensures
        match (*answer, *pages) {
            (Ok(chapter), Ok(served_from)) => r@ == served(
                "All good"@,
                SOURCE_NAME@,
                chapter_of(chapter, served_from),
            ),
            (Ok(_), Err(failure)) => r@ == refused::<ChapterView>(
                reason_of(failure),
                SOURCE_NAME@,
            ),
            (Err(failure), _) => r@ == refused::<ChapterView>(reason_of(failure), SOURCE_NAME@),
        },
{
    let chapter = match answer {
        Ok(chapter) => chapter,
        Err(failure) => { return create_error_response(failure, SOURCE_NAME); },
    };
    let served_from = match pages {
        Ok(served_from) => served_from,
        Err(failure) => { return create_error_response(failure, SOURCE_NAME); },
    };
    let page_urls = get_chapter_pages(served_from);
    let manga_identifier = match &chapter.relationships {
        Some(relationships) => manga_identifier(relationships),
        None => String::new(),
    };
    let title = match &chapter.attributes.title {
        Some(t) => t.clone(),
        None => "No Title".to_owned(),
    };
    let number = match &chapter.attributes.chapter {
        Some(n) => n.clone(),
        None => "No Number".to_owned(),
    };
    let content = crate::dto::Chapter {
        identifier: chapter.id.clone(),
        manga_identifier,
        title,
        number,
        language: chapter.attributes.translated_language.clone(),
        page_urls,
    };
    assert(content@.page_urls =~= chapter_of(*chapter, *served_from).page_urls);
    Response::with_content(SOURCE_NAME.to_owned(), "All good".to_owned(), content)
}

/// Part that a person has in a title.
#[derive(Clone, Copy, Debug, PartialEq, Eq, Structural)]
pub enum Role {
    Author,
    Artist,
}

impl Role {
    /// The word by which the role is shown.
    pub open spec fn word(self) -> Seq<char> {
        match self {
            Role::Author => "Author"@,
            Role::Artist => "Artist"@,
        }
    }

    /// The word by which the role is shown.
    pub fn to_word(self) -> (r: String)
        ensures
            r@ == self.word(),
    {
        match self {
            Role::Author => "Author".to_owned(),
            Role::Artist => "Artist".to_owned(),
        }
    }
}

/// A person credited on a title: the identifier under which the API knows
/// the person, and the role.
#[derive(Clone, Debug, PartialEq, Eq)]
pub struct Credit {
    pub id: String,
    pub role: Role,
}

/// The credits among `relationships`: one for each relationship to an author
/// or an artist, in their order.
pub open spec fn credits_in(relationships: Seq<Relationship>) -> Seq<(Seq<char>, Role)>
    decreases relationships.len(),
{
    if relationships.len() == 0 {
        Seq::empty()
    } else {
        let before = credits_in(relationships.drop_last());
        match relationships.last().rel_type {
            RelationshipType::Author => before.push((relationships.last().id@, Role::Author)),
            RelationshipType::Artist => before.push((relationships.last().id@, Role::Artist)),
            _ => before,
        }
    }
}

/// The credits of a list, as pairs of identifier and role.
pub open spec fn credit_pairs(credits: Seq<Credit>) -> Seq<(Seq<char>, Role)> {
    Seq::new(credits.len(), |i: int| (credits[i].id@, credits[i].role))
}

/// The people credited on `manga`, whose names are to be asked of the API;
/// `None` where the API's answer holds no relationships at all.
pub fn credits(manga: &Manga) -> (r: Option<Vec<Credit>>)
    ensures
        match manga.relationships {
            Some(relationships) => r is Some && credit_pairs(r->0@) == credits_in(relationships@),
            None => r is None,
        },
{
    let relationships = match &manga.relationships {
        Some(relationships) => relationships,
        None => { return None; },
    };
    let mut out: Vec<Credit> = Vec::new();
    let mut i: usize = 0;
    assert(credit_pairs(out@) =~= credits_in(relationships@.take(0)));
    while i < relationships.len()
        invariant
            i <= relationships@.len(),
            credit_pairs(out@) == credits_in(relationships@.take(i as int)),
        decreases relationships@.len() - i,
    {
        let ghost head = relationships@.take(i + 1);
        let ghost before = credit_pairs(out@);
        assert(head.last() == relationships@[i as int]);
        assert(head.drop_last() =~= relationships@.take(i as int));
        match relationships[i].rel_type {
            RelationshipType::Author => {
                out.push(Credit { id: relationships[i].id.clone(), role: Role::Author });
                assert(credit_pairs(out@) =~= before.push(
                    (relationships@[i as int].id@, Role::Author),
                ));
            },
            RelationshipType::Artist => {
                out.push(Credit { id: relationships[i].id.clone(), role: Role::Artist });
                assert(credit_pairs(out@) =~= before.push(
                    (relationships@[i as int].id@, Role::Artist),
                ));
            },
            _ => {},
        }
        i += 1;
    }
    assert(relationships@.take(i as int) =~= relationships@);
    Some(out)
}

/// Whether a character of a name, as the API gives it, is kept: an ASCII
/// character that is no round bracket.
pub open spec fn is_kept(c: char) -> bool {
    (c as u32) < 128 && c != '(' && c != ')'
}

/// The kept characters of `name`, in order.
pub open spec fn kept_chars(name: Seq<char>) -> Seq<char>
    decreases name.len(),
{
    if name.len() == 0 {
        Seq::empty()
    } else if is_kept(name.last()) {
        kept_chars(name.drop_last()).push(name.last())
    } else {
        kept_chars(name.drop_last())
    }
}

/// The name under which a person is shown: the kept characters of the name
/// that the API gives, without blanks at either end.
pub open spec fn shown_name(name: Seq<char>) -> Seq<char> {
    trimmed(kept_chars(name))
}

/// The name under which a person is shown.
pub fn clean_name(name: &str) -> (r: String)
    ensures
        r@ == shown_name(name@),
{
    let chars = chars_of(name);
    let mut kept: Vec<char> = Vec::new();
    let mut i: usize = 0;
    assert(kept@ =~= kept_chars(chars@.take(0)));
    while i < chars.len()
        invariant
            i <= chars@.len(),
            kept@ == kept_chars(chars@.take(i as int)),
        decreases chars@.len() - i,
    {
        let ghost head = chars@.take(i + 1);
        assert(head.last() == chars@[i as int]);
        assert(head.drop_last() =~= chars@.take(i as int));
        let c = chars[i];
        if (c as u32) < 128 && c != '(' && c != ')' {
            kept.push(c);
        }
        i += 1;
    }
    assert(chars@.take(i as int) =~= chars@);
    trim(&kept)
}

/// The author entry for a person with role `role` whose name the API gives
/// as `name`.
pub fn credited(name: &str, role: Role) -> (r: Author)
    ensures
        r@ == (AuthorView { name: shown_name(name@), details: role.word() }),
{
    Author { name: clean_name(name), details: role.to_word() }
}

/// The first failure among `names`, if one of them is a failure.
pub open spec fn first_failure(names: Seq<Result<String, ApiFailure>>) -> Option<ApiFailure>
    decreases names.len(),
{
    if names.len() == 0 {
        None
    } else {
        match names[0] {
            Err(failure) => Some(failure),
            Ok(_) => first_failure(names.drop_first()),
        }
    }
}

/// The description shown for a title: the one in the preferred language,
/// `No description` where the API gives none in it.
pub open spec fn shown_description(manga: Manga) -> Seq<char> {
    match manga.attributes.description {
        Some(d) => match text_for(d.entries@, PREFERRED_LANGUAGE@) {
            Some(t) => t,
            None => "No description"@,
        },
        None => "No description"@,
    }
}

/// The title with its details that the API's answers make, when no answer is
/// a failure: `manga` tells of the title, and `names[i]` is the name of the
/// person of its `i`-th credit.
pub open spec fn manga_of(manga: Manga, names: Seq<Result<String, ApiFailure>>) -> MangaView {
    MangaView {
        identifier: manga.id@,
        title: shown_title(manga),
        authors: Seq::new(
            names.len(),
            |i: int|
                AuthorView {
                    name: shown_name(names[i]->Ok_0@),
                    details: credits_in(manga.relationships->0@)[i].1.word(),
                },
        ),
        original_language: manga.attributes.original_language@,
        language: PREFERRED_LANGUAGE@,
        description: shown_description(manga),
        status: manga.attributes.status.dto_status(),
    }
}

/// What is answered to a request for a title, given the API's answers.
///
/// The failure to fetch the title is reported first. A title without
/// relationships, or with another number of names than it has credits, is
/// reported as an unknown error. Then the first failure to fetch a name is
/// reported. Otherwise the title is served.
pub open spec fn manga_response(
    answer: Result<Manga, ApiFailure>,
    names: Seq<Result<String, ApiFailure>>,
) -> ResponseView<MangaView> {
    match answer {
        Err(failure) => refused(reason_of(failure), SOURCE_NAME@),
        Ok(manga) => match manga.relationships {
            None => refused(reason_of(ApiFailure::Other), SOURCE_NAME@),
            Some(relationships) => if credits_in(relationships@).len() != names.len() {
                refused(reason_of(ApiFailure::Other), SOURCE_NAME@)
            } else {
                match first_failure(names) {
                    Some(failure) => refused(reason_of(failure), SOURCE_NAME@),
                    None => served("All good!"@, SOURCE_NAME@, manga_of(manga, names)),
                }
            },
        },
    }
}

/// The response to a request for a title, made of the API's answers:
/// `answer` for the title itself, and `names` for the name of each person
/// that [`credits`] lists for it, in that order.
pub fn fetch_manga(answer: &Result<Manga, ApiFailure>, names: &Vec<Result<String, ApiFailure>>) -> (r:
    Response<crate::dto::Manga>)
    ensures
        r@ == manga_response(*answer, names@),
{
    let manga = match answer {
        Ok(manga) => manga,
        Err(failure) => { return create_error_response(failure, SOURCE_NAME); },
    };
    let listed = match credits(manga) {
        Some(listed) => listed,
        None => { return create_error_response(&ApiFailure::Other, SOURCE_NAME); },
    };
    let ghost pairs = credits_in(manga.relationships->0@);
    if listed.len() != names.len() {
        return create_error_response(&ApiFailure::Other, SOURCE_NAME);
    }
    let mut authors: Vec<Author> = Vec::new();
    let mut i: usize = 0;
    assert(names@.skip(0) =~= names@);
    while i < names.len()
        invariant
            i <= names@.len(),
            listed@.len() == names@.len(),
            credit_pairs(listed@) == pairs,
            *answer == Ok::<Manga, ApiFailure>(*manga),
            manga.relationships is Some,
            pairs == credits_in(manga.relationships->0@),
            authors@.len() == i,
            first_failure(names@) == first_failure(names@.skip(i as int)),
            forall|j: int| 0 <= j < i ==> names@[j] is Ok,
            forall|j: int|
                0 <= j < i ==> (#[trigger] authors@[j])@ == (AuthorView {
                    name: shown_name(names@[j]->Ok_0@),
                    details: pairs[j].1.word(),
                }),
        decreases names@.len() - i,
    {
        let ghost rest = names@.skip(i as int);
        assert(rest[0] == names@[i as int]);
        assert(rest.drop_first() =~= names@.skip(i + 1));
        match &names[i] {
            Ok(name) => {
                assert(pairs[i as int] == (listed@[i as int].id@, listed@[i as int].role));
                authors.push(credited(name.as_str(), listed[i].role));
            },
            Err(failure) => {
                return create_error_response(failure, SOURCE_NAME);
            },
        }
        i += 1;
    }
    assert(first_failure(names@.skip(i as int)) is None);
    let description = match &manga.attributes.description {
        Some(d) => match d.get(PREFERRED_LANGUAGE) {
            Some(t) => t.clone(),
            None => "No description".to_owned(),
        },
        None => "No description".to_owned(),
    };
    let content = crate::dto::Manga {
        identifier: manga.id.clone(),
        title: title_or_unknown(manga),
        authors,
        original_language: manga.attributes.original_language.clone(),
        language: PREFERRED_LANGUAGE.to_owned(),
        description,
        status: manga.attributes.status.to_dto(),
    };
    assert(content@.authors =~= manga_of(*manga, names@).authors);
    Response::with_content(SOURCE_NAME.to_owned(), "All good!".to_owned(), content)
}

/// One call to the API.
#[derive(Debug, PartialEq, Eq)]
pub enum ApiCall {
    /// Search titles.
    Search { query: SearchQuery },
    /// List the chapters of the title `manga`.
    Chapters { manga: String, query: ChapterQuery },
    /// Fetch the title `id`.
    Manga { id: String },
    /// Fetch the chapter `id`.
    Chapter { id: String },
    /// Ask where the pages of the chapter `id` are served.
    Pages { id: String },
    /// Fetch the author `id`.
    Author { id: String },
}

impl ApiCall {
    /// The path of the call below the address of the API.
    pub open spec fn path_of(self) -> Seq<char> {
        match self {
            ApiCall::Search { query } => "/manga"@,
            ApiCall::Chapters { manga, query } => "/manga/"@ + manga@ + "/feed"@,
            ApiCall::Manga { id } => "/manga/"@ + id@,
            ApiCall::Chapter { id } => "/chapter/"@ + id@,
            ApiCall::Pages { id } => "/at-home/server/"@ + id@,
            ApiCall::Author { id } => "/author/"@ + id@,
        }
    }

    /// The path of the call below the address of the API.
    pub fn path(&self) -> (r: String)
        ensures
            r@ == self.path_of(),
    {
        match self {
            ApiCall::Search { query } => "/manga".to_owned(),
            ApiCall::Chapters { manga, query } => {
                let mut p = joined("/manga/", manga.as_str());
                p.append("/feed");
                p
            },
            ApiCall::Manga { id } => joined("/manga/", id.as_str()),
            ApiCall::Chapter { id } => joined("/chapter/", id.as_str()),
            ApiCall::Pages { id } => joined("/at-home/server/", id.as_str()),
            ApiCall::Author { id } => joined("/author/", id.as_str()),
        }
    }

    /// The address of the call at the API `base_url`, with the query string
    /// `query_string` where the call has one.
    pub fn url(&self, base_url: &str, query_string: Option<&str>) -> (r: String)
        ensures
            r@ == match query_string {
                Some(q) => base_url@ + self.path_of() + "?"@ + q@,
                None => base_url@ + self.path_of(),
            },
    {
        let mut address = joined(base_url, self.path().as_str());
        match query_string {
            Some(q) => {
                address.append("?");
                address.append(q);
            },
            None => {},
        }
        address
    }
}

/// What the source does with a request.
#[derive(Debug, PartialEq, Eq)]
pub enum Plan {
    /// Answer at once that the source is alive.
    Pong,
    /// Answer at once that the request cannot be served, with the reason.
    Reject { reason: String },
    /// Put `query` to the API and answer with [`search`] for page `page`.
    Search { page: u32, query: SearchQuery },
    /// Put `query` to the API for the chapters of `manga` and answer with
    /// [`fetch_chapter_list`] for page `page`.
    ChapterList { page: u32, manga: String, query: ChapterQuery },
    /// Fetch the title `id` and the names of its credits, and answer with
    /// [`fetch_manga`].
    Manga { id: String },
    /// Fetch the chapter `id` and where its pages are served, and answer with
    /// [`fetch_chapter`].
    Chapter { id: String },
}

/// What the source does with the command `command`. Every command gets an
/// answer: one that asks for a page that does not exist is rejected with a
/// reason, and none is left unanswered.
pub open spec fn planned(command: Command, plan: Plan) -> bool {
    match command {
        Command::Ping => plan is Pong,
        Command::Search { keyword, page, filter } => match page_start(
            page as nat,
            SEARCH_LIMIT as nat,
        ) {
            Some(start) => if start <= u32::MAX {
                &&& plan matches Plan::Search { page: p, query }
                &&& p == page
                &&& searches_for(query, keyword@, start, filter.sort)
            } else {
                plan matches Plan::Reject { reason } && reason@ == "There is no such page"@
            },
            None => plan matches Plan::Reject { reason } && reason@ == "There is no such page"@,
        },
        Command::FetchChapterList { identifier, page, filter } => match page_start(
            page as nat,
            CHAPTER_LIMIT as nat,
        ) {
            Some(start) => if start <= u32::MAX {
                &&& plan matches Plan::ChapterList { page: p, manga, query }
                &&& p == page
                &&& manga@ == identifier@
                &&& lists_chapters(query, start, filter.sort)
            } else {
                plan matches Plan::Reject { reason } && reason@ == "There is no such page"@
            },
            None => plan matches Plan::Reject { reason } && reason@ == "There is no such page"@,
        },
        Command::FetchManga { identifier } => plan matches Plan::Manga { id } && id@
            == identifier@,
        Command::FetchChapter { identifier } => plan matches Plan::Chapter { id } && id@
            == identifier@,
    }
}

/// Decides what the source does with a request.
pub fn handle_request(request: &Request) -> (plan: Plan)
    ensures
        planned(request.command, plan),
{
    match &request.command {
        Command::Ping => Plan::Pong,
        Command::Search { keyword, page, filter } => match search_query(
            keyword.as_str(),
            *page,
            filter,
        ) {
            Some(query) => Plan::Search { page: *page, query },
            None => Plan::Reject { reason: "There is no such page".to_owned() },
        },
        Command::FetchChapterList { identifier, page, filter } => match chapter_query(
            *page,
            filter,
        ) {
            Some(query) => Plan::ChapterList { page: *page, manga: identifier.clone(), query },
            None => Plan::Reject { reason: "There is no such page".to_owned() },
        },
        Command::FetchManga { identifier } => Plan::Manga { id: identifier.clone() },
        Command::FetchChapter { identifier } => Plan::Chapter { id: identifier.clone() },
    }
}

/// The answer to `Ping`: success, without content.
pub fn ping_response() -> (r: Response<()>)
    ensures
        r@ == (ResponseView::<()> {
            status: Status::Okay,
            reason: "Pong, this source is active"@,
            source_name: SOURCE_NAME@,
            content: None,
        }),
{
    Response::acknowledged(SOURCE_NAME.to_owned(), "Pong, this source is active".to_owned())
}

/// The answer to a request that is rejected for `reason`.
pub fn rejection(reason: String) -> (r: Response<()>)
    ensures
        r@ == refused::<()>(reason@, SOURCE_NAME@),
{
    Response::failed(SOURCE_NAME.to_owned(), reason)
}

/// The reason given to a client whose request could not be read.
pub open spec fn unreadable_reason(error: ProtocolError) -> Seq<char> {
    match error {
        ProtocolError::Malformed => "The request is not JSON"@,
        ProtocolError::UnexpectedShape => "The request names no known command with its arguments"@,
        _ => "The request could not be read"@,
    }
}

/// The answer to a request that could not be read: a source answers every
/// request, this one with an error and the reason.
pub fn answer_unreadable(error: ProtocolError) -> (r: Response<()>)
    ensures
        r@ == refused::<()>(unreadable_reason(error), SOURCE_NAME@),
{
    let reason = match error {
        ProtocolError::Malformed => "The request is not JSON".to_owned(),
        ProtocolError::UnexpectedShape => "The request names no known command with its arguments".to_owned(),
        _ => "The request could not be read".to_owned(),
    };
    Response::failed(SOURCE_NAME.to_owned(), reason)
}

} // verus!
