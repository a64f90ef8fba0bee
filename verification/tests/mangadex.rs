use mager::dto::{Author, Command, Filter, Order, Request, Response, Status};
use mager::mangadex::backend::{
    answer_of, answer_unreadable, chapter_query, clean_name, create_error_response, credited, credits,
    error_reason, extract_title, fetch_chapter, fetch_chapter_list, fetch_manga,
    get_chapter_pages, handle_request, manga_identifier, ping_response, rejection, search,
    search_query, title_or_unknown, ApiCall, ApiFailure, Credit, Plan, Role, BASE_URL,
    CHAPTER_LIMIT, SEARCH_LIMIT, SOURCE_NAME,
};
use mager::mangadex::enums::{
    ContentRating, Demographic, PublicationStatus, RelationshipType, State,
};
use mager::mangadex::query::chapter::ChapterQuery;
use mager::mangadex::query::manga::SearchQuery;
use mager::mangadex::query::{LogicMode, Order as ApiOrder};
use mager::mangadex::schema::{
    CustomResult, Chapter, ChapterAttr, ChapterPages, ChapterResponse, ErrorResponse, LocalizedString, MDError,
    Manga, MangaAttr, MangaResponse, PageResponse, Relationship,
};
use mager::wire::ProtocolError;

fn localized(entries: Vec<(&str, &str)>) -> LocalizedString {
    LocalizedString {
        entries: entries.into_iter().map(|(k, v)| (k.to_string(), v.to_string())).collect(),
    }
}

fn relationship(id: &str, rel_type: RelationshipType) -> Relationship {
    Relationship { id: id.to_string(), rel_type, related: None }
}

fn manga(id: &str, titles: Vec<(&str, &str)>, status: PublicationStatus) -> Manga {
    Manga {
        id: id.to_string(),
        entity_type: "manga".to_string(),
        attributes: MangaAttr {
            title: localized(titles),
            alt_titles: None,
            description: Some(localized(vec![("ja", "説明"), ("en", "A description")])),
            is_locked: false,
            links: None,
            original_language: "ja".to_string(),
            last_volume: None,
            last_chapter: None,
            publication_demographic: Some(Demographic::Shounen),
            status,
            year: Some(2017),
            content_rating: ContentRating::Safe,
            state: State::Published,
            chapter_numbers_reset_on_new_volume: false,
            created_at: "2018-01-01".to_string(),
            updated_at: "2018-01-02".to_string(),
            version: 1,
            available_translated_languages: None,
            latest_uploaded_chapter: None,
        },
        relationships: Some(vec![
            relationship("a-1", RelationshipType::Author),
            relationship("cover", RelationshipType::CoverArt),
            relationship("a-2", RelationshipType::Artist),
        ]),
    }
}

fn chapter(id: &str, title: Option<&str>, number: Option<&str>) -> Chapter {
    Chapter {
        id: id.to_string(),
        rel_type: "chapter".to_string(),
        attributes: ChapterAttr {
            title: title.map(|t| t.to_string()),
            volume: None,
            chapter: number.map(|n| n.to_string()),
            pages: 2,
            translated_language: "en".to_string(),
            external_url: None,
            version: 1,
            created_at: "c".to_string(),
            updated_at: "u".to_string(),
            publish_at: "p".to_string(),
            readable_at: "r".to_string(),
        },
        relationships: Some(vec![
            relationship("g-1", RelationshipType::ScanlationGroup),
            relationship("m-7", RelationshipType::Manga),
            relationship("u-1", RelationshipType::User),
        ]),
    }
}

fn manga_response(data: Vec<Manga>, total: u32) -> MangaResponse {
    MangaResponse {
        result: "ok".to_string(),
        response: "collection".to_string(),
        data,
        limit: 20,
        offset: 0,
        total,
    }
}

fn pages() -> PageResponse {
    PageResponse {
        result: "ok".to_string(),
        base_url: "https://pages.host".to_string(),
        chapter: ChapterPages {
            hash: "abc123".to_string(),
            data: vec!["1-x.png".to_string(), "2-y.png".to_string()],
            data_saver: vec!["1-x.jpg".to_string()],
        },
    }
}

fn status_failure(code: u16, titles: Vec<&str>) -> ApiFailure {
    ApiFailure::Status {
        code,
        report: Some(ErrorResponse {
            result: "error".to_string(),
            errors: titles
                .into_iter()
                .map(|t| MDError {
                    id: "e".to_string(),
                    status: code as u32,
                    title: t.to_string(),
                    detail: None,
                    context: None,
                })
                .collect(),
        }),
    }
}

#[test]
fn publication_status_to_dto() {
    assert_eq!(PublicationStatus::Ongoing.to_dto(), mager::dto::PublicationStatus::Ongoing);
    assert_eq!(PublicationStatus::Completed.to_dto(), mager::dto::PublicationStatus::Completed);
    assert_eq!(PublicationStatus::Hiatus.to_dto(), mager::dto::PublicationStatus::Hiatus);
    assert_eq!(PublicationStatus::Cancelled.to_dto(), mager::dto::PublicationStatus::Cancelled);
}

#[test]
fn manga_sorting_order_is_uniform() {
    let asc = mager::mangadex::query::manga::SortingOrder::ascending();
    for o in [
        asc.title,
        asc.year,
        asc.created_at,
        asc.updated_at,
        asc.latest_uploaded_chapter,
        asc.followed_count,
        asc.relevance,
        asc.rating,
    ] {
        assert_eq!(o, ApiOrder::Ascending);
    }
    let desc = mager::mangadex::query::manga::SortingOrder::descending();
    for o in [
        desc.title,
        desc.year,
        desc.created_at,
        desc.updated_at,
        desc.latest_uploaded_chapter,
        desc.followed_count,
        desc.relevance,
        desc.rating,
    ] {
        assert_eq!(o, ApiOrder::Descending);
    }
    assert_eq!(mager::mangadex::query::manga::SortingOrder::from_order(Order::Ascending), asc);
    assert_eq!(mager::mangadex::query::manga::SortingOrder::from_order(Order::Descending), desc);
}

#[test]
fn chapter_sorting_order_is_uniform() {
    let asc = mager::mangadex::query::chapter::SortingOrder::ascending();
    for o in [asc.created_at, asc.updated_at, asc.publish_at, asc.readable_at, asc.volume, asc.chapter] {
        assert_eq!(o, ApiOrder::Ascending);
    }
    let desc = mager::mangadex::query::chapter::SortingOrder::descending();
    for o in [desc.created_at, desc.updated_at, desc.publish_at, desc.readable_at, desc.volume, desc.chapter] {
        assert_eq!(o, ApiOrder::Descending);
    }
    assert_eq!(mager::mangadex::query::chapter::SortingOrder::from_order(Order::Ascending), asc);
    assert_eq!(mager::mangadex::query::chapter::SortingOrder::from_order(Order::Descending), desc);
}

#[test]
fn fresh_search_query() {
    let q = SearchQuery::new("5Toubun no hanayome");
    assert_eq!(q.limit, 20);
    assert_eq!(q.offset, 0);
    assert_eq!(q.title, Some("5Toubun no hanayome".to_string()));
    assert_eq!(q.included_tags_mode, LogicMode::And);
    assert_eq!(q.excluded_tags_mode, LogicMode::Or);
    assert_eq!(
        q.status,
        vec![
            PublicationStatus::Ongoing,
            PublicationStatus::Completed,
            PublicationStatus::Hiatus,
            PublicationStatus::Cancelled,
        ]
    );
    assert_eq!(q.available_translated_language, Some(vec!["en".to_string()]));
    assert_eq!(
        q.publication_demographic,
        vec![
            Demographic::Shounen,
            Demographic::Shoujo,
            Demographic::Josei,
            Demographic::Seinen,
            Demographic::Unspecified,
        ]
    );
    assert_eq!(
        q.content_rating,
        vec![ContentRating::Safe, ContentRating::Suggestive, ContentRating::Erotica]
    );
    assert_eq!(q.order, mager::mangadex::query::manga::SortingOrder::descending());
    assert!(q.has_available_chapters);
    assert_eq!(q.author_or_artist, None);
    assert_eq!(q.authors, None);
    assert_eq!(q.artists, None);
    assert_eq!(q.year, None);
    assert_eq!(q.included_tags, None);
    assert_eq!(q.excluded_tags, None);
    assert_eq!(q.original_language, None);
    assert_eq!(q.excluded_original_language, None);
    assert_eq!(q.ids, None);
    assert_eq!(q.created_at_since, None);
    assert_eq!(q.updated_at_since, None);
    assert_eq!(q.includes, None);
    assert_eq!(q.group, None);
    assert_eq!(SearchQuery::default().title, None);
}

#[test]
fn search_query_setters_change_one_field() {
    let base = SearchQuery::new("k");
    let q = SearchQuery::new("k").set_offset(40);
    assert_eq!(q, SearchQuery { offset: 40, ..SearchQuery::new("k") });
    let q = SearchQuery::new("k").set_limit(5);
    assert_eq!(q, SearchQuery { limit: 5, ..SearchQuery::new("k") });
    let asc = mager::mangadex::query::manga::SortingOrder::ascending();
    let q = SearchQuery::new("k").set_order(asc);
    assert_eq!(q, SearchQuery { order: asc, ..SearchQuery::new("k") });
    assert_eq!(base, SearchQuery::new("k"));
}

#[test]
fn fresh_chapter_query() {
    let q = ChapterQuery::default();
    assert_eq!(q.limit, 100);
    assert_eq!(q.offset, 0);
    assert_eq!(q.translated_language, Some(vec!["en".to_string()]));
    assert!(q.include_future_updates);
    assert_eq!(q.order, mager::mangadex::query::chapter::SortingOrder::ascending());
    assert_eq!(
        q.includes,
        Some(vec![
            RelationshipType::Manga,
            RelationshipType::ScanlationGroup,
            RelationshipType::User,
        ])
    );
    assert!(!q.include_empty_pages);
    assert!(!q.include_future_publish_at);
    assert!(!q.include_external_url);
    assert_eq!(q.original_language, None);
    assert_eq!(q.content_rating, None);
    let q = ChapterQuery::new(40, 100);
    assert_eq!(q, ChapterQuery { limit: 40, offset: 100, ..ChapterQuery::default() });
}

#[test]
fn chapter_query_setters_change_one_field() {
    let q = ChapterQuery::default().set_limit(7);
    assert_eq!(q, ChapterQuery { limit: 7, ..ChapterQuery::default() });
    let q = ChapterQuery::default().set_offset(9);
    assert_eq!(q, ChapterQuery { offset: 9, ..ChapterQuery::default() });
    let desc = mager::mangadex::query::chapter::SortingOrder::descending();
    let q = ChapterQuery::default().set_order(desc);
    assert_eq!(q, ChapterQuery { order: desc, ..ChapterQuery::default() });
}

#[test]
fn localized_text_is_found_by_language() {
    let l = localized(vec![("ja", "いち"), ("en", "one"), ("en", "uno")]);
    assert_eq!(l.get("en"), Some(&"one".to_string()));
    assert_eq!(l.get("ja"), Some(&"いち".to_string()));
    assert_eq!(l.get("fr"), None);
    assert_eq!(l.first(), Some(&"いち".to_string()));
    assert_eq!(localized(vec![]).first(), None);
    assert_eq!(localized(vec![]).get("en"), None);
}

#[test]
fn title_is_preferred_language_then_first_then_none() {
    let m = manga("m", vec![("ja", "五等分"), ("en", "Quintuplets")], PublicationStatus::Ongoing);
    assert_eq!(extract_title("en", &m), Some("Quintuplets".to_string()));
    assert_eq!(extract_title("ja", &m), Some("五等分".to_string()));
    assert_eq!(extract_title("fr", &m), Some("五等分".to_string()));
    let none = manga("m", vec![], PublicationStatus::Ongoing);
    assert_eq!(extract_title("en", &none), None);
    assert_eq!(title_or_unknown(&none), "Unknown Title");
    assert_eq!(title_or_unknown(&m), "Quintuplets");
}

#[test]
fn error_reason_formats() {
    assert_eq!(error_reason(&status_failure(404, vec!["Not Found", "Other"])), "404: Not Found");
    assert_eq!(error_reason(&status_failure(500, vec![])), "Unknown error");
    assert_eq!(error_reason(&ApiFailure::Status { code: 503, report: None }), "Unknown error");
    assert_eq!(
        error_reason(&ApiFailure::Transport { message: Some("dns failure".to_string()) }),
        "dns failure"
    );
    assert_eq!(error_reason(&ApiFailure::Transport { message: None }), "Unknown error");
    assert_eq!(error_reason(&ApiFailure::Other), "Unknown error");
}

#[test]
fn error_response_has_no_content() {
    let r: Response<mager::dto::Manga> =
        create_error_response(&status_failure(400, vec!["Bad Request"]), "MangaDex");
    assert_eq!(r.status, Status::Error);
    assert_eq!(r.reason, "400: Bad Request");
    assert_eq!(r.source_name, "MangaDex");
    assert_eq!(r.content, None);
}

#[test]
fn search_query_for_a_page() {
    let filter = Filter { language: "en".to_string(), sort: Order::Ascending };
    let q = search_query("sample", 3, &filter).unwrap();
    assert_eq!(
        q,
        SearchQuery {
            limit: 20,
            offset: 40,
            order: mager::mangadex::query::manga::SortingOrder::ascending(),
            ..SearchQuery::new("sample")
        }
    );
    assert_eq!(search_query("sample", 1, &filter).unwrap().offset, 0);
    assert_eq!(search_query("sample", 0, &filter), None);
    assert_eq!(search_query("sample", u32::MAX, &filter), None);
    assert_eq!(SEARCH_LIMIT, 20);
}

#[test]
fn chapter_query_for_a_page() {
    let filter = Filter { language: "en".to_string(), sort: Order::Descending };
    let q = chapter_query(2, &filter).unwrap();
    assert_eq!(
        q,
        ChapterQuery {
            limit: 40,
            offset: 40,
            order: mager::mangadex::query::chapter::SortingOrder::descending(),
            ..ChapterQuery::default()
        }
    );
    assert_eq!(chapter_query(1, &filter).unwrap().offset, 0);
    assert_eq!(chapter_query(3, &filter).unwrap().offset, 80);
    assert_eq!(chapter_query(0, &filter), None);
    assert_eq!(chapter_query(u32::MAX, &filter), None);
    assert_eq!(CHAPTER_LIMIT, 40);
}

#[test]
fn search_response_pages() {
    let found = manga_response(
        vec![
            manga("m-1", vec![("en", "One")], PublicationStatus::Ongoing),
            manga("m-2", vec![("ja", "に")], PublicationStatus::Completed),
            manga("m-3", vec![], PublicationStatus::Cancelled),
        ],
        41,
    );
    let r = search(2, &Ok(found));
    assert_eq!(r.status, Status::Okay);
    assert_eq!(r.reason, "All good");
    assert_eq!(r.source_name, "MangaDex");
    let list = r.content.unwrap();
    assert_eq!(list.page, 2);
    assert_eq!(list.total_page, 3);
    assert_eq!(list.data.len(), 3);
    assert_eq!(list.data[0].identifier, "m-1");
    assert_eq!(list.data[0].title, "One");
    assert_eq!(list.data[0].status, mager::dto::PublicationStatus::Ongoing);
    assert_eq!(list.data[1].title, "に");
    assert_eq!(list.data[1].status, mager::dto::PublicationStatus::Completed);
    assert_eq!(list.data[2].title, "Unknown Title");
    assert_eq!(list.data[2].status, mager::dto::PublicationStatus::Cancelled);
}

#[test]
fn empty_search_result_has_no_pages_and_no_items() {
    let r = search(1, &Ok(manga_response(vec![], 0)));
    let list = r.content.unwrap();
    assert_eq!(list.total_page, 0);
    assert!(list.data.is_empty());
    // Items that come with a total of zero are not shown.
    let odd = manga_response(vec![manga("m", vec![], PublicationStatus::Ongoing)], 0);
    let list = search(1, &Ok(odd)).content.unwrap();
    assert_eq!(list.total_page, 0);
    assert!(list.data.is_empty());
}

#[test]
fn search_failure_is_an_error_response() {
    let r = search(1, &Err(status_failure(429, vec!["Too Many Requests"])));
    assert_eq!(r.status, Status::Error);
    assert_eq!(r.reason, "429: Too Many Requests");
    assert_eq!(r.source_name, SOURCE_NAME);
    assert_eq!(r.content, None);
}

#[test]
fn chapter_list_response_pages() {
    let found = ChapterResponse {
        result: "ok".to_string(),
        response: "collection".to_string(),
        data: vec![chapter("c-1", Some("Start"), Some("1")), chapter("c-2", None, None)],
        limit: 40,
        offset: 0,
        total: 81,
    };
    let r = fetch_chapter_list(1, &Ok(found));
    assert_eq!(r.status, Status::Okay);
    assert_eq!(r.reason, "All good");
    let list = r.content.unwrap();
    assert_eq!(list.page, 1);
    assert_eq!(list.total_page, 3);
    assert_eq!(list.data[0].identifier, "c-1");
    assert_eq!(list.data[0].title, "Start");
    assert_eq!(list.data[0].number, "1");
    assert_eq!(list.data[1].title, "No title");
    assert_eq!(list.data[1].number, "No number");
    let failed = fetch_chapter_list(1, &Err(ApiFailure::Other));
    assert_eq!(failed.status, Status::Error);
    assert_eq!(failed.reason, "Unknown error");
}

#[test]
fn chapter_pages_are_addressed_on_the_page_server() {
    assert_eq!(
        get_chapter_pages(&pages()),
        vec![
            "https://pages.host/data/abc123/1-x.png".to_string(),
            "https://pages.host/data/abc123/2-y.png".to_string(),
        ]
    );
}

#[test]
fn manga_of_a_chapter_is_its_last_manga_relationship() {
    let rels = vec![
        relationship("m-1", RelationshipType::Manga),
        relationship("g", RelationshipType::ScanlationGroup),
        relationship("m-2", RelationshipType::Manga),
        relationship("u", RelationshipType::User),
    ];
    assert_eq!(manga_identifier(&rels), "m-2");
    assert_eq!(manga_identifier(&vec![relationship("u", RelationshipType::User)]), "");
    assert_eq!(manga_identifier(&vec![]), "");
}

#[test]
fn chapter_response() {
    let r = fetch_chapter(&Ok(chapter("c-1", None, Some("7"))), &Ok(pages()));
    assert_eq!(r.status, Status::Okay);
    assert_eq!(r.reason, "All good");
    let c = r.content.unwrap();
    assert_eq!(c.identifier, "c-1");
    assert_eq!(c.manga_identifier, "m-7");
    assert_eq!(c.title, "No Title");
    assert_eq!(c.number, "7");
    assert_eq!(c.language, "en");
    assert_eq!(c.page_urls.len(), 2);
    assert_eq!(c.page_urls[1], "https://pages.host/data/abc123/2-y.png");
    let mut bare = chapter("c-2", Some("T"), None);
    bare.relationships = None;
    let c = fetch_chapter(&Ok(bare), &Ok(pages())).content.unwrap();
    assert_eq!(c.manga_identifier, "");
    assert_eq!(c.number, "No Number");
}

#[test]
fn chapter_response_reports_the_first_failure() {
    let r = fetch_chapter(&Err(status_failure(404, vec!["Gone"])), &Err(ApiFailure::Other));
    assert_eq!(r.reason, "404: Gone");
    let r = fetch_chapter(
        &Ok(chapter("c", None, None)),
        &Err(ApiFailure::Transport { message: Some("reset".to_string()) }),
    );
    assert_eq!(r.status, Status::Error);
    assert_eq!(r.reason, "reset");
    assert_eq!(r.content, None);
}

#[test]
fn credits_are_authors_and_artists_in_order() {
    let m = manga("m", vec![], PublicationStatus::Ongoing);
    assert_eq!(
        credits(&m),
        Some(vec![
            Credit { id: "a-1".to_string(), role: Role::Author },
            Credit { id: "a-2".to_string(), role: Role::Artist },
        ])
    );
    let mut bare = manga("m", vec![], PublicationStatus::Ongoing);
    bare.relationships = None;
    assert_eq!(credits(&bare), None);
    bare.relationships = Some(vec![]);
    assert_eq!(credits(&bare), Some(vec![]));
}

#[test]
fn names_lose_brackets_foreign_letters_and_outer_blanks() {
    assert_eq!(clean_name("Negi Haruba (春場ねぎ)"), "Negi Haruba");
    assert_eq!(clean_name("  (x) A  B  "), "x A  B");
    assert_eq!(clean_name("春場ねぎ"), "");
    assert_eq!(clean_name(""), "");
    assert_eq!(
        credited("ONE (ワン)", Role::Artist),
        Author { name: "ONE".to_string(), details: "Artist".to_string() }
    );
    assert_eq!(Role::Author.to_word(), "Author");
}

#[test]
fn manga_response_with_authors() {
    let m = manga("m-1", vec![("en", "Title")], PublicationStatus::Hiatus);
    let names = vec![Ok("Negi Haruba (春場ねぎ)".to_string()), Ok(" Painter ".to_string())];
    let r = fetch_manga(&Ok(m), &names);
    assert_eq!(r.status, Status::Okay);
    assert_eq!(r.reason, "All good!");
    assert_eq!(r.source_name, "MangaDex");
    let c = r.content.unwrap();
    assert_eq!(c.identifier, "m-1");
    assert_eq!(c.title, "Title");
    assert_eq!(
        c.authors,
        vec![
            Author { name: "Negi Haruba".to_string(), details: "Author".to_string() },
            Author { name: "Painter".to_string(), details: "Artist".to_string() },
        ]
    );
    assert_eq!(c.original_language, "ja");
    assert_eq!(c.language, "en");
    assert_eq!(c.description, "A description");
    assert_eq!(c.status, mager::dto::PublicationStatus::Hiatus);
}

#[test]
fn manga_response_without_english_description() {
    let mut m = manga("m-1", vec![("en", "Title")], PublicationStatus::Ongoing);
    m.attributes.description = Some(localized(vec![("ja", "説明")]));
    m.relationships = Some(vec![]);
    assert_eq!(fetch_manga(&Ok(m.clone()), &vec![]).content.unwrap().description, "No description");
    m.attributes.description = None;
    assert_eq!(fetch_manga(&Ok(m), &vec![]).content.unwrap().description, "No description");
}

#[test]
fn manga_response_failures() {
    let m = manga("m-1", vec![("en", "Title")], PublicationStatus::Ongoing);
    let r = fetch_manga(&Err(status_failure(404, vec!["Not Found"])), &vec![]);
    assert_eq!((r.status, r.reason.as_str()), (Status::Error, "404: Not Found"));
    let names = vec![
        Ok("A".to_string()),
        Err(ApiFailure::Transport { message: Some("timeout".to_string()) }),
    ];
    let r = fetch_manga(&Ok(m.clone()), &names);
    assert_eq!((r.status, r.reason.as_str()), (Status::Error, "timeout"));
    let r = fetch_manga(&Ok(m.clone()), &vec![Ok("A".to_string())]);
    assert_eq!((r.status, r.reason.as_str()), (Status::Error, "Unknown error"));
    let mut bare = m;
    bare.relationships = None;
    let r = fetch_manga(&Ok(bare), &vec![]);
    assert_eq!((r.status, r.reason.as_str()), (Status::Error, "Unknown error"));
    assert_eq!(r.content, None);
}

#[test]
fn api_calls_have_their_addresses() {
    let search = ApiCall::Search { query: SearchQuery::new("k") };
    assert_eq!(search.path(), "/manga");
    assert_eq!(search.url(BASE_URL, Some("limit=20")), "https://api.mangadex.org/manga?limit=20");
    let feed = ApiCall::Chapters { manga: "m-1".to_string(), query: ChapterQuery::default() };
    assert_eq!(feed.url("http://h", Some("q=1")), "http://h/manga/m-1/feed?q=1");
    assert_eq!(ApiCall::Manga { id: "m".to_string() }.url("http://h", None), "http://h/manga/m");
    assert_eq!(ApiCall::Chapter { id: "c".to_string() }.url("http://h", None), "http://h/chapter/c");
    assert_eq!(
        ApiCall::Pages { id: "c".to_string() }.url("http://h", None),
        "http://h/at-home/server/c"
    );
    assert_eq!(ApiCall::Author { id: "a".to_string() }.url("http://h", None), "http://h/author/a");
}

#[test]
fn every_command_has_a_plan() {
    let filter = Filter { language: "en".to_string(), sort: Order::Descending };
    let plan = |command| handle_request(&Request { command, version: "0.0.0".to_string() });
    assert_eq!(plan(Command::Ping), Plan::Pong);
    assert_eq!(
        plan(Command::Search { keyword: "k".to_string(), page: 2, filter: filter.clone() }),
        Plan::Search { page: 2, query: search_query("k", 2, &filter).unwrap() }
    );
    assert_eq!(
        plan(Command::Search { keyword: "k".to_string(), page: 0, filter: filter.clone() }),
        Plan::Reject { reason: "There is no such page".to_string() }
    );
    assert_eq!(
        plan(Command::FetchChapterList { identifier: "m".to_string(), page: 1, filter: filter.clone() }),
        Plan::ChapterList {
            page: 1,
            manga: "m".to_string(),
            query: chapter_query(1, &filter).unwrap(),
        }
    );
    assert_eq!(
        plan(Command::FetchChapterList { identifier: "m".to_string(), page: 0, filter }),
        Plan::Reject { reason: "There is no such page".to_string() }
    );
    assert_eq!(
        plan(Command::FetchManga { identifier: "m".to_string() }),
        Plan::Manga { id: "m".to_string() }
    );
    assert_eq!(
        plan(Command::FetchChapter { identifier: "c".to_string() }),
        Plan::Chapter { id: "c".to_string() }
    );
}

#[test]
fn immediate_answers() {
    let pong = ping_response();
    assert_eq!(pong.status, Status::Okay);
    assert_eq!(pong.reason, "Pong, this source is active");
    assert_eq!(pong.source_name, "MangaDex");
    assert_eq!(pong.content, None);
    let no = rejection("There is no such page".to_string());
    assert_eq!((no.status, no.reason.as_str(), no.content), (Status::Error, "There is no such page", None));
    assert_eq!(answer_unreadable(ProtocolError::Malformed).reason, "The request is not JSON");
    assert_eq!(
        answer_unreadable(ProtocolError::UnexpectedShape).reason,
        "The request names no known command with its arguments"
    );
    assert_eq!(answer_unreadable(ProtocolError::MissingContent).reason, "The request could not be read");
    assert_eq!(answer_unreadable(ProtocolError::Malformed).status, Status::Error);
}

#[test]
fn body_of_a_success_is_the_answer_or_a_failure() {
    assert_eq!(answer_of(CustomResult::Found(5u32)), Ok(5));
    let report = ErrorResponse { result: "error".to_string(), errors: vec![] };
    assert_eq!(answer_of::<u32>(CustomResult::Failed(report)), Err(ApiFailure::Other));
}

#[test]
fn pages_of_chapters_hold_each_chapter_once() {
    // 45 chapters fill two pages; the second holds chapters 40 to 44.
    let filter = Filter { language: "en".to_string(), sort: Order::Ascending };
    let total = 45u32;
    let pages = mager::paging::total_pages(total, CHAPTER_LIMIT);
    assert_eq!(pages, 2);
    let mut seen = vec![0u32; total as usize];
    for page in 1..=pages {
        let q = chapter_query(page, &filter).unwrap();
        for chapter in q.offset..(q.offset + q.limit).min(total) {
            seen[chapter as usize] += 1;
        }
    }
    assert!(seen.iter().all(|times| *times == 1));
}

#[test]
fn pages_of_titles_hold_each_title_once() {
    let filter = Filter { language: "en".to_string(), sort: Order::Ascending };
    for total in [1u32, 19, 20, 21, 40, 41, 99] {
        let pages = mager::paging::total_pages(total, SEARCH_LIMIT);
        let mut seen = vec![0u32; total as usize];
        for page in 1..=pages {
            let q = search_query("k", page, &filter).unwrap();
            for title in q.offset..(q.offset + q.limit).min(total) {
                seen[title as usize] += 1;
            }
        }
        assert!(seen.iter().all(|times| *times == 1));
    }
}

#[test]
fn texts_of_a_document_keep_the_last_text_of_a_language() {
    let pairs = vec![
        ("ja".to_string(), "いち".to_string()),
        ("en".to_string(), "one".to_string()),
        ("ja".to_string(), "に".to_string()),
        ("fr".to_string(), "un".to_string()),
        ("en".to_string(), "uno".to_string()),
    ];
    let texts = LocalizedString::from_document(pairs);
    assert_eq!(
        texts.entries,
        vec![
            ("ja".to_string(), "に".to_string()),
            ("en".to_string(), "uno".to_string()),
            ("fr".to_string(), "un".to_string()),
        ]
    );
    assert_eq!(texts.get("en"), Some(&"uno".to_string()));
    assert_eq!(texts.get("ja"), Some(&"に".to_string()));
    assert_eq!(texts.get("de"), None);
    assert_eq!(texts.first(), Some(&"に".to_string()));
    assert_eq!(LocalizedString::from_document(vec![]).entries, vec![]);
}

#[test]
fn texts_of_a_document_without_repeats_stay_as_they_are() {
    let pairs = vec![("en".to_string(), "a".to_string()), ("ja".to_string(), "b".to_string())];
    assert_eq!(LocalizedString::from_document(pairs.clone()).entries, pairs);
}

#[test]
fn position_is_that_of_the_first_entry_of_a_language() {
    let entries = vec![
        ("ja".to_string(), "1".to_string()),
        ("en".to_string(), "2".to_string()),
        ("en".to_string(), "3".to_string()),
    ];
    assert_eq!(mager::mangadex::schema::position_of(&entries, "ja"), Some(0));
    assert_eq!(mager::mangadex::schema::position_of(&entries, "en"), Some(1));
    assert_eq!(mager::mangadex::schema::position_of(&entries, "fr"), None);
    assert_eq!(mager::mangadex::schema::position_of(&vec![], "en"), None);
}
