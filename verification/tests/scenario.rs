use mager::client::{fetch_chapters, outcome, ping_request, ping_source, search_manga};
use mager::dto::{Chapter, ChapterList, Filter, MangaList, Order, Request, Response, Status};
use mager::framing::FrameDecoder;
use mager::mangadex::backend::{
    answer_unreadable, fetch_chapter, fetch_chapter_list, handle_request, ping_response,
    rejection, search, ApiFailure, Plan,
};
use mager::mangadex::enums::{ContentRating, PublicationStatus, RelationshipType, State};
use mager::mangadex::schema::{
    ChapterAttr, ChapterPages, ChapterResponse, LocalizedString, Manga, MangaAttr, MangaResponse,
    PageResponse, Relationship,
};
use mager::supervisor::{ChildStatus, Source, SourceState};
use mager::transport::{
    read_request, read_response, request_frame, response_frame, ConnectRetry, ConnectStep,
    ExchangeError,
};
use mager::wire::Wire;

const TOTAL_TITLES: u32 = 45;
const TOTAL_CHAPTERS: u32 = 3;

fn catalog_title(n: u32) -> Manga {
    Manga {
        id: format!("title-{}", n),
        entity_type: "manga".to_string(),
        attributes: MangaAttr {
            title: LocalizedString { entries: vec![("en".to_string(), format!("Sample {}", n))] },
            alt_titles: None,
            description: None,
            is_locked: false,
            links: None,
            original_language: "ja".to_string(),
            last_volume: None,
            last_chapter: None,
            publication_demographic: None,
            status: PublicationStatus::Ongoing,
            year: None,
            content_rating: ContentRating::Safe,
            state: State::Published,
            chapter_numbers_reset_on_new_volume: false,
            created_at: String::new(),
            updated_at: String::new(),
            version: 1,
            available_translated_languages: None,
            latest_uploaded_chapter: None,
        },
        relationships: Some(vec![]),
    }
}

fn catalog_chapter(manga: &str, n: u32) -> mager::mangadex::schema::Chapter {
    mager::mangadex::schema::Chapter {
        id: format!("{}/chapter-{}", manga, n),
        rel_type: "chapter".to_string(),
        attributes: ChapterAttr {
            title: Some(format!("Chapter {}", n)),
            volume: None,
            chapter: Some(format!("{}", n)),
            pages: 1,
            translated_language: "en".to_string(),
            external_url: None,
            version: 1,
            created_at: String::new(),
            updated_at: String::new(),
            publish_at: String::new(),
            readable_at: String::new(),
        },
        relationships: Some(vec![Relationship {
            id: manga.to_string(),
            rel_type: RelationshipType::Manga,
            related: None,
        }]),
    }
}

/// What the demo source writes back for the bytes it has read, with a
/// catalog made up in place of the API.
fn demo_source(received: &[u8]) -> Vec<u8> {
    let mut reader = FrameDecoder::new();
    for b in received {
        reader.feed(&[*b]);
    }
    let request = match read_request(reader) {
        Ok(request) => request,
        Err(ExchangeError::Protocol(e)) => return response_frame(&answer_unreadable(e)).unwrap(),
        Err(ExchangeError::Transport(_)) => panic!("the client sent a whole frame"),
    };
    match handle_request(&request) {
        Plan::Pong => response_frame(&ping_response()).unwrap(),
        Plan::Reject { reason } => response_frame(&rejection(reason)).unwrap(),
        Plan::Search { page, query } => {
            let from = query.offset;
            let to = (query.offset + query.limit).min(TOTAL_TITLES);
            let found = MangaResponse {
                result: "ok".to_string(),
                response: "collection".to_string(),
                data: (from..to).map(catalog_title).collect(),
                limit: query.limit,
                offset: query.offset,
                total: TOTAL_TITLES,
            };
            response_frame(&search(page, &Ok(found))).unwrap()
        }
        Plan::ChapterList { page, manga, query } => {
            let to = (query.offset + query.limit).min(TOTAL_CHAPTERS);
            let found = ChapterResponse {
                result: "ok".to_string(),
                response: "collection".to_string(),
                data: (query.offset..to).map(|n| catalog_chapter(&manga, n)).collect(),
                limit: query.limit,
                offset: query.offset,
                total: TOTAL_CHAPTERS,
            };
            response_frame(&fetch_chapter_list(page, &Ok(found))).unwrap()
        }
        Plan::Chapter { id } => {
            let known = id.starts_with("title-") && id.contains("/chapter-");
            let answer = if known {
                Ok(catalog_chapter(id.split('/').next().unwrap(), 0))
            } else {
                Err(ApiFailure::Other)
            };
            let answer = answer.map(|mut c| {
                c.id = id.clone();
                c
            });
            let pages = PageResponse {
                result: "ok".to_string(),
                base_url: "https://pages".to_string(),
                chapter: ChapterPages {
                    hash: "h".to_string(),
                    data: vec!["1.png".to_string()],
                    data_saver: vec![],
                },
            };
            response_frame(&fetch_chapter(&answer, &Ok(pages))).unwrap()
        }
        Plan::Manga { .. } => panic!("not asked for in this scenario"),
    }
}

fn exchange<T: Wire + std::fmt::Debug>(request: &Request) -> Response<T> {
    let written = request_frame(request).unwrap();
    let answer = demo_source(&written);
    let mut reader = FrameDecoder::new();
    let mut fed = 0;
    while reader.missing() > 0 && fed < answer.len() {
        let piece = (answer.len() - fed).min(3);
        fed += reader.feed(&answer[fed..fed + piece]);
    }
    read_response::<T>(reader).unwrap()
}

#[test]
fn browse_the_demo_source() {
    // Activate the source "demo" on port 7878.
    let mut source = Source::local("demo".to_string());
    let launch = source.activate(7878, "/home/me", false, None).unwrap();
    assert_eq!(launch.argument, "7878");
    assert_eq!(source.state, SourceState::Starting);

    // The listener is there at the third attempt to connect.
    let mut policy = ConnectRetry::standard();
    let mut attempts = 0;
    while let ConnectStep::Attempt { .. } = policy.next_step() {
        attempts += 1;
        if attempts == 3 {
            break;
        }
        policy.record_failure();
    }
    assert_eq!(attempts, 3);

    // Ping returns Status = Ok.
    let pong: Response<()> = exchange(&ping_request());
    assert_eq!(pong.status, Status::Okay);
    assert_eq!(pong.content, None);
    assert_eq!(ping_source(&pong), Ok(()));
    source.answered();
    assert_eq!(source.state, SourceState::Active);
    assert!(source.is_active(Some(ChildStatus::Running)));

    // Search returns the first page of ceil(45 / 20) = 3.
    let filter = Filter { language: "en".to_string(), sort: Order::Descending };
    let found: Response<MangaList> = exchange(&search_manga("sample", 1, &filter));
    assert_eq!(found.status, Status::Okay);
    assert!(found.is_well_formed(true));
    let list = outcome(found).unwrap();
    assert_eq!(list.page, 1);
    assert_eq!(list.total_page, 3);
    assert_eq!(list.data.len(), 20);
    assert_eq!(list.data[0].title, "Sample 0");

    // The last page holds what is left.
    let last: Response<MangaList> = exchange(&search_manga("sample", 3, &filter));
    let last = outcome(last).unwrap();
    assert_eq!((last.page, last.total_page, last.data.len()), (3, 3, 5));

    // The chapters of an item, asked for by the identifier as it came.
    let item = &list.data[4].identifier;
    let chapters: Response<ChapterList> =
        exchange(&fetch_chapters(item, 1, &Filter::default()));
    let chapters = outcome(chapters).unwrap();
    assert_eq!(chapters.page, 1);
    assert_eq!(chapters.total_page, 1);
    assert_eq!(chapters.data.len(), 3);

    // Each chapter identifier is accepted unmodified by FetchChapter.
    for entry in &chapters.data {
        let chapter: Response<Chapter> = exchange(&mager::client::fetch_chapter(&entry.identifier));
        let chapter = outcome(chapter).unwrap();
        assert_eq!(chapter.identifier, entry.identifier);
        assert_eq!(&chapter.manga_identifier, item);
        assert_eq!(chapter.page_urls, vec!["https://pages/data/h/1.png".to_string()]);
    }

    // The source is brought down.
    assert!(source.deactivate());
    assert!(!source.is_active(Some(ChildStatus::Exited)));
    assert_eq!(source.state, SourceState::Inactive);
}

#[test]
fn a_request_that_cannot_be_read_is_answered_with_an_error() {
    let frame = mager::framing::encode_frame(b"{\"command\":{\"command\":\"Dance\"},\"version\":\"0.0.0\"}").unwrap();
    let answer = demo_source(&frame);
    let mut reader = FrameDecoder::new();
    reader.feed(&answer);
    let response = read_response::<()>(reader).unwrap();
    assert_eq!(response.status, Status::Error);
    assert_eq!(response.reason, "The request names no known command with its arguments");
    assert_eq!(response.content, None);
    let frame = mager::framing::encode_frame(b"garbage").unwrap();
    let answer = demo_source(&frame);
    let mut reader = FrameDecoder::new();
    reader.feed(&answer);
    assert_eq!(read_response::<()>(reader).unwrap().reason, "The request is not JSON");
}

#[test]
fn a_page_that_does_not_exist_is_answered_with_an_error() {
    let filter = Filter::default();
    let response: Response<MangaList> = exchange(&search_manga("sample", 0, &filter));
    assert_eq!(response.status, Status::Error);
    assert_eq!(response.reason, "There is no such page");
    assert!(response.is_well_formed(true));
    assert!(outcome(response).is_err());
}
