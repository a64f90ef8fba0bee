use mager::client::{
    chapter_folder, fetch_chapters, fetch_chapter, download_chapter, list_local_sources,
    fetch_manga, outcome, ping_request, search_manga, ping_source, ClientError,
    DirectoryEntry, PageDownload,
};
use mager::dto::{
    Chapter, Command, Filter, Manga, Order, PublicationStatus, Request, Response, Status,
};
use mager::supervisor::SourceState;
use mager::transport::{request_frame, ExchangeError};
use mager::wire::{decode_request, validate, ProtocolError};

fn manga(title: &str) -> Manga {
    Manga {
        identifier: "m".to_string(),
        title: title.to_string(),
        authors: vec![],
        original_language: "ja".to_string(),
        language: "en".to_string(),
        description: "".to_string(),
        status: PublicationStatus::Ongoing,
    }
}

fn chapter(urls: Vec<&str>) -> Chapter {
    Chapter {
        identifier: "c".to_string(),
        manga_identifier: "m".to_string(),
        title: "Dawn".to_string(),
        number: "3".to_string(),
        language: "en".to_string(),
        page_urls: urls.into_iter().map(|u| u.to_string()).collect(),
    }
}

#[test]
fn requests_carry_the_version_tag() {
    assert_eq!(ping_request(), Request { command: Command::Ping, version: "0.0.0".to_string() });
    assert_eq!(fetch_manga("m-1").version, "0.0.0");
}

#[test]
fn requests_carry_their_arguments() {
    let filter = Filter { language: "en".to_string(), sort: Order::Descending };
    assert_eq!(
        search_manga("sample", 1, &filter).command,
        Command::Search { keyword: "sample".to_string(), page: 1, filter: filter.clone() }
    );
    assert_eq!(
        fetch_chapters("m-1", 4, &filter).command,
        Command::FetchChapterList { identifier: "m-1".to_string(), page: 4, filter: filter.clone() }
    );
    assert_eq!(fetch_manga("m-1").command, Command::FetchManga { identifier: "m-1".to_string() });
    assert_eq!(
        fetch_chapter("c-1").command,
        Command::FetchChapter { identifier: "c-1".to_string() }
    );
}

#[test]
fn default_filter_is_english_descending() {
    assert_eq!(Filter::default(), Filter { language: "en".to_string(), sort: Order::Descending });
}

#[test]
fn ping_is_verified_by_status_alone() {
    let mut response: Response<()> =
        Response::acknowledged("demo".to_string(), "Pong".to_string());
    assert_eq!(ping_source(&response), Ok(()));
    response.status = Status::Error;
    assert_eq!(ping_source(&response), Err(ClientError::NotVerified));
}

#[test]
fn outcome_of_success_is_the_content() {
    let response = Response::with_content("s".to_string(), "r".to_string(), 17u32);
    assert_eq!(outcome(response), Ok(17));
}

#[test]
fn outcome_of_success_without_content_is_missing_content() {
    let response: Response<u32> = Response::acknowledged("s".to_string(), "r".to_string());
    assert_eq!(
        outcome(response),
        Err(ClientError::Exchange(ExchangeError::Protocol(ProtocolError::MissingContent)))
    );
}

#[test]
fn outcome_of_error_is_the_reason() {
    let response: Response<u32> = Response::failed("s".to_string(), "404: Not Found".to_string());
    assert_eq!(
        outcome(response),
        Err(ClientError::Refused { reason: "404: Not Found".to_string() })
    );
    let odd = Response {
        status: Status::Error,
        reason: "why".to_string(),
        source_name: "s".to_string(),
        content: Some(1u32),
    };
    assert_eq!(outcome(odd), Err(ClientError::Refused { reason: "why".to_string() }));
}

#[test]
fn responses_know_whether_they_are_well_formed() {
    let with = Response::with_content("s".to_string(), "r".to_string(), 1u32);
    assert!(with.is_well_formed(true));
    assert!(!with.is_well_formed(false));
    let without: Response<u32> = Response::acknowledged("s".to_string(), "r".to_string());
    assert!(without.is_well_formed(false));
    assert!(!without.is_well_formed(true));
    let failed: Response<u32> = Response::failed("s".to_string(), "r".to_string());
    assert!(failed.is_well_formed(true));
    assert!(failed.is_well_formed(false));
    let odd = Response {
        status: Status::Error,
        reason: "r".to_string(),
        source_name: "s".to_string(),
        content: Some(1u32),
    };
    assert!(!odd.is_well_formed(true));
    assert!(Command::FetchManga { identifier: "x".to_string() }.is_data_bearing());
    assert!(!Command::Ping.is_data_bearing());
}

#[test]
fn chapter_folder_is_nested_by_title_and_chapter() {
    assert_eq!(
        chapter_folder("/home/me", &manga("Blue"), &chapter(vec![])),
        "/home/me/Downloads/mager/Blue/#3 - Dawn/"
    );
}

#[test]
fn pages_are_numbered_from_one() {
    let plan = download_chapter("/home/me", &manga("Blue"), &chapter(vec!["u1", "u2", "u3"]));
    assert_eq!(
        plan,
        vec![
            PageDownload {
                url: "u1".to_string(),
                file: "/home/me/Downloads/mager/Blue/#3 - Dawn//1".to_string(),
            },
            PageDownload {
                url: "u2".to_string(),
                file: "/home/me/Downloads/mager/Blue/#3 - Dawn//2".to_string(),
            },
            PageDownload {
                url: "u3".to_string(),
                file: "/home/me/Downloads/mager/Blue/#3 - Dawn//3".to_string(),
            },
        ]
    );
}

#[test]
fn chapter_without_pages_has_no_downloads() {
    assert_eq!(download_chapter("/h", &manga("t"), &chapter(vec![])), vec![]);
}

#[test]
fn twelve_pages_are_numbered_in_decimal() {
    let urls: Vec<String> = (0..12).map(|i| format!("u{}", i)).collect();
    let plan = download_chapter("", &manga("t"), &chapter(urls.iter().map(|u| u.as_str()).collect()));
    assert_eq!(plan.len(), 12);
    assert!(plan[9].file.ends_with("//10"));
    assert!(plan[11].file.ends_with("//12"));
    assert_eq!(plan[11].url, "u11");
}

#[test]
fn local_sources_are_the_files_of_the_directory() {
    let entries = vec![
        DirectoryEntry { name: "mangadex".to_string(), is_file: true },
        DirectoryEntry { name: "cache".to_string(), is_file: false },
        DirectoryEntry { name: "demo".to_string(), is_file: true },
    ];
    let sources = list_local_sources(&entries);
    assert_eq!(sources.len(), 2);
    assert_eq!(sources[0].name, "mangadex");
    assert_eq!(sources[1].name, "demo");
    for s in &sources {
        assert!(s.is_local);
        assert_eq!(s.url, None);
        assert_eq!(s.state, SourceState::Inactive);
    }
    assert!(list_local_sources(&vec![]).is_empty());
}

#[test]
fn validation_names_the_flaw() {
    let with = || Response::with_content("s".to_string(), "r".to_string(), 1u32);
    let without = || Response::<u32>::acknowledged("s".to_string(), "r".to_string());
    let failed = || Response::<u32>::failed("s".to_string(), "r".to_string());
    let odd = || Response {
        status: Status::Error,
        reason: "r".to_string(),
        source_name: "s".to_string(),
        content: Some(1u32),
    };
    assert_eq!(validate(with(), true), Ok(with()));
    assert_eq!(validate(with(), false), Err(ProtocolError::UnexpectedContent));
    assert_eq!(validate(without(), true), Err(ProtocolError::MissingContent));
    assert_eq!(validate(without(), false), Ok(without()));
    assert_eq!(validate(failed(), true), Ok(failed()));
    assert_eq!(validate(failed(), false), Ok(failed()));
    assert_eq!(validate(odd(), true), Err(ProtocolError::UnexpectedContent));
    assert_eq!(validate(odd(), false), Err(ProtocolError::UnexpectedContent));
}

fn written_for(request: &Request) -> Vec<u8> {
    let frame = request_frame(request).unwrap();
    let announced = u32::from_le_bytes([frame[0], frame[1], frame[2], frame[3]]) as usize;
    assert_eq!(announced, frame.len() - 4);
    frame[4..].to_vec()
}

fn document(text: &str) -> serde_json::Value {
    serde_json::from_str(text).unwrap()
}

#[test]
fn search_manga_writes_a_request_that_reads_back() {
    let filter = Filter { language: "en".to_string(), sort: Order::Descending };
    for (keyword, page) in [("sample", 1u32), ("", 0), ("two words \"q\" é本", u32::MAX)] {
        let written = written_for(&search_manga(keyword, page, &filter));
        assert_eq!(
            decode_request(&written),
            Ok(Request {
                command: Command::Search {
                    keyword: keyword.to_string(),
                    page,
                    filter: filter.clone(),
                },
                version: "0.0.0".to_string(),
            })
        );
    }
    let written = written_for(&search_manga("sample", 1, &filter));
    assert_eq!(
        serde_json::from_slice::<serde_json::Value>(&written).unwrap(),
        document(
            "{\"command\":{\"command\":\"Search\",\"args\":{\"keyword\":\"sample\",\"page\":1,\
             \"filter\":{\"language\":\"en\",\"sort\":\"Descending\"}}},\"version\":\"0.0.0\"}"
        )
    );
}

#[test]
fn fetch_chapters_writes_a_request_that_reads_back() {
    let filter = Filter { language: "id".to_string(), sort: Order::Ascending };
    let written = written_for(&fetch_chapters("a2febd3e-6252", 3, &filter));
    assert_eq!(
        decode_request(&written),
        Ok(Request {
            command: Command::FetchChapterList {
                identifier: "a2febd3e-6252".to_string(),
                page: 3,
                filter,
            },
            version: "0.0.0".to_string(),
        })
    );
}

#[test]
fn fetch_manga_writes_a_request_that_reads_back() {
    for id in ["m-1", "", "https://host/title?id=1&x=\"y\"", "\u{0}\\ ünï 本"] {
        let written = written_for(&fetch_manga(id));
        assert_eq!(
            decode_request(&written),
            Ok(Request {
                command: Command::FetchManga { identifier: id.to_string() },
                version: "0.0.0".to_string(),
            })
        );
    }
    let written = written_for(&fetch_manga("abc"));
    assert_eq!(
        serde_json::from_slice::<serde_json::Value>(&written).unwrap(),
        document(
            "{\"command\":{\"command\":\"FetchManga\",\"args\":{\"identifier\":\"abc\"}},\
             \"version\":\"0.0.0\"}"
        )
    );
}

#[test]
fn fetch_chapter_writes_a_request_that_reads_back() {
    for id in ["c-1", "", "1ec5c533-22fa-4422-873d-27549f48389d", "a/b\\c \"d\""] {
        let written = written_for(&fetch_chapter(id));
        assert_eq!(
            decode_request(&written),
            Ok(Request {
                command: Command::FetchChapter { identifier: id.to_string() },
                version: "0.0.0".to_string(),
            })
        );
    }
    let written = written_for(&fetch_chapter("xyz"));
    assert_eq!(
        serde_json::from_slice::<serde_json::Value>(&written).unwrap(),
        document(
            "{\"command\":{\"command\":\"FetchChapter\",\"args\":{\"identifier\":\"xyz\"}},\
             \"version\":\"0.0.0\"}"
        )
    );
}

#[test]
fn ping_writes_a_request_that_reads_back() {
    let written = written_for(&ping_request());
    assert_eq!(
        decode_request(&written),
        Ok(Request { command: Command::Ping, version: "0.0.0".to_string() })
    );
}
