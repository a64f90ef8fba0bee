use mager::dto::{
    Author, Chapter, ChapterList, ChapterListEntry, Command, Filter, Manga, MangaList,
    MangaListEntry, Order, PublicationStatus, Request, Response, Status,
};
use mager::wire::{
    decode_request, decode_response, encode_request, encode_response, list_from_value,
    list_to_value, read_list, read_member, read_text, read_u32, response_from_value,
    response_to_value, ProtocolError, Wire,
};
use serde_json::Value;

fn filter() -> Filter {
    Filter { language: "en".to_string(), sort: Order::Descending }
}

fn request(command: Command) -> Request {
    Request { command, version: "0.0.0".to_string() }
}

fn round_trip(r: &Request) -> Request {
    decode_request(&encode_request(r).unwrap()).unwrap()
}

fn object(fields: Vec<(&str, Value)>) -> Value {
    let mut m = serde_json::Map::new();
    for (k, v) in fields {
        m.insert(k.to_string(), v);
    }
    Value::Object(m)
}

fn sample_manga() -> Manga {
    Manga {
        identifier: "m-1".to_string(),
        title: "Sample \"quoted\" title".to_string(),
        authors: vec![
            Author { name: "A. Writer".to_string(), details: "Author".to_string() },
            Author { name: "B. Painter".to_string(), details: "Artist".to_string() },
        ],
        original_language: "ja".to_string(),
        language: "en".to_string(),
        description: "Line one\nLine two \u{1F600}".to_string(),
        status: PublicationStatus::Hiatus,
    }
}

fn sample_chapter() -> Chapter {
    Chapter {
        identifier: "c-9".to_string(),
        manga_identifier: "m-1".to_string(),
        title: "Beginnings".to_string(),
        number: "1.5".to_string(),
        language: "en".to_string(),
        page_urls: vec!["https://host/data/h/1.png".to_string(), "https://host/data/h/2.png".to_string()],
    }
}

#[test]
fn ping_request_round_trip() {
    let r = request(Command::Ping);
    assert_eq!(round_trip(&r), r);
}

#[test]
fn search_request_round_trip() {
    let r = request(Command::Search { keyword: "sample".to_string(), page: 1, filter: filter() });
    assert_eq!(round_trip(&r), r);
}

#[test]
fn fetch_chapter_list_request_round_trip() {
    let r = request(Command::FetchChapterList {
        identifier: "a2febd3e-6252-46eb-bd63-01d51deaaec5".to_string(),
        page: u32::MAX,
        filter: Filter { language: "".to_string(), sort: Order::Ascending },
    });
    assert_eq!(round_trip(&r), r);
}

#[test]
fn fetch_manga_request_round_trip() {
    let r = request(Command::FetchManga { identifier: "https://host/title?id=1&x=\"y\"".to_string() });
    assert_eq!(round_trip(&r), r);
}

#[test]
fn fetch_chapter_request_round_trip() {
    let r = request(Command::FetchChapter { identifier: "\u{0}\\ \u{7f} ünï".to_string() });
    assert_eq!(round_trip(&r), r);
}

#[test]
fn request_with_another_version_tag_round_trip() {
    let r = Request { command: Command::Ping, version: "9.9.9-beta".to_string() };
    assert_eq!(round_trip(&r), r);
}

#[test]
fn ping_request_text() {
    let text = encode_request(&request(Command::Ping)).unwrap();
    assert_eq!(
        String::from_utf8(text).unwrap(),
        "{\"command\":{\"command\":\"Ping\"},\"version\":\"0.0.0\"}"
    );
}

#[test]
fn search_request_text() {
    let r = request(Command::Search { keyword: "sample".to_string(), page: 1, filter: filter() });
    let text = encode_request(&r).unwrap();
    assert_eq!(
        String::from_utf8(text).unwrap(),
        "{\"command\":{\"args\":{\"filter\":{\"language\":\"en\",\"sort\":\"Descending\"},\
         \"keyword\":\"sample\",\"page\":1},\"command\":\"Search\"},\"version\":\"0.0.0\"}"
    );
}

#[test]
fn fetch_manga_request_text() {
    let r = request(Command::FetchManga { identifier: "abc".to_string() });
    assert_eq!(
        String::from_utf8(encode_request(&r).unwrap()).unwrap(),
        "{\"command\":{\"args\":{\"identifier\":\"abc\"},\"command\":\"FetchManga\"},\"version\":\"0.0.0\"}"
    );
}

#[test]
fn request_is_read_whatever_the_order_of_keys() {
    let text = b"{ \"command\": {\"command\": \"FetchChapterList\", \"args\": {\"identifier\": \"x\", \
                 \"page\": 3, \"filter\": {\"sort\": \"Ascending\", \"language\": \"id\"}}}, \"version\": \"0.0.0\" }";
    assert_eq!(
        decode_request(text),
        Ok(request(Command::FetchChapterList {
            identifier: "x".to_string(),
            page: 3,
            filter: Filter { language: "id".to_string(), sort: Order::Ascending },
        }))
    );
}

#[test]
fn unknown_members_are_ignored() {
    let text = b"{\"command\":{\"command\":\"Ping\",\"args\":{\"x\":1},\"extra\":true},\"version\":\"1\",\"more\":[]}";
    assert_eq!(decode_request(text), Ok(Request { command: Command::Ping, version: "1".to_string() }));
}

#[test]
fn text_that_is_not_json_is_malformed() {
    assert_eq!(decode_request(b""), Err(ProtocolError::Malformed));
    assert_eq!(decode_request(b"{\"command\":"), Err(ProtocolError::Malformed));
    assert_eq!(decode_request(&[0xff, 0xfe]), Err(ProtocolError::Malformed));
    assert_eq!(decode_response::<()>(b"Ok"), Err(ProtocolError::Malformed));
}

#[test]
fn unknown_command_is_an_unexpected_shape() {
    let text = b"{\"command\":{\"command\":\"Pages\",\"args\":{\"identifier\":\"x\"}},\"version\":\"0.0.0\"}";
    assert_eq!(decode_request(text), Err(ProtocolError::UnexpectedShape));
}

#[test]
fn request_that_lacks_a_member_is_an_unexpected_shape() {
    assert_eq!(
        decode_request(b"{\"command\":{\"command\":\"Ping\"}}"),
        Err(ProtocolError::UnexpectedShape)
    );
    assert_eq!(decode_request(b"{\"version\":\"0.0.0\"}"), Err(ProtocolError::UnexpectedShape));
    assert_eq!(
        decode_request(b"{\"command\":{\"command\":\"FetchManga\"},\"version\":\"0.0.0\"}"),
        Err(ProtocolError::UnexpectedShape)
    );
    assert_eq!(
        decode_request(b"{\"command\":{\"command\":\"Search\",\"args\":{\"keyword\":\"k\",\"page\":1}},\"version\":\"0.0.0\"}"),
        Err(ProtocolError::UnexpectedShape)
    );
}

#[test]
fn page_that_is_no_u32_is_an_unexpected_shape() {
    for page in ["4294967296", "-1", "1.5", "\"1\"", "null"] {
        let text = format!(
            "{{\"command\":{{\"command\":\"Search\",\"args\":{{\"keyword\":\"k\",\"page\":{},\
             \"filter\":{{\"language\":\"en\",\"sort\":\"Ascending\"}}}}}},\"version\":\"0.0.0\"}}",
            page
        );
        assert_eq!(decode_request(text.as_bytes()), Err(ProtocolError::UnexpectedShape));
    }
    let text = b"{\"command\":{\"command\":\"Search\",\"args\":{\"keyword\":\"k\",\"page\":4294967295,\
                 \"filter\":{\"language\":\"en\",\"sort\":\"Ascending\"}}},\"version\":\"0.0.0\"}";
    assert!(decode_request(text).is_ok());
}

#[test]
fn sort_order_has_two_names() {
    assert_eq!(Order::Ascending.to_value(), Value::from("Ascending"));
    assert_eq!(Order::Descending.to_value(), Value::from("Descending"));
    assert_eq!(Order::from_value(&Value::from("Ascending")), Some(Order::Ascending));
    assert_eq!(Order::from_value(&Value::from("Descending")), Some(Order::Descending));
    assert_eq!(Order::from_value(&Value::from("descending")), None);
    assert_eq!(Order::from_value(&Value::from(1u64)), None);
}

#[test]
fn status_travels_as_ok_and_error() {
    assert_eq!(Status::Okay.to_value(), Value::from("Ok"));
    assert_eq!(Status::Error.to_value(), Value::from("Error"));
    assert_eq!(Status::from_value(&Value::from("Ok")), Some(Status::Okay));
    assert_eq!(Status::from_value(&Value::from("Error")), Some(Status::Error));
    assert_eq!(Status::from_value(&Value::from("Okay")), None);
    assert_eq!(Status::from_value(&Value::Null), None);
}

#[test]
fn publication_status_has_five_names() {
    let all = [
        (PublicationStatus::Ongoing, "Ongoing"),
        (PublicationStatus::Completed, "Completed"),
        (PublicationStatus::Hiatus, "Hiatus"),
        (PublicationStatus::Cancelled, "Cancelled"),
        (PublicationStatus::Unknown, "Unknown"),
    ];
    for (status, name) in all {
        assert_eq!(status.to_value(), Value::from(name));
        assert_eq!(PublicationStatus::from_value(&Value::from(name)), Some(status));
    }
    assert_eq!(PublicationStatus::from_value(&Value::from("ongoing")), None);
}

#[test]
fn filter_document() {
    let v = filter().to_value();
    assert_eq!(v, object(vec![("language", Value::from("en")), ("sort", Value::from("Descending"))]));
    assert_eq!(Filter::from_value(&v), Some(filter()));
    assert_eq!(Filter::from_value(&object(vec![("language", Value::from("en"))])), None);
    assert_eq!(Filter::from_value(&Value::from("en")), None);
}

#[test]
fn members_are_read_by_key() {
    let v = object(vec![
        ("name", Value::from("n")),
        ("page", Value::from(7u64)),
        ("big", Value::from(1u64 << 32)),
        ("sort", Value::from("Ascending")),
        ("list", Value::Array(vec![Value::from("a"), Value::from("b")])),
    ]);
    assert_eq!(read_text(&v, "name"), Some("n".to_string()));
    assert_eq!(read_text(&v, "page"), None);
    assert_eq!(read_text(&v, "absent"), None);
    assert_eq!(read_u32(&v, "page"), Some(7));
    assert_eq!(read_u32(&v, "big"), None);
    assert_eq!(read_u32(&v, "name"), None);
    assert_eq!(read_member::<Order>(&v, "sort"), Some(Order::Ascending));
    assert_eq!(read_member::<Order>(&v, "name"), None);
    assert_eq!(read_list::<String>(&v, "list"), Some(vec!["a".to_string(), "b".to_string()]));
    assert_eq!(read_list::<String>(&v, "name"), None);
    assert_eq!(read_text(&Value::from("name"), "name"), None);
}

#[test]
fn lists_are_arrays_in_order() {
    let items = vec!["x".to_string(), "y".to_string(), "z".to_string()];
    let v = list_to_value(&items);
    assert_eq!(v, Value::Array(vec![Value::from("x"), Value::from("y"), Value::from("z")]));
    assert_eq!(list_from_value::<String>(&v), Some(items));
    assert_eq!(list_to_value::<String>(&vec![]), Value::Array(vec![]));
    assert_eq!(list_from_value::<String>(&Value::Array(vec![])), Some(vec![]));
    let mixed = Value::Array(vec![Value::from("x"), Value::from(1u64)]);
    assert_eq!(list_from_value::<String>(&mixed), None);
    assert_eq!(list_from_value::<String>(&Value::Null), None);
}

#[test]
fn manga_list_response_round_trip() {
    let response = Response {
        status: Status::Okay,
        reason: "All good".to_string(),
        source_name: "MangaDex".to_string(),
        content: Some(MangaList {
            page: 2,
            total_page: 7,
            data: vec![
                MangaListEntry {
                    identifier: "m-1".to_string(),
                    title: "One".to_string(),
                    status: PublicationStatus::Ongoing,
                },
                MangaListEntry {
                    identifier: "m-2".to_string(),
                    title: "Two".to_string(),
                    status: PublicationStatus::Unknown,
                },
            ],
        }),
    };
    let text = encode_response(&response).unwrap();
    assert_eq!(decode_response::<MangaList>(&text), Ok(response));
}

#[test]
fn chapter_list_response_round_trip() {
    let response = Response {
        status: Status::Okay,
        reason: "All good".to_string(),
        source_name: "MangaDex".to_string(),
        content: Some(ChapterList {
            page: 1,
            total_page: 1,
            data: vec![ChapterListEntry {
                identifier: "c-1".to_string(),
                title: "No title".to_string(),
                number: "12".to_string(),
            }],
        }),
    };
    let text = encode_response(&response).unwrap();
    assert_eq!(decode_response::<ChapterList>(&text), Ok(response));
}

#[test]
fn manga_response_round_trip() {
    let response = Response {
        status: Status::Okay,
        reason: "All good!".to_string(),
        source_name: "MangaDex".to_string(),
        content: Some(sample_manga()),
    };
    let text = encode_response(&response).unwrap();
    assert_eq!(decode_response::<Manga>(&text), Ok(response));
}

#[test]
fn chapter_response_round_trip() {
    let response = Response {
        status: Status::Okay,
        reason: "All good".to_string(),
        source_name: "MangaDex".to_string(),
        content: Some(sample_chapter()),
    };
    let text = encode_response(&response).unwrap();
    assert_eq!(decode_response::<Chapter>(&text), Ok(response));
}

#[test]
fn error_response_round_trip() {
    let response: Response<Manga> = Response {
        status: Status::Error,
        reason: "404: Not Found".to_string(),
        source_name: "MangaDex".to_string(),
        content: None,
    };
    let text = encode_response(&response).unwrap();
    assert_eq!(
        String::from_utf8(text.clone()).unwrap(),
        "{\"content\":null,\"reason\":\"404: Not Found\",\"source_name\":\"MangaDex\",\"status\":\"Error\"}"
    );
    assert_eq!(decode_response::<Manga>(&text), Ok(response));
}

#[test]
fn ping_response_round_trip() {
    let response: Response<()> = Response {
        status: Status::Okay,
        reason: "Pong, this source is active".to_string(),
        source_name: "MangaDex".to_string(),
        content: None,
    };
    let text = encode_response(&response).unwrap();
    assert_eq!(decode_response::<()>(&text), Ok(response));
}

#[test]
fn response_without_content_member_has_no_content() {
    let text = b"{\"status\":\"Ok\",\"reason\":\"r\",\"source_name\":\"s\"}";
    let expected: Response<MangaList> = Response {
        status: Status::Okay,
        reason: "r".to_string(),
        source_name: "s".to_string(),
        content: None,
    };
    assert_eq!(decode_response::<MangaList>(text), Ok(expected));
}

#[test]
fn response_with_content_of_another_shape_is_refused() {
    let text = b"{\"status\":\"Ok\",\"reason\":\"r\",\"source_name\":\"s\",\"content\":{\"page\":1}}";
    assert_eq!(decode_response::<MangaList>(text), Err(ProtocolError::UnexpectedShape));
    assert_eq!(decode_response::<()>(text), Err(ProtocolError::UnexpectedShape));
    let text = b"{\"status\":\"Ok\",\"reason\":\"r\",\"content\":null}";
    assert_eq!(decode_response::<()>(text), Err(ProtocolError::UnexpectedShape));
}

#[test]
fn response_document_has_four_members() {
    let response = Response {
        status: Status::Okay,
        reason: "r".to_string(),
        source_name: "s".to_string(),
        content: Some("text".to_string()),
    };
    let v = response_to_value(&response);
    assert_eq!(
        v,
        object(vec![
            ("status", Value::from("Ok")),
            ("reason", Value::from("r")),
            ("source_name", Value::from("s")),
            ("content", Value::from("text")),
        ])
    );
    assert_eq!(response_from_value::<String>(&v), Some(response));
    assert_eq!(response_from_value::<String>(&Value::Null), None);
}

#[test]
fn manga_document_has_its_members() {
    let v = sample_manga().to_value();
    assert_eq!(v.get("identifier"), Some(&Value::from("m-1")));
    assert_eq!(v.get("status"), Some(&Value::from("Hiatus")));
    assert_eq!(v.get("original_language"), Some(&Value::from("ja")));
    assert_eq!(
        v.get("authors").unwrap().get(1),
        Some(&object(vec![("name", Value::from("B. Painter")), ("details", Value::from("Artist"))]))
    );
    assert_eq!(Manga::from_value(&v), Some(sample_manga()));
}

#[test]
fn chapter_document_has_its_members() {
    let v = sample_chapter().to_value();
    assert_eq!(v.get("manga_identifier"), Some(&Value::from("m-1")));
    assert_eq!(v.get("number"), Some(&Value::from("1.5")));
    assert_eq!(v.get("page_urls").unwrap().as_array().unwrap().len(), 2);
    assert_eq!(Chapter::from_value(&v), Some(sample_chapter()));
    assert_eq!(Chapter::from_value(&object(vec![("identifier", Value::from("c"))])), None);
}

#[test]
fn unit_is_null() {
    assert_eq!(().to_value(), Value::Null);
    assert_eq!(<()>::from_value(&Value::Null), Some(()));
    assert_eq!(<()>::from_value(&Value::from(0u64)), None);
}

#[test]
fn command_document_has_tag_and_arguments() {
    let v = Command::FetchChapter { identifier: "c".to_string() }.to_value();
    assert_eq!(
        v,
        object(vec![
            ("command", Value::from("FetchChapter")),
            ("args", object(vec![("identifier", Value::from("c"))])),
        ])
    );
    assert_eq!(Command::Ping.to_value(), object(vec![("command", Value::from("Ping"))]));
    assert_eq!(Command::from_value(&v), Some(Command::FetchChapter { identifier: "c".to_string() }));
}
