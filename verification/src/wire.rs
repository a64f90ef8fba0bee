//! The JSON form of the protocol's messages.
//!
//! For every type that travels, `encoding` says which JSON document stands for
//! a value and `decoding` says which value a document stands for, if any.
//! Reading back what was written gives the value that was written.
//!
//! Text enters and leaves through `serde_json`: [`encode_request`],
//! [`decode_request`], [`encode_response`] and [`decode_response`] go between
//! bytes and documents with it, and between documents and values with the
//! verified functions of this module.

use vstd::prelude::*;
use crate::dto::{
    views_of, Author, AuthorView, Chapter, ChapterList, ChapterListEntry, ChapterListEntryView,
    ChapterListView, ChapterView, Command, CommandView, Filter, FilterView, Manga, MangaList,
    MangaListEntry, MangaListEntryView, MangaListView, MangaView, Order, PublicationStatus,
    Request, RequestView, Response, ResponseView, Status,
};
use crate::json::{
    array_value, get_member, member, models_of, no_members, null_value, object_value,
    parse_text, parsed_text, print_value, printed_value, text_value, uint_value, value_model,
    JsonValue,
};
use crate::text::same_text;

verus! {

/// Why a payload could not be turned into a message, or a message into a
/// payload.
#[derive(Clone, Copy, Debug, PartialEq, Eq, Structural)]
pub enum ProtocolError {
    /// The payload is not JSON text.
    Malformed,
    /// The payload is JSON, but not of the shape that the message has.
    UnexpectedShape,
    /// The response reports success for a command that bears data, and
    /// carries none.
    MissingContent,
    /// The response carries content where none belongs: beside an error, or
    /// in answer to a command that bears no data.
    UnexpectedContent,
    /// The message could not be written as JSON text.
    Unprintable,
}

/// A type with a JSON form.
pub trait Wire: View + Sized {
    /// The document that stands for the value with model `v`.
    spec fn encoding(v: Self::V) -> JsonValue;

    /// The model of the value that the document `j` stands for, if it stands
    /// for one.
    spec fn decoding(j: JsonValue) -> Option<Self::V>;

    /// Reading back what was written gives what was written.
    proof fn lemma_round_trip(v: Self::V)
        ensures
            Self::decoding(Self::encoding(v)) == Some(v),
    ;

    /// Writes the value as a document.
    fn to_value(&self) -> (r: serde_json::Value)
        ensures
            value_model(r) == Self::encoding(self@),
    ;

    /// Reads a value from a document; `None` exactly when the document stands
    /// for no value of this type.
    fn from_value(v: &serde_json::Value) -> (r: Option<Self>)
        ensures
            match r {
                Some(x) => Self::decoding(value_model(*v)) == Some(x@),
                None => Self::decoding(value_model(*v)) is None,
            },
    ;
}

/// The text member `key` of `v`, if `v` is an object that has one.
pub open spec fn text_member(v: JsonValue, key: Seq<char>) -> Option<Seq<char>> {
    match member(v, key) {
        Some(JsonValue::Text(s)) => Some(s),
        _ => None,
    }
}

/// The member `key` of `v` as a 32-bit unsigned number, if `v` is an object
/// that has such a member.
pub open spec fn u32_member(v: JsonValue, key: Seq<char>) -> Option<u32> {
    match member(v, key) {
        Some(JsonValue::Uint(n)) => if n <= u32::MAX {
            Some(n as u32)
        } else {
            None
        },
        _ => None,
    }
}

/// Reads the text member `key` of `v`.
pub fn read_text(v: &serde_json::Value, key: &str) -> (r: Option<String>)
    ensures
        match r {
            Some(s) => text_member(value_model(*v), key@) == Some(s@),
            None => text_member(value_model(*v), key@) is None,
        },
{
    match get_member(v, key) {
        Some(found) => match found.as_str() {
            Some(s) => Some(s.to_owned()),
            None => None,
        },
        None => None,
    }
}

/// Reads the member `key` of `v` as a 32-bit unsigned number.
pub fn read_u32(v: &serde_json::Value, key: &str) -> (r: Option<u32>)
    ensures
        r == u32_member(value_model(*v), key@),
{
    match get_member(v, key) {
        Some(found) => match found.as_u64() {
            Some(n) => if n <= 0xffff_ffff {
                Some(n as u32)
            } else {
                None
            },
            None => None,
        },
        None => None,
    }
}

/// Reads the member `key` of `v` as a value of type `T`.
pub fn read_member<T: Wire>(v: &serde_json::Value, key: &str) -> (r: Option<T>)
    ensures
        match r {
            Some(x) => member(value_model(*v), key@) is Some && T::decoding(
                member(value_model(*v), key@)->0,
            ) == Some(x@),
            None => member(value_model(*v), key@) is None || T::decoding(
                member(value_model(*v), key@)->0,
            ) is None,
        },
{
    match get_member(v, key) {
        Some(found) => T::from_value(found),
        None => None,
    }
}

impl Wire for String {
    open spec fn encoding(v: Seq<char>) -> JsonValue {
        JsonValue::Text(v)
    }

    open spec fn decoding(j: JsonValue) -> Option<Seq<char>> {
        match j {
            JsonValue::Text(s) => Some(s),
            _ => None,
        }
    }

    proof fn lemma_round_trip(v: Seq<char>) {
    }

    fn to_value(&self) -> (r: serde_json::Value) {
        text_value(self.as_str())
    }

    fn from_value(v: &serde_json::Value) -> (r: Option<Self>) {
        match v.as_str() {
            Some(s) => Some(s.to_owned()),
            None => None,
        }
    }
}

impl Wire for Order {
    open spec fn encoding(v: Order) -> JsonValue {
        match v {
            Order::Ascending => JsonValue::Text("Ascending"@),
            Order::Descending => JsonValue::Text("Descending"@),
        }
    }

    open spec fn decoding(j: JsonValue) -> Option<Order> {
        match j {
            JsonValue::Text(s) => if s == "Ascending"@ {
                Some(Order::Ascending)
            } else if s == "Descending"@ {
                Some(Order::Descending)
            } else {
                None
            },
            _ => None,
        }
    }

    proof fn lemma_round_trip(v: Order) {
        reveal_strlit("Ascending");
        reveal_strlit("Descending");
        assert("Ascending"@.len() != "Descending"@.len());
    }

    fn to_value(&self) -> (r: serde_json::Value) {
        match self {
            Order::Ascending => text_value("Ascending"),
            Order::Descending => text_value("Descending"),
        }
    }

    fn from_value(v: &serde_json::Value) -> (r: Option<Self>) {
        match v.as_str() {
            Some(s) => if same_text(s, "Ascending") {
                Some(Order::Ascending)
            } else if same_text(s, "Descending") {
                Some(Order::Descending)
            } else {
                None
            },
            None => None,
        }
    }
}

impl Wire for Status {
    open spec fn encoding(v: Status) -> JsonValue {
        match v {
            Status::Okay => JsonValue::Text("Ok"@),
            Status::Error => JsonValue::Text("Error"@),
        }
    }

    open spec fn decoding(j: JsonValue) -> Option<Status> {
        match j {
            JsonValue::Text(s) => if s == "Ok"@ {
                Some(Status::Okay)
            } else if s == "Error"@ {
                Some(Status::Error)
            } else {
                None
            },
            _ => None,
        }
    }

    proof fn lemma_round_trip(v: Status) {
        reveal_strlit("Ok");
        reveal_strlit("Error");
        assert("Ok"@.len() != "Error"@.len());
    }

    fn to_value(&self) -> (r: serde_json::Value) {
        match self {
            Status::Okay => text_value("Ok"),
            Status::Error => text_value("Error"),
        }
    }

    fn from_value(v: &serde_json::Value) -> (r: Option<Self>) {
        match v.as_str() {
            Some(s) => if same_text(s, "Ok") {
                Some(Status::Okay)
            } else if same_text(s, "Error") {
                Some(Status::Error)
            } else {
                None
            },
            None => None,
        }
    }
}

/// The name by which a publication state travels.
pub open spec fn publication_name(v: PublicationStatus) -> Seq<char> {
    match v {
        PublicationStatus::Ongoing => "Ongoing"@,
        PublicationStatus::Completed => "Completed"@,
        PublicationStatus::Hiatus => "Hiatus"@,
        PublicationStatus::Cancelled => "Cancelled"@,
        PublicationStatus::Unknown => "Unknown"@,
    }
}

/// The names of two different publication states differ.
pub proof fn lemma_publication_names_differ(a: PublicationStatus, b: PublicationStatus)
    ensures
        a != b ==> publication_name(a) != publication_name(b),
{
    reveal_strlit("Ongoing");
    reveal_strlit("Completed");
    reveal_strlit("Hiatus");
    reveal_strlit("Cancelled");
    reveal_strlit("Unknown");
    assert("Ongoing"@.len() == 7 && "Unknown"@.len() == 7 && "Ongoing"@[0] != "Unknown"@[0]);
    assert("Completed"@.len() == 9 && "Cancelled"@.len() == 9 && "Completed"@[1]
        != "Cancelled"@[1]);
    assert("Hiatus"@.len() == 6);
}

impl Wire for PublicationStatus {
    open spec fn encoding(v: PublicationStatus) -> JsonValue {
        JsonValue::Text(publication_name(v))
    }

    open spec fn decoding(j: JsonValue) -> Option<PublicationStatus> {
        match j {
            JsonValue::Text(s) => if s == "Ongoing"@ {
                Some(PublicationStatus::Ongoing)
            } else if s == "Completed"@ {
                Some(PublicationStatus::Completed)
            } else if s == "Hiatus"@ {
                Some(PublicationStatus::Hiatus)
            } else if s == "Cancelled"@ {
                Some(PublicationStatus::Cancelled)
            } else if s == "Unknown"@ {
                Some(PublicationStatus::Unknown)
            } else {
                None
            },
            _ => None,
        }
    }

    proof fn lemma_round_trip(v: PublicationStatus) {
        lemma_publication_names_differ(v, PublicationStatus::Ongoing);
        lemma_publication_names_differ(v, PublicationStatus::Completed);
        lemma_publication_names_differ(v, PublicationStatus::Hiatus);
        lemma_publication_names_differ(v, PublicationStatus::Cancelled);
        lemma_publication_names_differ(v, PublicationStatus::Unknown);
    }

    fn to_value(&self) -> (r: serde_json::Value) {
        match self {
            PublicationStatus::Ongoing => text_value("Ongoing"),
            PublicationStatus::Completed => text_value("Completed"),
            PublicationStatus::Hiatus => text_value("Hiatus"),
            PublicationStatus::Cancelled => text_value("Cancelled"),
            PublicationStatus::Unknown => text_value("Unknown"),
        }
    }

    fn from_value(v: &serde_json::Value) -> (r: Option<Self>) {
        match v.as_str() {
            Some(s) => if same_text(s, "Ongoing") {
                Some(PublicationStatus::Ongoing)
            } else if same_text(s, "Completed") {
                Some(PublicationStatus::Completed)
            } else if same_text(s, "Hiatus") {
                Some(PublicationStatus::Hiatus)
            } else if same_text(s, "Cancelled") {
                Some(PublicationStatus::Cancelled)
            } else if same_text(s, "Unknown") {
                Some(PublicationStatus::Unknown)
            } else {
                None
            },
            None => None,
        }
    }
}

impl Wire for Filter {
    open spec fn encoding(v: FilterView) -> JsonValue {
        JsonValue::Object(
            no_members().insert("language"@, JsonValue::Text(v.language)).insert(
                "sort"@,
                Order::encoding(v.sort),
            ),
        )
    }

    open spec fn decoding(j: JsonValue) -> Option<FilterView> {
        match (text_member(j, "language"@), member(j, "sort"@)) {
            (Some(language), Some(s)) => match Order::decoding(s) {
                Some(sort) => Some(FilterView { language, sort }),
                None => None,
            },
            _ => None,
        }
    }

    proof fn lemma_round_trip(v: FilterView) {
        reveal_strlit("language");
        reveal_strlit("sort");
        assert("language"@.len() != "sort"@.len());
        Order::lemma_round_trip(v.sort);
    }

    fn to_value(&self) -> (r: serde_json::Value) {
        let mut m = serde_json::Map::new();
        m.insert("language".to_owned(), text_value(self.language.as_str()));
        m.insert("sort".to_owned(), self.sort.to_value());
        object_value(m)
    }

    fn from_value(v: &serde_json::Value) -> (r: Option<Self>) {
        let language = match read_text(v, "language") {
            Some(x) => x,
            None => { return None; },
        };
        let sort: Order = match read_member(v, "sort") {
            Some(x) => x,
            None => { return None; },
        };
        Some(Filter { language, sort })
    }
}

/// The arguments of a command that names a keyword or an identifier under
/// `key`, a page and a filter.
pub open spec fn paged_args(key: Seq<char>, what: Seq<char>, page: u32, filter: FilterView)
    -> JsonValue {
    JsonValue::Object(
        no_members().insert(key, JsonValue::Text(what)).insert(
            "page"@,
            JsonValue::Uint(page as u64),
        ).insert("filter"@, Filter::encoding(filter)),
    )
}

/// The arguments of a command that names an identifier and nothing else.
pub open spec fn identifier_args(identifier: Seq<char>) -> JsonValue {
    JsonValue::Object(no_members().insert("identifier"@, JsonValue::Text(identifier)))
}

/// The document of a command with tag `tag` and arguments `args`.
pub open spec fn tagged(tag: Seq<char>, args: JsonValue) -> JsonValue {
    JsonValue::Object(
        no_members().insert("command"@, JsonValue::Text(tag)).insert("args"@, args),
    )
}

/// The filter under the key `filter` of `args`, if there is one.
pub open spec fn filter_member(args: JsonValue) -> Option<FilterView> {
    match member(args, "filter"@) {
        Some(f) => Filter::decoding(f),
        None => None,
    }
}

/// The command that the document `j` stands for when its tag is `tag`.
pub open spec fn command_with_tag(tag: Seq<char>, j: JsonValue) -> Option<CommandView> {
    if tag == "Ping"@ {
        Some(CommandView::Ping)
    } else {
        match member(j, "args"@) {
            None => None,
            Some(args) => if tag == "Search"@ {
                match (text_member(args, "keyword"@), u32_member(args, "page"@), filter_member(args)) {
                    (Some(keyword), Some(page), Some(filter)) => Some(
                        CommandView::Search { keyword, page, filter },
                    ),
                    _ => None,
                }
            } else if tag == "FetchChapterList"@ {
                match (
                    text_member(args, "identifier"@),
                    u32_member(args, "page"@),
                    filter_member(args),
                ) {
                    (Some(identifier), Some(page), Some(filter)) => Some(
                        CommandView::FetchChapterList { identifier, page, filter },
                    ),
                    _ => None,
                }
            } else if tag == "FetchManga"@ {
                match text_member(args, "identifier"@) {
                    Some(identifier) => Some(CommandView::FetchManga { identifier }),
                    None => None,
                }
            } else if tag == "FetchChapter"@ {
                match text_member(args, "identifier"@) {
                    Some(identifier) => Some(CommandView::FetchChapter { identifier }),
                    None => None,
                }
            } else {
                None
            },
        }
    }
}

/// The five command tags differ from each other, and so do the keys that
/// stand beside each other in a request.
pub proof fn lemma_request_names_differ()
    ensures
        "Ping"@ != "Search"@,
        "Ping"@ != "FetchChapterList"@,
        "Ping"@ != "FetchManga"@,
        "Ping"@ != "FetchChapter"@,
        "Search"@ != "FetchChapterList"@,
        "Search"@ != "FetchManga"@,
        "Search"@ != "FetchChapter"@,
        "FetchChapterList"@ != "FetchManga"@,
        "FetchChapterList"@ != "FetchChapter"@,
        "FetchManga"@ != "FetchChapter"@,
        "command"@ != "args"@,
        "command"@ != "version"@,
        "keyword"@ != "page"@,
        "keyword"@ != "filter"@,
        "identifier"@ != "page"@,
        "identifier"@ != "filter"@,
        "page"@ != "filter"@,
{
    reveal_strlit("Ping");
    reveal_strlit("Search");
    reveal_strlit("FetchChapterList");
    reveal_strlit("FetchManga");
    reveal_strlit("FetchChapter");
    reveal_strlit("command");
    reveal_strlit("args");
    reveal_strlit("version");
    reveal_strlit("keyword");
    reveal_strlit("identifier");
    reveal_strlit("page");
    reveal_strlit("filter");
    assert("Ping"@.len() == 4 && "Search"@.len() == 6 && "FetchChapterList"@.len() == 16);
    assert("FetchManga"@.len() == 10 && "FetchChapter"@.len() == 12);
    assert("command"@.len() == 7 && "args"@.len() == 4 && "version"@.len() == 7);
    assert("command"@[0] != "version"@[0]);
    assert("keyword"@.len() == 7 && "page"@.len() == 4 && "filter"@.len() == 6);
    assert("identifier"@.len() == 10);
}

impl Wire for Command {
    open spec fn encoding(v: CommandView) -> JsonValue {
        match v {
            CommandView::Ping => JsonValue::Object(
                no_members().insert("command"@, JsonValue::Text("Ping"@)),
            ),
            CommandView::Search { keyword, page, filter } => tagged(
                "Search"@,
                paged_args("keyword"@, keyword, page, filter),
            ),
            CommandView::FetchChapterList { identifier, page, filter } => tagged(
                "FetchChapterList"@,
                paged_args("identifier"@, identifier, page, filter),
            ),
            CommandView::FetchManga { identifier } => tagged(
                "FetchManga"@,
                identifier_args(identifier),
            ),
            CommandView::FetchChapter { identifier } => tagged(
                "FetchChapter"@,
                identifier_args(identifier),
            ),
        }
    }

    open spec fn decoding(j: JsonValue) -> Option<CommandView> {
        match text_member(j, "command"@) {
            Some(tag) => command_with_tag(tag, j),
            None => None,
        }
    }

    proof fn lemma_round_trip(v: CommandView) {
        lemma_request_names_differ();
        match v {
            CommandView::Ping => {},
            CommandView::Search { keyword, page, filter } => {
                Filter::lemma_round_trip(filter);
            },
            CommandView::FetchChapterList { identifier, page, filter } => {
                Filter::lemma_round_trip(filter);
            },
            CommandView::FetchManga { identifier } => {},
            CommandView::FetchChapter { identifier } => {},
        }
    }

    fn to_value(&self) -> (r: serde_json::Value) {
        let mut m = serde_json::Map::new();
        match self {
            Command::Ping => {
                m.insert("command".to_owned(), text_value("Ping"));
            },
            Command::Search { keyword, page, filter } => {
                let mut args = serde_json::Map::new();
                args.insert("keyword".to_owned(), text_value(keyword.as_str()));
                args.insert("page".to_owned(), uint_value(*page as u64));
                args.insert("filter".to_owned(), filter.to_value());
                m.insert("command".to_owned(), text_value("Search"));
                m.insert("args".to_owned(), object_value(args));
            },
            Command::FetchChapterList { identifier, page, filter } => {
                let mut args = serde_json::Map::new();
                args.insert("identifier".to_owned(), text_value(identifier.as_str()));
                args.insert("page".to_owned(), uint_value(*page as u64));
                args.insert("filter".to_owned(), filter.to_value());
                m.insert("command".to_owned(), text_value("FetchChapterList"));
                m.insert("args".to_owned(), object_value(args));
            },
            Command::FetchManga { identifier } => {
                let mut args = serde_json::Map::new();
                args.insert("identifier".to_owned(), text_value(identifier.as_str()));
                m.insert("command".to_owned(), text_value("FetchManga"));
                m.insert("args".to_owned(), object_value(args));
            },
            Command::FetchChapter { identifier } => {
                let mut args = serde_json::Map::new();
                args.insert("identifier".to_owned(), text_value(identifier.as_str()));
                m.insert("command".to_owned(), text_value("FetchChapter"));
                m.insert("args".to_owned(), object_value(args));
            },
        }
        object_value(m)
    }

    fn from_value(v: &serde_json::Value) -> (r: Option<Self>) {
        let tag = match read_text(v, "command") {
            Some(x) => x,
            None => { return None; },
        };
        if same_text(tag.as_str(), "Ping") {
            return Some(Command::Ping);
        }
        let args = match get_member(v, "args") {
            Some(x) => x,
            None => { return None; },
        };
        if same_text(tag.as_str(), "Search") {
            let keyword = match read_text(args, "keyword") {
                Some(x) => x,
                None => { return None; },
            };
            let page = match read_u32(args, "page") {
                Some(x) => x,
                None => { return None; },
            };
            let filter: Filter = match read_member(args, "filter") {
                Some(x) => x,
                None => { return None; },
            };
            Some(Command::Search { keyword, page, filter })
        } else if same_text(tag.as_str(), "FetchChapterList") {
            let identifier = match read_text(args, "identifier") {
                Some(x) => x,
                None => { return None; },
            };
            let page = match read_u32(args, "page") {
                Some(x) => x,
                None => { return None; },
            };
            let filter: Filter = match read_member(args, "filter") {
                Some(x) => x,
                None => { return None; },
            };
            Some(Command::FetchChapterList { identifier, page, filter })
        } else if same_text(tag.as_str(), "FetchManga") {
            match read_text(args, "identifier") {
                Some(identifier) => Some(Command::FetchManga { identifier }),
                None => None,
            }
        } else if same_text(tag.as_str(), "FetchChapter") {
            match read_text(args, "identifier") {
                Some(identifier) => Some(Command::FetchChapter { identifier }),
                None => None,
            }
        } else {
            None
        }
    }
}

impl Wire for Request {
    open spec fn encoding(v: RequestView) -> JsonValue {
        JsonValue::Object(
            no_members().insert("command"@, Command::encoding(v.command)).insert(
                "version"@,
                JsonValue::Text(v.version),
            ),
        )
    }

    open spec fn decoding(j: JsonValue) -> Option<RequestView> {
        match (member(j, "command"@), text_member(j, "version"@)) {
            (Some(c), Some(version)) => match Command::decoding(c) {
                Some(command) => Some(RequestView { command, version }),
                None => None,
            },
            _ => None,
        }
    }

    proof fn lemma_round_trip(v: RequestView) {
        lemma_request_names_differ();
        Command::lemma_round_trip(v.command);
    }

    fn to_value(&self) -> (r: serde_json::Value) {
        let mut m = serde_json::Map::new();
        m.insert("command".to_owned(), self.command.to_value());
        m.insert("version".to_owned(), text_value(self.version.as_str()));
        object_value(m)
    }

    fn from_value(v: &serde_json::Value) -> (r: Option<Self>) {
        let command: Command = match read_member(v, "command") {
            Some(x) => x,
            None => { return None; },
        };
        let version = match read_text(v, "version") {
            Some(x) => x,
            None => { return None; },
        };
        Some(Request { command, version })
    }
}

/// The array document that stands for a list of values with models `items`.
pub open spec fn list_encoding<T: Wire>(items: Seq<T::V>) -> JsonValue {
    JsonValue::Array(Seq::new(items.len(), |i: int| T::encoding(items[i])))
}

/// The models of the list that the document `j` stands for: `j` must be an
/// array, each item of which stands for a value.
pub open spec fn list_decoding<T: Wire>(j: JsonValue) -> Option<Seq<T::V>> {
    match j {
        JsonValue::Array(items) => if forall|i: int|
            0 <= i < items.len() ==> (#[trigger] T::decoding(items[i])) is Some {
            Some(Seq::new(items.len(), |i: int| T::decoding(items[i])->0))
        } else {
            None
        },
        _ => None,
    }
}

/// The list under the key `key` of `v`, if there is one.
pub open spec fn list_member<T: Wire>(v: JsonValue, key: Seq<char>) -> Option<Seq<T::V>> {
    match member(v, key) {
        Some(j) => list_decoding::<T>(j),
        None => None,
    }
}

/// Reading back a list that was written gives the list.
pub proof fn lemma_list_round_trip<T: Wire>(items: Seq<T::V>)
    ensures
        list_decoding::<T>(list_encoding::<T>(items)) == Some(items),
{
    let written = Seq::new(items.len(), |i: int| T::encoding(items[i]));
    assert forall|i: int| 0 <= i < written.len() implies (#[trigger] T::decoding(written[i]))
        == Some(items[i]) by {
        T::lemma_round_trip(items[i]);
    }
    assert(Seq::new(written.len(), |i: int| T::decoding(written[i])->0) =~= items);
}

/// Writes a list as an array document.
pub fn list_to_value<T: Wire>(items: &Vec<T>) -> (r: serde_json::Value)
    ensures
        value_model(r) == list_encoding::<T>(views_of(items@)),
{
    let mut out: Vec<serde_json::Value> = Vec::new();
    let mut i: usize = 0;
    while i < items.len()
        invariant
            i <= items@.len(),
            out@.len() == i,
            forall|j: int| 0 <= j < i ==> value_model(#[trigger] out@[j]) == T::encoding(items@[j]@),
        decreases items@.len() - i,
    {
        out.push(items[i].to_value());
        i += 1;
    }
    assert(models_of(out@) =~= Seq::new(
        views_of(items@).len(),
        |i: int| T::encoding(views_of(items@)[i]),
    ));
    array_value(out)
}

/// Reads a list from an array document; `None` exactly when the document is
/// no array or one of its items stands for no value.
pub fn list_from_value<T: Wire>(v: &serde_json::Value) -> (r: Option<Vec<T>>)
    ensures
        match r {
            Some(items) => list_decoding::<T>(value_model(*v)) == Some(views_of(items@)),
            None => list_decoding::<T>(value_model(*v)) is None,
        },
{
    let items = match v.as_array() {
        Some(x) => x,
        None => { return None; },
    };
    let ghost models = models_of(items@);
    let mut out: Vec<T> = Vec::new();
    let mut i: usize = 0;
    while i < items.len()
        invariant
            i <= items@.len(),
            out@.len() == i,
            models == models_of(items@),
            value_model(*v) == JsonValue::Array(models),
            forall|j: int| 0 <= j < i ==> (#[trigger] T::decoding(models[j])) == Some(out@[j]@),
        decreases items@.len() - i,
    {
        match T::from_value(&items[i]) {
            Some(x) => {
                out.push(x);
            },
            None => {
                assert(T::decoding(models[i as int]) is None);
                return None;
            },
        }
        i += 1;
    }
    assert(Seq::new(models.len(), |i: int| T::decoding(models[i])->0) =~= views_of(out@));
    Some(out)
}

/// Reads the list under the key `key` of `v`.
pub fn read_list<T: Wire>(v: &serde_json::Value, key: &str) -> (r: Option<Vec<T>>)
    ensures
        match r {
            Some(items) => list_member::<T>(value_model(*v), key@) == Some(views_of(items@)),
            None => list_member::<T>(value_model(*v), key@) is None,
        },
{
    match get_member(v, key) {
        Some(found) => list_from_value(found),
        None => None,
    }
}

impl Wire for Author {
    open spec fn encoding(v: AuthorView) -> JsonValue {
        JsonValue::Object(
            no_members().insert("name"@, JsonValue::Text(v.name)).insert(
                "details"@,
                JsonValue::Text(v.details),
            ),
        )
    }

    open spec fn decoding(j: JsonValue) -> Option<AuthorView> {
        match (text_member(j, "name"@), text_member(j, "details"@)) {
            (Some(name), Some(details)) => Some(AuthorView { name, details }),
            _ => None,
        }
    }

    proof fn lemma_round_trip(v: AuthorView) {
        reveal_strlit("name");
        reveal_strlit("details");
        assert("name"@.len() != "details"@.len());
    }

    fn to_value(&self) -> (r: serde_json::Value) {
        let mut m = serde_json::Map::new();
        m.insert("name".to_owned(), text_value(self.name.as_str()));
        m.insert("details".to_owned(), text_value(self.details.as_str()));
        object_value(m)
    }

    fn from_value(v: &serde_json::Value) -> (r: Option<Self>) {
        let name = match read_text(v, "name") {
            Some(x) => x,
            None => { return None; },
        };
        let details = match read_text(v, "details") {
            Some(x) => x,
            None => { return None; },
        };
        Some(Author { name, details })
    }
}

/// The keys that stand beside each other in a catalog document differ.
pub proof fn lemma_catalog_names_differ()
    ensures
        "identifier"@ != "title"@,
        "identifier"@ != "status"@,
        "identifier"@ != "number"@,
        "identifier"@ != "authors"@,
        "identifier"@ != "original_language"@,
        "identifier"@ != "language"@,
        "identifier"@ != "description"@,
        "identifier"@ != "manga_identifier"@,
        "identifier"@ != "page_urls"@,
        "title"@ != "status"@,
        "title"@ != "number"@,
        "title"@ != "authors"@,
        "title"@ != "original_language"@,
        "title"@ != "language"@,
        "title"@ != "description"@,
        "title"@ != "manga_identifier"@,
        "title"@ != "page_urls"@,
        "authors"@ != "original_language"@,
        "authors"@ != "language"@,
        "authors"@ != "description"@,
        "authors"@ != "status"@,
        "original_language"@ != "language"@,
        "original_language"@ != "description"@,
        "original_language"@ != "status"@,
        "language"@ != "description"@,
        "language"@ != "status"@,
        "language"@ != "number"@,
        "language"@ != "manga_identifier"@,
        "language"@ != "page_urls"@,
        "description"@ != "status"@,
        "manga_identifier"@ != "number"@,
        "manga_identifier"@ != "page_urls"@,
        "number"@ != "page_urls"@,
        "page"@ != "total_page"@,
        "page"@ != "data"@,
        "total_page"@ != "data"@,
{
    reveal_strlit("identifier");
    reveal_strlit("title");
    reveal_strlit("status");
    reveal_strlit("number");
    reveal_strlit("authors");
    reveal_strlit("original_language");
    reveal_strlit("language");
    reveal_strlit("description");
    reveal_strlit("manga_identifier");
    reveal_strlit("page_urls");
    reveal_strlit("page");
    reveal_strlit("total_page");
    reveal_strlit("data");
    assert("identifier"@.len() == 10 && "title"@.len() == 5 && "status"@.len() == 6);
    assert("number"@.len() == 6 && "authors"@.len() == 7 && "language"@.len() == 8);
    assert("original_language"@.len() == 17 && "description"@.len() == 11);
    assert("manga_identifier"@.len() == 16 && "page_urls"@.len() == 9);
    assert("page"@.len() == 4 && "total_page"@.len() == 10 && "data"@.len() == 4);
    assert("page"@[0] != "data"@[0]);
    assert("status"@[0] != "number"@[0]);
}

impl Wire for MangaListEntry {
    open spec fn encoding(v: MangaListEntryView) -> JsonValue {
        JsonValue::Object(
            no_members().insert("identifier"@, JsonValue::Text(v.identifier)).insert(
                "title"@,
                JsonValue::Text(v.title),
            ).insert("status"@, PublicationStatus::encoding(v.status)),
        )
    }

    open spec fn decoding(j: JsonValue) -> Option<MangaListEntryView> {
        match (text_member(j, "identifier"@), text_member(j, "title"@), member(j, "status"@)) {
            (Some(identifier), Some(title), Some(s)) => match PublicationStatus::decoding(s) {
                Some(status) => Some(MangaListEntryView { identifier, title, status }),
                None => None,
            },
            _ => None,
        }
    }

    proof fn lemma_round_trip(v: MangaListEntryView) {
        lemma_catalog_names_differ();
        PublicationStatus::lemma_round_trip(v.status);
    }

    fn to_value(&self) -> (r: serde_json::Value) {
        let mut m = serde_json::Map::new();
        m.insert("identifier".to_owned(), text_value(self.identifier.as_str()));
        m.insert("title".to_owned(), text_value(self.title.as_str()));
        m.insert("status".to_owned(), self.status.to_value());
        object_value(m)
    }

    fn from_value(v: &serde_json::Value) -> (r: Option<Self>) {
        let identifier = match read_text(v, "identifier") {
            Some(x) => x,
            None => { return None; },
        };
        let title = match read_text(v, "title") {
            Some(x) => x,
            None => { return None; },
        };
        let status: PublicationStatus = match read_member(v, "status") {
            Some(x) => x,
            None => { return None; },
        };
        Some(MangaListEntry { identifier, title, status })
    }
}

impl Wire for ChapterListEntry {
    open spec fn encoding(v: ChapterListEntryView) -> JsonValue {
        JsonValue::Object(
            no_members().insert("identifier"@, JsonValue::Text(v.identifier)).insert(
                "title"@,
                JsonValue::Text(v.title),
            ).insert("number"@, JsonValue::Text(v.number)),
        )
    }

    open spec fn decoding(j: JsonValue) -> Option<ChapterListEntryView> {
        match (text_member(j, "identifier"@), text_member(j, "title"@), text_member(j, "number"@)) {
            (Some(identifier), Some(title), Some(number)) => Some(
                ChapterListEntryView { identifier, title, number },
            ),
            _ => None,
        }
    }

    proof fn lemma_round_trip(v: ChapterListEntryView) {
        lemma_catalog_names_differ();
    }

    fn to_value(&self) -> (r: serde_json::Value) {
        let mut m = serde_json::Map::new();
        m.insert("identifier".to_owned(), text_value(self.identifier.as_str()));
        m.insert("title".to_owned(), text_value(self.title.as_str()));
        m.insert("number".to_owned(), text_value(self.number.as_str()));
        object_value(m)
    }

    fn from_value(v: &serde_json::Value) -> (r: Option<Self>) {
        let identifier = match read_text(v, "identifier") {
            Some(x) => x,
            None => { return None; },
        };
        let title = match read_text(v, "title") {
            Some(x) => x,
            None => { return None; },
        };
        let number = match read_text(v, "number") {
            Some(x) => x,
            None => { return None; },
        };
        Some(ChapterListEntry { identifier, title, number })
    }
}

/// The document of one page of a list: its number, the number of pages, and
/// its items as `data`.
pub open spec fn page_encoding(page: u32, total_page: u32, data: JsonValue) -> JsonValue {
    JsonValue::Object(
        no_members().insert("page"@, JsonValue::Uint(page as u64)).insert(
            "total_page"@,
            JsonValue::Uint(total_page as u64),
        ).insert("data"@, data),
    )
}

impl Wire for MangaList {
    open spec fn encoding(v: MangaListView) -> JsonValue {
        page_encoding(v.page, v.total_page, list_encoding::<MangaListEntry>(v.data))
    }

    open spec fn decoding(j: JsonValue) -> Option<MangaListView> {
        match (
            u32_member(j, "page"@),
            u32_member(j, "total_page"@),
            list_member::<MangaListEntry>(j, "data"@),
        ) {
            (Some(page), Some(total_page), Some(data)) => Some(
                MangaListView { page, total_page, data },
            ),
            _ => None,
        }
    }

    proof fn lemma_round_trip(v: MangaListView) {
        lemma_catalog_names_differ();
        lemma_list_round_trip::<MangaListEntry>(v.data);
    }

    fn to_value(&self) -> (r: serde_json::Value) {
        let mut m = serde_json::Map::new();
        m.insert("page".to_owned(), uint_value(self.page as u64));
        m.insert("total_page".to_owned(), uint_value(self.total_page as u64));
        m.insert("data".to_owned(), list_to_value(&self.data));
        object_value(m)
    }

    fn from_value(v: &serde_json::Value) -> (r: Option<Self>) {
        let page = match read_u32(v, "page") {
            Some(x) => x,
            None => { return None; },
        };
        let total_page = match read_u32(v, "total_page") {
            Some(x) => x,
            None => { return None; },
        };
        let data: Vec<MangaListEntry> = match read_list(v, "data") {
            Some(x) => x,
            None => { return None; },
        };
        Some(MangaList { page, total_page, data })
    }
}

impl Wire for ChapterList {
    open spec fn encoding(v: ChapterListView) -> JsonValue {
        page_encoding(v.page, v.total_page, list_encoding::<ChapterListEntry>(v.data))
    }

    open spec fn decoding(j: JsonValue) -> Option<ChapterListView> {
        match (
            u32_member(j, "page"@),
            u32_member(j, "total_page"@),
            list_member::<ChapterListEntry>(j, "data"@),
        ) {
            (Some(page), Some(total_page), Some(data)) => Some(
                ChapterListView { page, total_page, data },
            ),
            _ => None,
        }
    }

    proof fn lemma_round_trip(v: ChapterListView) {
        lemma_catalog_names_differ();
        lemma_list_round_trip::<ChapterListEntry>(v.data);
    }

    fn to_value(&self) -> (r: serde_json::Value) {
        let mut m = serde_json::Map::new();
        m.insert("page".to_owned(), uint_value(self.page as u64));
        m.insert("total_page".to_owned(), uint_value(self.total_page as u64));
        m.insert("data".to_owned(), list_to_value(&self.data));
        object_value(m)
    }

    fn from_value(v: &serde_json::Value) -> (r: Option<Self>) {
        let page = match read_u32(v, "page") {
            Some(x) => x,
            None => { return None; },
        };
        let total_page = match read_u32(v, "total_page") {
            Some(x) => x,
            None => { return None; },
        };
        let data: Vec<ChapterListEntry> = match read_list(v, "data") {
            Some(x) => x,
            None => { return None; },
        };
        Some(ChapterList { page, total_page, data })
    }
}

impl Wire for Manga {
    open spec fn encoding(v: MangaView) -> JsonValue {
        JsonValue::Object(
            no_members().insert("identifier"@, JsonValue::Text(v.identifier)).insert(
                "title"@,
                JsonValue::Text(v.title),
            ).insert("authors"@, list_encoding::<Author>(v.authors)).insert(
                "original_language"@,
                JsonValue::Text(v.original_language),
            ).insert("language"@, JsonValue::Text(v.language)).insert(
                "description"@,
                JsonValue::Text(v.description),
            ).insert("status"@, PublicationStatus::encoding(v.status)),
        )
    }

    open spec fn decoding(j: JsonValue) -> Option<MangaView> {
        match (
            text_member(j, "identifier"@),
            text_member(j, "title"@),
            list_member::<Author>(j, "authors"@),
            text_member(j, "original_language"@),
        ) {
            (Some(identifier), Some(title), Some(authors), Some(original_language)) => match (
                text_member(j, "language"@),
                text_member(j, "description"@),
                member(j, "status"@),
            ) {
                (Some(language), Some(description), Some(s)) => match PublicationStatus::decoding(
                    s,
                ) {
                    Some(status) => Some(
                        MangaView {
                            identifier,
                            title,
                            authors,
                            original_language,
                            language,
                            description,
                            status,
                        },
                    ),
                    None => None,
                },
                _ => None,
            },
            _ => None,
        }
    }

    proof fn lemma_round_trip(v: MangaView) {
        lemma_catalog_names_differ();
        lemma_list_round_trip::<Author>(v.authors);
        PublicationStatus::lemma_round_trip(v.status);
    }

    fn to_value(&self) -> (r: serde_json::Value) {
        let mut m = serde_json::Map::new();
        m.insert("identifier".to_owned(), text_value(self.identifier.as_str()));
        m.insert("title".to_owned(), text_value(self.title.as_str()));
        m.insert("authors".to_owned(), list_to_value(&self.authors));
        m.insert("original_language".to_owned(), text_value(self.original_language.as_str()));
        m.insert("language".to_owned(), text_value(self.language.as_str()));
        m.insert("description".to_owned(), text_value(self.description.as_str()));
        m.insert("status".to_owned(), self.status.to_value());
        object_value(m)
    }

    fn from_value(v: &serde_json::Value) -> (r: Option<Self>) {
        let identifier = match read_text(v, "identifier") {
            Some(x) => x,
            None => { return None; },
        };
        let title = match read_text(v, "title") {
            Some(x) => x,
            None => { return None; },
        };
        let authors: Vec<Author> = match read_list(v, "authors") {
            Some(x) => x,
            None => { return None; },
        };
        let original_language = match read_text(v, "original_language") {
            Some(x) => x,
            None => { return None; },
        };
        let language = match read_text(v, "language") {
            Some(x) => x,
            None => { return None; },
        };
        let description = match read_text(v, "description") {
            Some(x) => x,
            None => { return None; },
        };
        let status: PublicationStatus = match read_member(v, "status") {
            Some(x) => x,
            None => { return None; },
        };
        Some(
            Manga { identifier, title, authors, original_language, language, description, status },
        )
    }
}

impl Wire for Chapter {
    open spec fn encoding(v: ChapterView) -> JsonValue {
        JsonValue::Object(
            no_members().insert("identifier"@, JsonValue::Text(v.identifier)).insert(
                "manga_identifier"@,
                JsonValue::Text(v.manga_identifier),
            ).insert("title"@, JsonValue::Text(v.title)).insert(
                "number"@,
                JsonValue::Text(v.number),
            ).insert("language"@, JsonValue::Text(v.language)).insert(
                "page_urls"@,
                list_encoding::<String>(v.page_urls),
            ),
        )
    }

    open spec fn decoding(j: JsonValue) -> Option<ChapterView> {
        match (
            text_member(j, "identifier"@),
            text_member(j, "manga_identifier"@),
            text_member(j, "title"@),
        ) {
            (Some(identifier), Some(manga_identifier), Some(title)) => match (
                text_member(j, "number"@),
                text_member(j, "language"@),
                list_member::<String>(j, "page_urls"@),
            ) {
                (Some(number), Some(language), Some(page_urls)) => Some(
                    ChapterView { identifier, manga_identifier, title, number, language, page_urls },
                ),
                _ => None,
            },
            _ => None,
        }
    }

    proof fn lemma_round_trip(v: ChapterView) {
        lemma_catalog_names_differ();
        lemma_list_round_trip::<String>(v.page_urls);
    }

    fn to_value(&self) -> (r: serde_json::Value) {
        let mut m = serde_json::Map::new();
        m.insert("identifier".to_owned(), text_value(self.identifier.as_str()));
        m.insert("manga_identifier".to_owned(), text_value(self.manga_identifier.as_str()));
        m.insert("title".to_owned(), text_value(self.title.as_str()));
        m.insert("number".to_owned(), text_value(self.number.as_str()));
        m.insert("language".to_owned(), text_value(self.language.as_str()));
        m.insert("page_urls".to_owned(), list_to_value(&self.page_urls));
        object_value(m)
    }

    fn from_value(v: &serde_json::Value) -> (r: Option<Self>) {
        let identifier = match read_text(v, "identifier") {
            Some(x) => x,
            None => { return None; },
        };
        let manga_identifier = match read_text(v, "manga_identifier") {
            Some(x) => x,
            None => { return None; },
        };
        let title = match read_text(v, "title") {
            Some(x) => x,
            None => { return None; },
        };
        let number = match read_text(v, "number") {
            Some(x) => x,
            None => { return None; },
        };
        let language = match read_text(v, "language") {
            Some(x) => x,
            None => { return None; },
        };
        let page_urls: Vec<String> = match read_list(v, "page_urls") {
            Some(x) => x,
            None => { return None; },
        };
        Some(Chapter { identifier, manga_identifier, title, number, language, page_urls })
    }
}

/// Content of a response that carries none: written as `null`, and read from
/// `null` alone.
impl Wire for () {
    open spec fn encoding(v: ()) -> JsonValue {
        JsonValue::Null
    }

    open spec fn decoding(j: JsonValue) -> Option<()> {
        match j {
            JsonValue::Null => Some(()),
            _ => None,
        }
    }

    proof fn lemma_round_trip(v: ()) {
    }

    fn to_value(&self) -> (r: serde_json::Value) {
        null_value()
    }

    fn from_value(v: &serde_json::Value) -> (r: Option<Self>) {
        if v.is_null() {
            Some(())
        } else {
            None
        }
    }
}

/// The keys of a response differ from each other.
pub proof fn lemma_response_names_differ()
    ensures
        "status"@ != "reason"@,
        "status"@ != "source_name"@,
        "status"@ != "content"@,
        "reason"@ != "source_name"@,
        "reason"@ != "content"@,
        "source_name"@ != "content"@,
{
    reveal_strlit("status");
    reveal_strlit("reason");
    reveal_strlit("source_name");
    reveal_strlit("content");
    assert("status"@.len() == 6 && "reason"@.len() == 6 && "status"@[0] != "reason"@[0]);
    assert("source_name"@.len() == 11 && "content"@.len() == 7);
}

/// The document that stands for content `c`: `null` where there is none.
pub open spec fn content_encoding<T: Wire>(c: Option<T::V>) -> JsonValue {
    match c {
        Some(x) => T::encoding(x),
        None => JsonValue::Null,
    }
}

/// The content that the member `m` of a response stands for: none where the
/// member is missing or `null`, a value where the member stands for one.
/// The outer `None` says that the member stands for nothing of type `T`.
pub open spec fn content_decoding<T: Wire>(m: Option<JsonValue>) -> Option<Option<T::V>> {
    match m {
        None => Some(None),
        Some(JsonValue::Null) => Some(None),
        Some(j) => match T::decoding(j) {
            Some(x) => Some(Some(x)),
            None => None,
        },
    }
}

/// The document that stands for a response.
pub open spec fn response_encoding<T: Wire>(v: ResponseView<T::V>) -> JsonValue {
    JsonValue::Object(
        no_members().insert("status"@, Status::encoding(v.status)).insert(
            "reason"@,
            JsonValue::Text(v.reason),
        ).insert("source_name"@, JsonValue::Text(v.source_name)).insert(
            "content"@,
            content_encoding::<T>(v.content),
        ),
    )
}

/// The response that the document `j` stands for, if it stands for one.
pub open spec fn response_decoding<T: Wire>(j: JsonValue) -> Option<ResponseView<T::V>> {
    match (member(j, "status"@), text_member(j, "reason"@), text_member(j, "source_name"@)) {
        (Some(s), Some(reason), Some(source_name)) => match (
            Status::decoding(s),
            content_decoding::<T>(member(j, "content"@)),
        ) {
            (Some(status), Some(content)) => Some(
                ResponseView { status, reason, source_name, content },
            ),
            _ => None,
        },
        _ => None,
    }
}

/// Reading back a response that was written gives the response, provided
/// that its content, if it has any, is not written as `null`.
pub proof fn lemma_response_round_trip<T: Wire>(v: ResponseView<T::V>)
    requires
        v.content matches Some(c) ==> !(T::encoding(c) is Null),
    ensures
        response_decoding::<T>(response_encoding::<T>(v)) == Some(v),
{
    lemma_response_names_differ();
    Status::lemma_round_trip(v.status);
    match v.content {
        Some(c) => {
            T::lemma_round_trip(c);
        },
        None => {},
    }
}

/// Writes a response as a document.
pub fn response_to_value<T: Wire>(response: &Response<T>) -> (r: serde_json::Value)
    ensures
        value_model(r) == response_encoding::<T>(response@),
{
    let mut m = serde_json::Map::new();
    m.insert("status".to_owned(), response.status.to_value());
    m.insert("reason".to_owned(), text_value(response.reason.as_str()));
    m.insert("source_name".to_owned(), text_value(response.source_name.as_str()));
    let content = match &response.content {
        Some(c) => c.to_value(),
        None => null_value(),
    };
    m.insert("content".to_owned(), content);
    object_value(m)
}

/// Reads a response from a document; `None` exactly when the document stands
/// for no response with content of type `T`.
pub fn response_from_value<T: Wire>(v: &serde_json::Value) -> (r: Option<Response<T>>)
    ensures
        match r {
            Some(x) => response_decoding::<T>(value_model(*v)) == Some(x@),
            None => response_decoding::<T>(value_model(*v)) is None,
        },
{
    let status: Status = match read_member(v, "status") {
        Some(x) => x,
        None => { return None; },
    };
    let reason = match read_text(v, "reason") {
        Some(x) => x,
        None => { return None; },
    };
    let source_name = match read_text(v, "source_name") {
        Some(x) => x,
        None => { return None; },
    };
    let content: Option<T> = match get_member(v, "content") {
        None => None,
        Some(found) => if found.is_null() {
            None
        } else {
            match T::from_value(found) {
                Some(x) => Some(x),
                None => { return None; },
            }
        },
    };
    Some(Response { status, reason, source_name, content })
}

/// The payload that stands for a value with model `v`: the text that
/// `serde_json` writes for its document, if it writes one.
pub open spec fn payload_of<T: Wire>(v: T::V) -> Option<Seq<u8>> {
    printed_value(T::encoding(v))
}

/// What reading the payload `text` as a value of type `T` gives.
pub open spec fn value_of_payload<T: Wire>(text: Seq<u8>) -> Result<T::V, ProtocolError> {
    match parsed_text(text) {
        None => Err(ProtocolError::Malformed),
        Some(j) => match T::decoding(j) {
            Some(v) => Ok(v),
            None => Err(ProtocolError::UnexpectedShape),
        },
    }
}

/// What reading the payload `text` as a response with content of type `T`
/// gives.
pub open spec fn response_of_payload<T: Wire>(text: Seq<u8>) -> Result<
    ResponseView<T::V>,
    ProtocolError,
> {
    match parsed_text(text) {
        None => Err(ProtocolError::Malformed),
        Some(j) => match response_decoding::<T>(j) {
            Some(v) => Ok(v),
            None => Err(ProtocolError::UnexpectedShape),
        },
    }
}

/// Writes a document as a payload.
fn print_document(v: &serde_json::Value) -> (r: Result<Vec<u8>, ProtocolError>)
    ensures
        match printed_value(value_model(*v)) {
            Some(text) => r is Ok && r->Ok_0@ == text,
            None => r == Err::<Vec<u8>, ProtocolError>(ProtocolError::Unprintable),
        },
{
    match print_value(v) {
        Ok(text) => Ok(text),
        Err(_) => Err(ProtocolError::Unprintable),
    }
}

/// Writes a request as the payload of a frame.
pub fn encode_request(request: &Request) -> (r: Result<Vec<u8>, ProtocolError>)
    ensures
        match payload_of::<Request>(request@) {
            Some(text) => r is Ok && r->Ok_0@ == text,
            None => r == Err::<Vec<u8>, ProtocolError>(ProtocolError::Unprintable),
        },
{
    let v = request.to_value();
    print_document(&v)
}

/// Reads a request from the payload of a frame: `Malformed` where the payload
/// is not JSON, `UnexpectedShape` where it is JSON that stands for no request.
pub fn decode_request(text: &[u8]) -> (r: Result<Request, ProtocolError>)
    ensures
        match value_of_payload::<Request>(text@) {
            Ok(v) => r is Ok && r->Ok_0@ == v,
            Err(e) => r is Err && r->Err_0 == e,
        },
{
    match parse_text(text) {
        Ok(v) => match Request::from_value(&v) {
            Some(request) => Ok(request),
            None => Err(ProtocolError::UnexpectedShape),
        },
        Err(_) => Err(ProtocolError::Malformed),
    }
}

/// Writes a response as the payload of a frame.
pub fn encode_response<T: Wire>(response: &Response<T>) -> (r: Result<Vec<u8>, ProtocolError>)
    ensures
        match printed_value(response_encoding::<T>(response@)) {
            Some(text) => r is Ok && r->Ok_0@ == text,
            None => r == Err::<Vec<u8>, ProtocolError>(ProtocolError::Unprintable),
        },
{
    let v = response_to_value(response);
    print_document(&v)
}

/// Reads a response from the payload of a frame: `Malformed` where the payload
/// is not JSON, `UnexpectedShape` where it is JSON that stands for no response
/// with content of type `T`.
pub fn decode_response<T: Wire>(text: &[u8]) -> (r: Result<Response<T>, ProtocolError>)
    ensures
        match response_of_payload::<T>(text@) {
            Ok(v) => r is Ok && r->Ok_0@ == v,
            Err(e) => r is Err && r->Err_0 == e,
        },
{
    match parse_text(text) {
        Ok(v) => match response_from_value::<T>(&v) {
            Some(response) => Ok(response),
            None => Err(ProtocolError::UnexpectedShape),
        },
        Err(_) => Err(ProtocolError::Malformed),
    }
}

/// What is wrong with a response to a command that bears data
/// (`data_bearing`) or does not, if anything is: content that is missing
/// from a success, or content where none belongs.
pub open spec fn flaw_of<V>(v: ResponseView<V>, data_bearing: bool) -> Option<ProtocolError> {
    match v.status {
        Status::Okay => if data_bearing && v.content is None {
            Some(ProtocolError::MissingContent)
        } else if !data_bearing && v.content is Some {
            Some(ProtocolError::UnexpectedContent)
        } else {
            None
        },
        Status::Error => if v.content is Some {
            Some(ProtocolError::UnexpectedContent)
        } else {
            None
        },
    }
}

/// A response has no flaw exactly when it keeps the rule on status and
/// content.
pub proof fn lemma_flawless_is_well_formed<V>(v: ResponseView<V>, data_bearing: bool)
    ensures
        flaw_of(v, data_bearing) is None <==> v.well_formed(data_bearing),
{
}

/// Holds a response to the rule on status and content: the response itself
/// where it keeps the rule, and what is wrong with it where it does not.
pub fn validate<T: View>(response: Response<T>, data_bearing: bool) -> (r: Result<
    Response<T>,
    ProtocolError,
>)
    ensures
        match flaw_of(response@, data_bearing) {
            None => r == Ok::<Response<T>, ProtocolError>(response),
            Some(flaw) => r == Err::<Response<T>, ProtocolError>(flaw),
        },
{
    let has_content = response.content.is_some();
    match response.status {
        Status::Okay => if data_bearing && !has_content {
            Err(ProtocolError::MissingContent)
        } else if !data_bearing && has_content {
            Err(ProtocolError::UnexpectedContent)
        } else {
            Ok(response)
        },
        Status::Error => if has_content {
            Err(ProtocolError::UnexpectedContent)
        } else {
            Ok(response)
        },
    }
}

/// Whenever `serde_json` reads back the document that it has written,
/// reading the payload of a value gives the value: for every type that
/// travels, and so for a request with any command.
pub proof fn lemma_payload_round_trip<T: Wire>(v: T::V, text: Seq<u8>)
    ensures
        payload_of::<T>(v) == Some(text) && parsed_text(text) == Some(T::encoding(v))
            ==> value_of_payload::<T>(text) == Ok::<T::V, ProtocolError>(v),
{
    T::lemma_round_trip(v);
}

/// Whenever `serde_json` reads back the document that it has written,
/// reading the payload of a response gives the response, provided that its
/// content, if it has any, is not written as `null`.
pub proof fn lemma_response_payload_round_trip<T: Wire>(v: ResponseView<T::V>, text: Seq<u8>)
    requires
        v.content matches Some(c) ==> !(T::encoding(c) is Null),
    ensures
        printed_value(response_encoding::<T>(v)) == Some(text) && parsed_text(text) == Some(
            response_encoding::<T>(v),
        ) ==> response_of_payload::<T>(text) == Ok::<ResponseView<T::V>, ProtocolError>(v),
{
    lemma_response_round_trip::<T>(v);
}

} // verus!
