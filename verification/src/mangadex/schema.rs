//! Shapes of the answers of the MangaDex API.

use vstd::prelude::*;
use crate::mangadex::enums::{
    ContentRating, Demographic, MangaRelationshipType, PublicationStatus, RelationshipType,
    State, TagGroup,
};
use crate::mangadex::query::Uuid;
use crate::text::same_text;

verus! {

/// Texts by language code.
///
/// The API sends them as an object, in which a language stands once. A value
/// made by [`LocalizedString::from_document`] keeps that: it is well formed
/// ([`LocalizedString::wf`]), and holds for each language the text that a
/// map filled from the document holds. The entries are public, so a value
/// can also be written down with a language twice; looking up such a
/// language gives the text of its first entry.
#[derive(Clone, Debug, PartialEq, Eq)]
pub struct LocalizedString {
    pub entries: Vec<(String, String)>,
}

/// The text that `entries` holds for `language`: that of the first entry with
/// this language code.
pub open spec fn text_for(entries: Seq<(String, String)>, language: Seq<char>) -> Option<
    Seq<char>,
>
    decreases entries.len(),
{
    if entries.len() == 0 {
        None
    } else if entries[0].0@ == language {
        Some(entries[0].1@)
    } else {
        text_for(entries.drop_first(), language)
    }
}

/// The text that a map holds for `language` after the pairs `pairs` of a
/// document were put into it one after the other: that of the last pair with
/// this language code.
pub open spec fn last_text_for(pairs: Seq<(String, String)>, language: Seq<char>) -> Option<
    Seq<char>,
>
    decreases pairs.len(),
{
    if pairs.len() == 0 {
        None
    } else if pairs.last().0@ == language {
        Some(pairs.last().1@)
    } else {
        last_text_for(pairs.drop_last(), language)
    }
}

/// Whether no language stands twice among `entries`.
pub open spec fn languages_once(entries: Seq<(String, String)>) -> bool {
    forall|i: int, j: int|
        0 <= i < j < entries.len() ==> (#[trigger] entries[i]).0@ != (#[trigger] entries[j]).0@
}

/// There is no text for a language exactly when no entry has it.
pub proof fn lemma_text_for_none(entries: Seq<(String, String)>, language: Seq<char>)
    ensures
        text_for(entries, language) is None <==> forall|i: int|
            0 <= i < entries.len() ==> (#[trigger] entries[i]).0@ != language,
    decreases entries.len(),
{
    if entries.len() > 0 {
        let rest = entries.drop_first();
        lemma_text_for_none(rest, language);
        if entries[0].0@ != language {
            if text_for(entries, language) is None {
                assert forall|i: int| 0 <= i < entries.len() implies (#[trigger] entries[i]).0@
                    != language by {
                    if i > 0 {
                        assert(rest[i - 1] == entries[i]);
                    }
                }
            } else {
                let i = choose|i: int| 0 <= i < rest.len() && (#[trigger] rest[i]).0@ == language;
                assert(entries[i + 1] == rest[i]);
            }
        }
    }
}

/// Where each language stands once, the text for a language is that of the
/// one entry that has it: it does not matter from which end one looks.
pub proof fn lemma_only_entry(entries: Seq<(String, String)>, j: int, language: Seq<char>)
    requires
        languages_once(entries),
        0 <= j < entries.len(),
        entries[j].0@ == language,
    ensures
        text_for(entries, language) == Some(entries[j].1@),
    decreases j,
{
    if j > 0 {
        let rest = entries.drop_first();
        assert(entries[0].0@ != entries[j].0@);
        assert forall|a: int, b: int| 0 <= a < b < rest.len() implies (#[trigger] rest[a]).0@ != (
        #[trigger] rest[b]).0@ by {
            assert(rest[a] == entries[a + 1] && rest[b] == entries[b + 1]);
        }
        assert(rest[j - 1] == entries[j]);
        lemma_only_entry(rest, j - 1, language);
    }
}

/// The text for a language after one more entry: what it was, and where
/// there was none, that of the new entry if it has the language.
proof fn lemma_text_for_push(
    entries: Seq<(String, String)>,
    entry: (String, String),
    language: Seq<char>,
)
    ensures
        text_for(entries.push(entry), language) == match text_for(entries, language) {
            Some(t) => Some(t),
            None => if entry.0@ == language {
                Some(entry.1@)
            } else {
                None
            },
        },
    decreases entries.len(),
{
    let longer = entries.push(entry);
    if entries.len() == 0 {
        assert(longer[0] == entry);
        assert(longer.drop_first() =~= Seq::<(String, String)>::empty());
        assert(text_for(longer.drop_first(), language) is None);
    } else {
        assert(longer[0] == entries[0]);
        assert(longer.drop_first() =~= entries.drop_first().push(entry));
        lemma_text_for_push(entries.drop_first(), entry, language);
    }
}

/// The text for a language after the first entry of a language was replaced
/// by another entry of that language: the new text for that language, and
/// what it was for every other.
proof fn lemma_text_for_update(
    entries: Seq<(String, String)>,
    j: int,
    entry: (String, String),
    language: Seq<char>,
)
    requires
        0 <= j < entries.len(),
        entry.0@ == entries[j].0@,
        forall|i: int| 0 <= i < j ==> (#[trigger] entries[i]).0@ != entry.0@,
    ensures
        text_for(entries.update(j, entry), language) == if language == entry.0@ {
            Some(entry.1@)
        } else {
            text_for(entries, language)
        },
    decreases j,
{
    let changed = entries.update(j, entry);
    if j == 0 {
        assert(changed[0] == entry);
        assert(changed.drop_first() =~= entries.drop_first());
    } else {
        let rest = entries.drop_first();
        assert(changed[0] == entries[0]);
        assert(changed.drop_first() =~= rest.update(j - 1, entry));
        assert(entries[0].0@ != entry.0@);
        assert(rest[j - 1] == entries[j]);
        assert forall|i: int| 0 <= i < j - 1 implies (#[trigger] rest[i]).0@ != entry.0@ by {
            assert(rest[i] == entries[i + 1]);
        }
        lemma_text_for_update(rest, j - 1, entry, language);
    }
}

/// The place of the first entry of `entries` with the language `language`,
/// if an entry has it.
pub fn position_of(entries: &Vec<(String, String)>, language: &str) -> (r: Option<usize>)
    ensures
        match r {
            Some(j) => j < entries@.len() && entries@[j as int].0@ == language@ && forall|i: int|
                0 <= i < j ==> (#[trigger] entries@[i]).0@ != language@,
            None => forall|i: int|
                0 <= i < entries@.len() ==> (#[trigger] entries@[i]).0@ != language@,
        },
{
    let mut j: usize = 0;
    while j < entries.len()
        invariant
            j <= entries@.len(),
            forall|i: int| 0 <= i < j ==> (#[trigger] entries@[i]).0@ != language@,
        decreases entries@.len() - j,
    {
        if same_text(entries[j].0.as_str(), language) {
            return Some(j);
        }
        j += 1;
    }
    None
}

impl LocalizedString {
    /// Whether each language stands once.
    pub open spec fn wf(&self) -> bool {
        languages_once(self.entries@)
    }

    /// The texts that the pairs of a document stand for, which may name a
    /// language more than once: each language stands once, in the place
    /// where the document names it first, with the text that the document
    /// gives it last, as a map filled from the document holds it.
    pub fn from_document(pairs: Vec<(String, String)>) -> (r: Self)
        ensures
            r.wf(),
            forall|language: Seq<char>| #[trigger]
                text_for(r.entries@, language) == last_text_for(pairs@, language),
            r.entries@.len() <= pairs@.len(),
            (r.entries@.len() == 0) == (pairs@.len() == 0),
            pairs@.len() > 0 ==> r.entries@[0].0@ == pairs@[0].0@,
    {
        let mut out: Vec<(String, String)> = Vec::new();
        let mut i: usize = 0;
        assert(pairs@.take(0) =~= Seq::<(String, String)>::empty());
        while i < pairs.len()
            invariant
                i <= pairs@.len(),
                languages_once(out@),
                forall|language: Seq<char>| #[trigger]
                    text_for(out@, language) == last_text_for(pairs@.take(i as int), language),
                out@.len() <= i,
                (out@.len() == 0) == (i == 0),
                i > 0 ==> out@[0].0@ == pairs@[0].0@,
            decreases pairs@.len() - i,
        {
            let language = pairs[i].0.clone();
            let text = pairs[i].1.clone();
            let ghost before = out@;
            let ghost head = pairs@.take(i as int);
            let ghost longer = pairs@.take(i + 1);
            let ghost entry = (language, text);
            proof {
                assert(longer.last() == pairs@[i as int]);
                assert(longer.drop_last() =~= head);
            }
            match position_of(&out, language.as_str()) {
                Some(j) => {
                    out.set(j, (language, text));
                    proof {
                        assert forall|wanted: Seq<char>| #[trigger]
                            text_for(out@, wanted) == last_text_for(longer, wanted) by {
                            lemma_text_for_update(before, j as int, entry, wanted);
                        }
                        assert forall|a: int, b: int| 0 <= a < b < out@.len() implies (
                        #[trigger] out@[a]).0@ != (#[trigger] out@[b]).0@ by {
                            assert(out@[a].0@ == before[a].0@ && out@[b].0@ == before[b].0@);
                        }
                    }
                },
                None => {
                    out.push((language, text));
                    proof {
                        lemma_text_for_none(before, entry.0@);
                        assert forall|wanted: Seq<char>| #[trigger]
                            text_for(out@, wanted) == last_text_for(longer, wanted) by {
                            lemma_text_for_push(before, entry, wanted);
                        }
                        assert forall|a: int, b: int| 0 <= a < b < out@.len() implies (
                        #[trigger] out@[a]).0@ != (#[trigger] out@[b]).0@ by {
                            if b < before.len() {
                                assert(out@[a] == before[a] && out@[b] == before[b]);
                            } else {
                                assert(out@[a] == before[a]);
                            }
                        }
                    }
                },
            }
            i += 1;
        }
        assert(pairs@.take(i as int) =~= pairs@);
        LocalizedString { entries: out }
    }

    /// The text for `language`, if there is one: that of the first entry with
    /// this language, which in a well-formed value is the only one.
    pub fn get(&self, language: &str) -> (r: Option<&String>)
        ensures
            match r {
                Some(text) => text_for(self.entries@, language@) == Some(text@),
                None => text_for(self.entries@, language@) is None,
            },
    {
        match position_of(&self.entries, language) {
            Some(j) => {
                proof {
                    lemma_first_entry(self.entries@, j as int, language@);
                }
                Some(&self.entries[j].1)
            },
            None => {
                proof {
                    lemma_text_for_none(self.entries@, language@);
                }
                None
            },
        }
    }

    /// The text that stands first, if there is any.
    pub fn first(&self) -> (r: Option<&String>)
        ensures
            self.entries@.len() == 0 ==> r is None,
            self.entries@.len() > 0 ==> r == Some(&self.entries@[0].1),
    {
        if self.entries.len() == 0 {
            None
        } else {
            Some(&self.entries[0].1)
        }
    }
}

/// The text for a language is that of the first entry that has it.
proof fn lemma_first_entry(entries: Seq<(String, String)>, j: int, language: Seq<char>)
    requires
        0 <= j < entries.len(),
        entries[j].0@ == language,
        forall|i: int| 0 <= i < j ==> (#[trigger] entries[i]).0@ != language,
    ensures
        text_for(entries, language) == Some(entries[j].1@),
    decreases j,
{
    if j > 0 {
        let rest = entries.drop_first();
        assert(entries[0].0@ != language);
        assert(rest[j - 1] == entries[j]);
        assert forall|i: int| 0 <= i < j - 1 implies (#[trigger] rest[i]).0@ != language by {
            assert(rest[i] == entries[i + 1]);
        }
        lemma_first_entry(rest, j - 1, language);
    }
}

/// What the API answers: what was asked for, or a report of errors.
#[derive(Clone, Debug, PartialEq, Eq)]
pub enum CustomResult<T> {
    Found(T),
    Failed(ErrorResponse),
}

/// The API's report of errors.
#[derive(Clone, Debug, PartialEq, Eq)]
pub struct ErrorResponse {
    pub result: String,
    pub errors: Vec<MDError>,
}

/// A list of titles, with the window of the whole result that it covers.
#[derive(Clone, Debug, PartialEq, Eq)]
pub struct MangaResponse {
    pub result: String,
    pub response: String,
    pub data: Vec<Manga>,
    pub limit: u32,
    pub offset: u32,
    pub total: u32,
}

/// A list of chapters, with the window of the whole result that it covers.
#[derive(Clone, Debug, PartialEq, Eq)]
pub struct ChapterResponse {
    pub result: String,
    pub response: String,
    pub data: Vec<Chapter>,
    pub limit: u32,
    pub offset: u32,
    pub total: u32,
}

/// Where the pages of a chapter are served from.
#[derive(Clone, Debug, PartialEq, Eq)]
pub struct PageResponse {
    pub result: String,
    pub base_url: String,
    pub chapter: ChapterPages,
}

/// One author.
#[derive(Clone, Debug, PartialEq, Eq)]
pub struct AuthorResponse {
    pub result: String,
    pub response: String,
    pub data: Author,
}

/// One error of an error report.
#[derive(Clone, Debug, PartialEq, Eq)]
pub struct MDError {
    pub id: String,
    pub status: u32,
    pub title: String,
    pub detail: Option<String>,
    pub context: Option<String>,
}

/// A pointer from one entity to another.
#[derive(Clone, Debug, PartialEq, Eq)]
pub struct Relationship {
    pub id: String,
    pub rel_type: RelationshipType,
    pub related: Option<MangaRelationshipType>,
}

/// A title.
#[derive(Clone, Debug, PartialEq, Eq)]
pub struct Manga {
    pub id: String,
    pub entity_type: String,
    pub attributes: MangaAttr,
    pub relationships: Option<Vec<Relationship>>,
}

/// What the API tells of a title.
#[derive(Clone, Debug, PartialEq, Eq)]
pub struct MangaAttr {
    pub title: LocalizedString,
    pub alt_titles: Option<Vec<LocalizedString>>,
    pub description: Option<LocalizedString>,
    pub is_locked: bool,
    pub links: Option<LocalizedString>,
    pub original_language: String,
    pub last_volume: Option<String>,
    pub last_chapter: Option<String>,
    pub publication_demographic: Option<Demographic>,
    pub status: PublicationStatus,
    pub year: Option<u32>,
    pub content_rating: ContentRating,
    pub state: State,
    pub chapter_numbers_reset_on_new_volume: bool,
    pub created_at: String,
    pub updated_at: String,
    pub version: u32,
    pub available_translated_languages: Option<Vec<String>>,
    pub latest_uploaded_chapter: Option<String>,
}

/// A tag.
#[derive(Clone, Debug, PartialEq, Eq)]
pub struct Tag {
    pub id: String,
    pub rel_type: RelationshipType,
    pub attributes: TagAttr,
    pub relationships: Option<Vec<Relationship>>,
}

/// What the API tells of a tag.
#[derive(Clone, Debug, PartialEq, Eq)]
pub struct TagAttr {
    pub name: LocalizedString,
    pub description: LocalizedString,
    pub group: TagGroup,
    pub version: u32,
}

/// A chapter.
#[derive(Clone, Debug, PartialEq, Eq)]
pub struct Chapter {
    pub id: String,
    pub rel_type: String,
    pub attributes: ChapterAttr,
    pub relationships: Option<Vec<Relationship>>,
}

/// What the API tells of a chapter.
#[derive(Clone, Debug, PartialEq, Eq)]
pub struct ChapterAttr {
    pub title: Option<String>,
    pub volume: Option<String>,
    pub chapter: Option<String>,
    pub pages: u32,
    pub translated_language: String,
    pub external_url: Option<String>,
    pub version: u32,
    pub created_at: String,
    pub updated_at: String,
    pub publish_at: String,
    pub readable_at: String,
}

/// The files of a chapter's pages, under the hash that names the chapter on
/// the page server.
#[derive(Clone, Debug, PartialEq, Eq)]
pub struct ChapterPages {
    pub hash: String,
    pub data: Vec<String>,
    pub data_saver: Vec<String>,
}

/// An author or artist.
#[derive(Clone, Debug, PartialEq, Eq)]
pub struct Author {
    pub id: Uuid,
    pub rel_type: RelationshipType,
    pub attributes: AuthorAttr,
    pub relationships: Option<Vec<Relationship>>,
}

/// What the API tells of an author.
#[derive(Clone, Debug, PartialEq, Eq)]
pub struct AuthorAttr {
    pub name: String,
    pub image_url: Option<String>,
    pub biography: Option<LocalizedString>,
    pub twitter: Option<String>,
    pub pixiv: Option<String>,
    pub melon_book: Option<String>,
    pub fan_box: Option<String>,
    pub booth: Option<String>,
    pub nico_video: Option<String>,
    pub skeb: Option<String>,
    pub fantia: Option<String>,
    pub tumblr: Option<String>,
    pub youtube: Option<String>,
    pub weibo: Option<String>,
    pub naver: Option<String>,
    pub namicomi: Option<String>,
    pub website: Option<String>,
    pub version: u32,
    pub created_at: String,
    pub updated_at: String,
}

} // verus!
