//! The query that lists the chapters of a title.

use vstd::prelude::*;
use crate::mangadex::enums::{ContentRating, RelationshipType};
use crate::mangadex::query::{Order, Uuid};

verus! {

/// Direction of every sort key of a chapter list.
#[derive(Clone, Copy, Debug, PartialEq, Eq, Structural)]
pub struct SortingOrder {
    pub created_at: Order,
    pub updated_at: Order,
    pub publish_at: Order,
    pub readable_at: Order,
    pub volume: Order,
    pub chapter: Order,
}

impl SortingOrder {
    /// The sorting in which every key goes in direction `order`.
    pub open spec fn uniform(order: Order) -> SortingOrder {
        SortingOrder {
            created_at: order,
            updated_at: order,
            publish_at: order,
            readable_at: order,
            volume: order,
            chapter: order,
        }
    }

    /// Every key ascending.
    pub fn ascending() -> (r: Self)
        ensures
            r == Self::uniform(Order::Ascending),
    {
        SortingOrder {
            created_at: Order::Ascending,
            updated_at: Order::Ascending,
            publish_at: Order::Ascending,
            readable_at: Order::Ascending,
            volume: Order::Ascending,
            chapter: Order::Ascending,
        }
    }

    /// Every key descending.
    pub fn descending() -> (r: Self)
        ensures
            r == Self::uniform(Order::Descending),
    {
        SortingOrder {
            created_at: Order::Descending,
            updated_at: Order::Descending,
            publish_at: Order::Descending,
            readable_at: Order::Descending,
            volume: Order::Descending,
            chapter: Order::Descending,
        }
    }

    /// The sorting that the protocol's sort order asks for: every key in that
    /// direction.
    pub fn from_order(order: crate::dto::Order) -> (r: Self)
        ensures
            r == Self::uniform(Order::of_dto(order)),
    {
        match order {
            crate::dto::Order::Ascending => Self::ascending(),
            crate::dto::Order::Descending => Self::descending(),
        }
    }
}

/// A request for the chapters of one title.
#[derive(Debug, PartialEq, Eq)]
pub struct ChapterQuery {
    pub limit: u32,
    pub offset: u32,
    pub translated_language: Option<Vec<String>>,
    pub original_language: Option<Vec<String>>,
    pub exclude_original_language: Option<Vec<String>>,
    pub content_rating: Option<Vec<ContentRating>>,
    pub excluded_groups: Option<Vec<Uuid>>,
    pub excluded_uploaders: Option<Vec<Uuid>>,
    pub include_future_updates: bool,
    pub created_at_since: Option<String>,
    pub updated_at_since: Option<String>,
    pub publish_at_since: Option<String>,
    pub order: SortingOrder,
    pub includes: Option<Vec<RelationshipType>>,
    pub include_empty_pages: bool,
    pub include_future_publish_at: bool,
    pub include_external_url: bool,
}

impl ChapterQuery {
    /// Whether every field but `limit` and `offset` holds what a fresh query
    /// holds: chapters in English, future updates included,
    /// every sort key ascending, each chapter with its title, group and
    /// uploader, and without empty, unpublished or externally hosted
    /// chapters.
    pub open spec fn has_defaults(self) -> bool {
        &&& self.translated_language matches Some(languages)
        &&& languages@.len() == 1
        &&& languages@[0]@ == "en"@
        &&& self.original_language is None
        &&& self.exclude_original_language is None
        &&& self.content_rating is None
        &&& self.excluded_groups is None
        &&& self.excluded_uploaders is None
        &&& self.include_future_updates
        &&& self.created_at_since is None
        &&& self.updated_at_since is None
        &&& self.publish_at_since is None
        &&& self.order == SortingOrder::uniform(Order::Ascending)
        &&& self.includes matches Some(kinds)
        &&& kinds@ == seq![
            RelationshipType::Manga,
            RelationshipType::ScanlationGroup,
            RelationshipType::User,
        ]
        &&& !self.include_empty_pages
        &&& !self.include_future_publish_at
        &&& !self.include_external_url
    }

    /// A fresh query for at most `limit` chapters from number `offset` on.
    pub fn new(limit: u32, offset: u32) -> (r: Self)
        ensures
            r.has_defaults(),
            r.limit == limit,
            r.offset == offset,
    {
        let mut q = ChapterQuery::default();
        q.limit = limit;
        q.offset = offset;
        q
    }

    /// The same query, for at most `limit` chapters.
    pub fn set_limit(self, limit: u32) -> (r: Self)
        ensures
            r == (ChapterQuery { limit, ..self }),
    {
        let mut q = self;
        q.limit = limit;
        q
    }

    /// The same query, starting at chapter number `offset`.
    pub fn set_offset(self, offset: u32) -> (r: Self)
        ensures
            r == (ChapterQuery { offset, ..self }),
    {
        let mut q = self;
        q.offset = offset;
        q
    }

    /// The same query, sorted by `order`.
    pub fn set_order(self, order: SortingOrder) -> (r: Self)
        ensures
            r == (ChapterQuery { order, ..self }),
    {
        let mut q = self;
        q.order = order;
        q
    }
}

impl Default for ChapterQuery {
    /// A fresh query for the first 100 chapters.
    fn default() -> (r: Self)
        ensures
            r.has_defaults(),
            r.limit == 100,
            r.offset == 0,
    {
        let mut languages: Vec<String> = Vec::new();
        languages.push("en".to_owned());
        let mut kinds: Vec<RelationshipType> = Vec::new();
        kinds.push(RelationshipType::Manga);
        kinds.push(RelationshipType::ScanlationGroup);
        kinds.push(RelationshipType::User);
        assert(kinds@ =~= seq![
            RelationshipType::Manga,
            RelationshipType::ScanlationGroup,
            RelationshipType::User,
        ]);
        ChapterQuery {
            limit: 100,
            offset: 0,
            translated_language: Some(languages),
            original_language: None,
            exclude_original_language: None,
            content_rating: None,
            excluded_groups: None,
            excluded_uploaders: None,
            include_future_updates: true,
            created_at_since: None,
            updated_at_since: None,
            publish_at_since: None,
            order: SortingOrder::ascending(),
            includes: Some(kinds),
            include_empty_pages: false,
            include_future_publish_at: false,
            include_external_url: false,
        }
    }
}

} // verus!
