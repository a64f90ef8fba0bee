//! The query that searches titles.

use vstd::prelude::*;
use crate::mangadex::enums::{ContentRating, Demographic, PublicationStatus};
use crate::mangadex::query::{LogicMode, Order, Uuid};

verus! {

/// Direction of every sort key of a title search.
#[derive(Clone, Copy, Debug, PartialEq, Eq, Structural)]
pub struct SortingOrder {
    pub title: Order,
    pub year: Order,
    pub created_at: Order,
    pub updated_at: Order,
    pub latest_uploaded_chapter: Order,
    pub followed_count: Order,
    pub relevance: Order,
    pub rating: Order,
}

impl SortingOrder {
    /// The sorting in which every key goes in direction `order`.
    pub open spec fn uniform(order: Order) -> SortingOrder {
        SortingOrder {
            title: order,
            year: order,
            created_at: order,
            updated_at: order,
            latest_uploaded_chapter: order,
            followed_count: order,
            relevance: order,
            rating: order,
        }
    }

    /// Every key ascending.
    pub fn ascending() -> (r: Self)
        ensures
            r == Self::uniform(Order::Ascending),
    {
        SortingOrder {
            title: Order::Ascending,
            year: Order::Ascending,
            created_at: Order::Ascending,
            updated_at: Order::Ascending,
            latest_uploaded_chapter: Order::Ascending,
            followed_count: Order::Ascending,
            relevance: Order::Ascending,
            rating: Order::Ascending,
        }
    }

    /// Every key descending.
    pub fn descending() -> (r: Self)
        ensures
            r == Self::uniform(Order::Descending),
    {
        SortingOrder {
            title: Order::Descending,
            year: Order::Descending,
            created_at: Order::Descending,
            updated_at: Order::Descending,
            latest_uploaded_chapter: Order::Descending,
            followed_count: Order::Descending,
            relevance: Order::Descending,
            rating: Order::Descending,
        }
    }

    /// The sorting that the protocol's sort order asks for: every key in that
    /// direction.
    pub fn from_order(order: crate::dto::Order) -> (r: Self)
        ensures
            r == Self::uniform(Order::of_dto(order)),
    {
        match order {
            crate::dto::Order::Ascending => Self::ascending(),
            crate::dto::Order::Descending => Self::descending(),
        }
    }
}

/// A search for titles.
#[derive(Debug, PartialEq, Eq)]
pub struct SearchQuery {
    pub limit: u32,
    pub offset: u32,
    pub title: Option<String>,
    pub author_or_artist: Option<Uuid>,
    pub authors: Option<Vec<Uuid>>,
    pub artists: Option<Vec<Uuid>>,
    pub year: Option<u32>,
    pub included_tags: Option<Vec<Uuid>>,
    pub included_tags_mode: LogicMode,
    pub excluded_tags: Option<Vec<Uuid>>,
    pub excluded_tags_mode: LogicMode,
    pub status: Vec<PublicationStatus>,
    pub original_language: Option<Vec<String>>,
    pub excluded_original_language: Option<Vec<String>>,
    pub available_translated_language: Option<Vec<String>>,
    pub publication_demographic: Vec<Demographic>,
    pub ids: Option<Vec<Uuid>>,
    pub content_rating: Vec<ContentRating>,
    pub created_at_since: Option<String>,
    pub updated_at_since: Option<String>,
    pub order: SortingOrder,
    pub includes: Option<Vec<String>>,
    pub has_available_chapters: bool,
    pub group: Option<Uuid>,
}

impl SearchQuery {
    /// Whether every field but the title holds what a fresh query holds: at
    /// most 20 results from the first on, titles in any publication state and
    /// for any audience that are available in English, have chapters and
    /// are rated no higher than erotica, every sort key descending, tags
    /// included by `And` and excluded by `Or`, and no other restriction.
    pub open spec fn has_defaults(self) -> bool {
        &&& self.limit == 20
        &&& self.offset == 0
        &&& self.author_or_artist is None
        &&& self.authors is None
        &&& self.artists is None
        &&& self.year is None
        &&& self.included_tags is None
        &&& self.included_tags_mode == LogicMode::And
        &&& self.excluded_tags is None
        &&& self.excluded_tags_mode == LogicMode::Or
        &&& self.status@ == seq![
            PublicationStatus::Ongoing,
            PublicationStatus::Completed,
            PublicationStatus::Hiatus,
            PublicationStatus::Cancelled,
        ]
        &&& self.original_language is None
        &&& self.excluded_original_language is None
        &&& self.available_translated_language matches Some(languages)
        &&& languages@.len() == 1
        &&& languages@[0]@ == "en"@
        &&& self.publication_demographic@ == seq![
            Demographic::Shounen,
            Demographic::Shoujo,
            Demographic::Josei,
            Demographic::Seinen,
            Demographic::Unspecified,
        ]
        &&& self.ids is None
        &&& self.content_rating@ == seq![
            ContentRating::Safe,
            ContentRating::Suggestive,
            ContentRating::Erotica,
        ]
        &&& self.created_at_since is None
        &&& self.updated_at_since is None
        &&& self.order == SortingOrder::uniform(Order::Descending)
        &&& self.includes is None
        &&& self.has_available_chapters
        &&& self.group is None
    }

    /// A fresh query for titles that match `title`.
    pub fn new(title: &str) -> (r: Self)
        ensures
            r.has_defaults(),
            r.title matches Some(t) && t@ == title@,
    {
        let mut q = SearchQuery::default();
        q.title = Some(title.to_owned());
        q
    }

    /// The same query, starting at result number `offset`.
    pub fn set_offset(self, offset: u32) -> (r: Self)
        ensures
            r == (SearchQuery { offset, ..self }),
    {
        let mut q = self;
        q.offset = offset;
        q
    }

    /// The same query, sorted by `order`.
    pub fn set_order(self, order: SortingOrder) -> (r: Self)
        ensures
            r == (SearchQuery { order, ..self }),
    {
        let mut q = self;
        q.order = order;
        q
    }

    /// The same query, for at most `limit` results.
    pub fn set_limit(self, limit: u32) -> (r: Self)
        ensures
            r == (SearchQuery { limit, ..self }),
    {
        let mut q = self;
        q.limit = limit;
        q
    }
}

impl Default for SearchQuery {
    /// A fresh query without a title.
    fn default() -> (r: Self)
        ensures
            r.has_defaults(),
            r.title is None,
    {
        let mut status: Vec<PublicationStatus> = Vec::new();
        status.push(PublicationStatus::Ongoing);
        status.push(PublicationStatus::Completed);
        status.push(PublicationStatus::Hiatus);
        status.push(PublicationStatus::Cancelled);
        let mut languages: Vec<String> = Vec::new();
        languages.push("en".to_owned());
        let mut demographic: Vec<Demographic> = Vec::new();
        demographic.push(Demographic::Shounen);
        demographic.push(Demographic::Shoujo);
        demographic.push(Demographic::Josei);
        demographic.push(Demographic::Seinen);
        demographic.push(Demographic::Unspecified);
        let mut rating: Vec<ContentRating> = Vec::new();
        rating.push(ContentRating::Safe);
        rating.push(ContentRating::Suggestive);
        rating.push(ContentRating::Erotica);
        assert(status@ =~= seq![
            PublicationStatus::Ongoing,
            PublicationStatus::Completed,
            PublicationStatus::Hiatus,
            PublicationStatus::Cancelled,
        ]);
        assert(demographic@ =~= seq![
            Demographic::Shounen,
            Demographic::Shoujo,
            Demographic::Josei,
            Demographic::Seinen,
            Demographic::Unspecified,
        ]);
        assert(rating@ =~= seq![
            ContentRating::Safe,
            ContentRating::Suggestive,
            ContentRating::Erotica,
        ]);
        SearchQuery {
            limit: 20,
            offset: 0,
            title: None,
            author_or_artist: None,
            authors: None,
            artists: None,
            year: None,
            included_tags: None,
            included_tags_mode: LogicMode::And,
            excluded_tags: None,
            excluded_tags_mode: LogicMode::Or,
            status,
            original_language: None,
            excluded_original_language: None,
            available_translated_language: Some(languages),
            publication_demographic: demographic,
            ids: None,
            content_rating: rating,
            created_at_since: None,
            updated_at_since: None,
            order: SortingOrder::descending(),
            includes: None,
            has_available_chapters: true,
            group: None,
        }
    }
}

} // verus!
