//! Enumerations of the MangaDex API.

use vstd::prelude::*;

verus! {

/// Audience that a title is published for.
#[derive(Clone, Copy, Debug, PartialEq, Eq, Structural)]
pub enum Demographic {
    Shounen,
    Shoujo,
    Josei,
    Seinen,
    /// No audience is given. The API writes this as `none`.
    Unspecified,
}

/// Publication state of a title, as the API tells it.
#[derive(Clone, Copy, Debug, PartialEq, Eq, Structural)]
pub enum PublicationStatus {
    Ongoing,
    Completed,
    Hiatus,
    Cancelled,
}

impl PublicationStatus {
    /// The protocol's publication state for this one.
    pub open spec fn dto_status(self) -> crate::dto::PublicationStatus {
        match self {
            PublicationStatus::Ongoing => crate::dto::PublicationStatus::Ongoing,
            PublicationStatus::Completed => crate::dto::PublicationStatus::Completed,
            PublicationStatus::Hiatus => crate::dto::PublicationStatus::Hiatus,
            PublicationStatus::Cancelled => crate::dto::PublicationStatus::Cancelled,
        }
    }

    /// Turns the API's publication state into the protocol's. The protocol's
    /// `Unknown` is never the result.
    pub fn to_dto(self) -> (r: crate::dto::PublicationStatus)
        ensures
            r == self.dto_status(),
            r != crate::dto::PublicationStatus::Unknown,
    {
        match self {
            PublicationStatus::Ongoing => crate::dto::PublicationStatus::Ongoing,
            PublicationStatus::Completed => crate::dto::PublicationStatus::Completed,
            PublicationStatus::Hiatus => crate::dto::PublicationStatus::Hiatus,
            PublicationStatus::Cancelled => crate::dto::PublicationStatus::Cancelled,
        }
    }
}

/// How explicit a title is.
#[derive(Clone, Copy, Debug, PartialEq, Eq, Structural)]
pub enum ContentRating {
    Safe,
    Suggestive,
    Erotica,
    Pornographic,
}

/// Kind of entity that a relationship points to.
#[derive(Clone, Copy, Debug, PartialEq, Eq, Structural)]
pub enum RelationshipType {
    Manga,
    Chapter,
    CoverArt,
    Author,
    Artist,
    ScanlationGroup,
    Tag,
    User,
    CustomList,
    Creator,
}

/// Moderation state of a title.
#[derive(Clone, Copy, Debug, PartialEq, Eq, Structural)]
pub enum State {
    Draft,
    Submitted,
    Published,
    Rejected,
}

/// How one title relates to another.
#[derive(Clone, Copy, Debug, PartialEq, Eq, Structural)]
pub enum MangaRelationshipType {
    Monochrome,
    MainStory,
    AdaptedFrom,
    BasedOn,
    Prequel,
    SideStory,
    Doujinshi,
    SameFranchise,
    SharedUniverse,
    Sequel,
    SpinOff,
    AlternateStory,
    AlternateVersion,
    Preserialization,
    Colored,
    Serialization,
}

/// Group that a tag belongs to.
#[derive(Clone, Copy, Debug, PartialEq, Eq, Structural)]
pub enum TagGroup {
    Content,
    Format,
    Genre,
    Theme,
}

} // verus!
