//! Queries put to the MangaDex API.

use vstd::prelude::*;

pub mod chapter;
pub mod manga;

verus! {

/// Identifier of an entity of the API.
pub type Uuid = String;

/// Direction of one sort key. The API writes these as `asc` and `desc`.
#[derive(Clone, Copy, Debug, PartialEq, Eq, Structural)]
pub enum Order {
    Ascending,
    Descending,
}

impl Order {
    /// The API's direction for the protocol's sort order.
    pub open spec fn of_dto(order: crate::dto::Order) -> Order {
        match order {
            crate::dto::Order::Ascending => Order::Ascending,
            crate::dto::Order::Descending => Order::Descending,
        }
    }
}

/// How a list of tags is combined. The API writes these as `AND` and `OR`.
#[derive(Clone, Copy, Debug, PartialEq, Eq, Structural)]
pub enum LogicMode {
    And,
    Or,
}

} // verus!
