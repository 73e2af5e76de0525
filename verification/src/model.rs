//! The book of positions as the library holds it.

use vstd::prelude::*;
use crate::decimal::Dec;

verus! {

#[verifier::external_type_specification]
#[verifier::external_body]
pub struct ExUlid(ulid::Ulid);

/// `Ulid`'s derived `Clone`; the type is `Copy`, so the clone is the value itself.
pub assume_specification[ <ulid::Ulid as Clone>::clone ](u: &ulid::Ulid) -> (r: ulid::Ulid)
    ensures
        r == *u,
;

/// `ulid::Ulid::new()`: a fresh identifier from the clock and a random source.
/// Nothing is stated of the value.
#[verifier::external_body]
pub(crate) fn new_id() -> ulid::Ulid {
    ulid::Ulid::new()
}

/// The kind of a position; it selects how the position's value grows.
#[derive(Clone, Copy, Debug, PartialEq, Eq, Structural)]
pub enum Kind {
    Tbill,
    Deposit,
    Other,
}

/// One position of the book. `principal_usd` is the nominal entered, never
/// the grown value; `start_date` is used by deposits, `maturity` by the other kinds.
#[derive(Clone, Debug, PartialEq)]
pub struct Position {
    pub id: ulid::Ulid,
    pub kind: Kind,
    pub name: String,
    pub principal_usd: Dec,
    pub yield_pct: Dec,
    pub maturity: Option<String>,
    pub start_date: Option<String>,
    pub source_ccy: String,
    pub source_amount: Option<Dec>,
    pub fx_rate: Option<Dec>,
    pub fx_date: Option<String>,
}

/// The whole book: a reporting currency and the positions, in order.
#[derive(Clone, Debug, PartialEq)]
pub struct Book {
    pub currency: String,
    pub positions: Vec<Position>,
}

} // verus!
