use time::{Date, OffsetDateTime};
use vstd::prelude::*;

verus! {

/// A calendar date. The service stamps records with it and otherwise only
/// carries it along.
#[verifier::external_type_specification]
#[verifier::external_body]
pub struct ExDate(Date);

/// `OffsetDateTime::now_utc` and `OffsetDateTime::date`: the date that the
/// machine's clock shows in UTC. Nothing is promised of it.
#[verifier::external_body]
pub(crate) fn today() -> (date: Date) {
    OffsetDateTime::now_utc().date()
}

} // verus!
