//! Quotes, as the API serves them.
pub mod models;
pub mod state;

use vstd::prelude::*;
use crate::api::error::APIError;
use crate::models::{GetQuote, StateView};
use crate::api::error::{error_view, APIErrorView};
use crate::store::memory::{has_ascii_match, has_quote_for, no_quotes_error, selects, MemoryStore};
use models::QuoteV1;

verus! {

/// The answer to `GET /api/v1/quote`: a random quote from the store, or the
/// "no quotes" error (404) exactly when the store is empty.
pub fn quote_v1(store: &MemoryStore) -> (r: Result<QuoteV1, APIError>)
    ensures
        r is Ok <==> store@.len() > 0,
        r matches Ok(v) ==> exists|i: int| 0 <= i < store@.len() && v.represents(#[trigger] store@[i]),
        r matches Ok(v) ==> exists|i: int|
            0 <= i < store@.len() && v.quote@ == (#[trigger] store@[i]).quote@ && v.who@ == store@[i].who@,
        r matches Err(e) ==> e@ == no_quotes_error(),
{
    let msg = GetQuote { who: String::new() };
    proof {
        if store@.len() > 0 {
            assert(selects(msg.who@, store@[0]));
        }
    }
    match store.get_quote(&msg) {
        Ok(q) => Ok(QuoteV1::from_state(&q)),
        Err(e) => Err(e),
    }
}

/// The answer when no quote by the requested author is found.
pub open spec fn author_not_found_error() -> APIErrorView {
    error_view(
        404,
        "Not Found"@,
        "We could not find the resource you were looking for, please check your request and try again."@,
    )
}

/// The answer to `GET /api/v1/quote/{person}`: a random quote by `person`
/// (by anyone where it is empty), names compared without regard to case, or
/// the "not found" error (404) exactly when the store holds none. Names of
/// ASCII characters that differ only in the case of their letters always
/// find each other's quotes.
pub fn quote_by_v1(store: &MemoryStore, person: &str) -> (r: Result<QuoteV1, APIError>)
    ensures
        r is Ok <==> has_quote_for(store@, person@),
        has_ascii_match(store@, person@) ==> r is Ok,
        r matches Ok(v) ==> exists|i: int|
            0 <= i < store@.len() && selects(person@, store@[i]) && v.represents(
                #[trigger] store@[i],
            ),
        r matches Ok(v) ==> exists|i: int|
            0 <= i < store@.len() && selects(person@, store@[i]) && v.quote@ == (
            #[trigger] store@[i]).quote@ && v.who@ == store@[i].who@,
        r matches Err(e) ==> e@ == author_not_found_error(),
{
    let msg = GetQuote { who: person.to_owned() };
    match store.get_quote(&msg) {
        Ok(q) => Ok(QuoteV1::from_state(&q)),
        Err(_) => Err(
            APIError::new(
                404,
                "Not Found",
                "We could not find the resource you were looking for, please check your request and try again.",
            ),
        ),
    }
}

} // verus!
