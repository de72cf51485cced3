//! Which handler a request goes to.

use crate::text::{chars_of, has_prefix, starts_with};
use vstd::prelude::*;

verus! {

/// The handlers, and `Unknown` for a request that goes to none.
#[derive(Debug, Clone, Copy, PartialEq, Eq, Structural)]
pub enum Route {
    Create,
    ReadOne,
    ReadAll,
    ReadByPrice,
    Update,
    Delete,
    Unknown,
}

impl Route {
    /// Whether the handler of this route reads the record in the body of the
    /// request: the ones that create and that update do.
    pub fn reads_record(self) -> (b: bool)
        ensures
            b == (self == Route::Create || self == Route::Update),
    {
        matches!(self, Route::Create | Route::Update)
    }
}

/// The route of `request`: that of the first of six beginnings that
/// `request` has, tried in this order. The order matters where one beginning
/// is the beginning of another: a request for one record also begins as a
/// request for all of them does, and is tried first.
pub open spec fn route_of(request: Seq<char>) -> Route {
    if has_prefix(request, "POST /products"@) {
        Route::Create
    } else if has_prefix(request, "GET /products/"@) {
        Route::ReadOne
    } else if has_prefix(request, "GET /products"@) {
        Route::ReadAll
    } else if has_prefix(request, "GET /price/"@) {
        Route::ReadByPrice
    } else if has_prefix(request, "PUT /products/"@) {
        Route::Update
    } else if has_prefix(request, "DELETE /products/"@) {
        Route::Delete
    } else {
        Route::Unknown
    }
}

/// The route of `request`.
pub fn route(request: &str) -> (r: Route)
    ensures
        r == route_of(request@),
{
    let chars = chars_of(request);
    if starts_with(&chars, "POST /products") {
        Route::Create
    } else if starts_with(&chars, "GET /products/") {
        Route::ReadOne
    } else if starts_with(&chars, "GET /products") {
        Route::ReadAll
    } else if starts_with(&chars, "GET /price/") {
        Route::ReadByPrice
    } else if starts_with(&chars, "PUT /products/") {
        Route::Update
    } else if starts_with(&chars, "DELETE /products/") {
        Route::Delete
    } else {
        Route::Unknown
    }
}

} // verus!
