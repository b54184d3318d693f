//! The fixed route table: exact, case-sensitive matching on method and path.

use vstd::prelude::*;

verus! {

/// The request methods the route table distinguishes.
#[derive(Clone, Copy, Debug, PartialEq, Eq, Structural)]
pub enum Method {
    Get,
    Post,
    /// Any other method (PUT, DELETE, ...).
    Other,
}

/// What a request is routed to.
#[derive(Clone, Copy, Debug, PartialEq, Eq, Structural)]
pub enum Route {
    /// GET "/": usage text for the conversion endpoint.
    Instructions,
    /// POST "/": grayscale conversion of the body.
    Convert,
    /// GET "/v1.0/state/statestore": usage text for the state store.
    StateInstructions,
    /// POST "/v1.0/state/statestore": forward to the state store.
    StateForward,
    NotFound,
}

pub open spec fn root_path() -> Seq<char> {
    "/"@
}

pub open spec fn state_path() -> Seq<char> {
    "/v1.0/state/statestore"@
}

pub open spec fn route_of(method: Method, path: Seq<char>) -> Route {
    if path == root_path() {
        match method {
            Method::Get => Route::Instructions,
            Method::Post => Route::Convert,
            Method::Other => Route::NotFound,
        }
    } else if path == state_path() {
        match method {
            Method::Get => Route::StateInstructions,
            Method::Post => Route::StateForward,
            Method::Other => Route::NotFound,
        }
    } else {
        Route::NotFound
    }
}

/// Character-by-character equality of two strings.
pub fn same_text(a: &str, b: &str) -> (r: bool)
    ensures
        r == (a@ == b@),
{
    let n = a.unicode_len();
    if n != b.unicode_len() {
        return false;
    }
    let mut i: usize = 0;
    while i < n
        invariant
            n == a@.len(),
            n == b@.len(),
            i <= n,
            a@.subrange(0, i as int) == b@.subrange(0, i as int),
        decreases n - i,
    {
        if a.get_char(i) != b.get_char(i) {
            return false;
        }
        assert(a@.subrange(0, i + 1) =~= a@.subrange(0, i as int).push(a@[i as int]));
        assert(b@.subrange(0, i + 1) =~= b@.subrange(0, i as int).push(b@[i as int]));
        i = i + 1;
    }
    assert(a@ =~= a@.subrange(0, n as int));
    assert(b@ =~= b@.subrange(0, n as int));
    true
}

/// Matches a request against the route table.
pub fn route(method: Method, path: &str) -> (r: Route)
    ensures
        r == route_of(method, path@),
{
    if same_text(path, "/") {
        match method {
            Method::Get => Route::Instructions,
            Method::Post => Route::Convert,
            Method::Other => Route::NotFound,
        }
    } else if same_text(path, "/v1.0/state/statestore") {
        match method {
            Method::Get => Route::StateInstructions,
            Method::Post => Route::StateForward,
            Method::Other => Route::NotFound,
        }
    } else {
        Route::NotFound
    }
}

} // verus!
