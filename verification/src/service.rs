//! Routing and the request handler.
//!
//! Two paths, `/` and `/health`, route to the identical handler; every
//! other path is not found. The handler answers 200 with the JSON
//! health body in all cases: a failed database probe only degrades the
//! `database` field, never the HTTP status.

use vstd::prelude::*;
use crate::health::{DatabaseStatus, health_check, health_body};
use crate::health::{spec_db_status, spec_health_body};

verus! {

/// Where a request path routes.
#[derive(Clone, Copy, PartialEq, Eq, Structural, Debug)]
pub enum Route {
    Health,
    NotFound,
}

/// `/` and `/health` route to the health handler; nothing else routes.
pub open spec fn spec_route(path: Seq<char>) -> Route {
    if path == "/"@ || path == "/health"@ {
        Route::Health
    } else {
        Route::NotFound
    }
}

/// The HTTP status code answered for a route.
pub open spec fn spec_status_code(r: Route) -> u16 {
    match r {
        Route::Health => 200,
        Route::NotFound => 404,
    }
}

/// The body answered for a route, given the database probe outcome.
pub open spec fn spec_body(r: Route, probe_ok: bool) -> Seq<char> {
    match r {
        Route::Health => spec_health_body(spec_db_status(probe_ok)),
        Route::NotFound => Seq::empty(),
    }
}

/// Character-for-character string equality.
fn str_eq(a: &str, b: &str) -> (r: bool)
    ensures
        r == (a@ == b@),
{
    let na = a.unicode_len();
    let nb = b.unicode_len();
    if na != nb {
        return false;
    }
    let mut i: usize = 0;
    while i < na
        invariant
            i <= na,
            na == a@.len(),
            na == b@.len(),
            forall|j: int| 0 <= j < i ==> a@[j] == b@[j],
        decreases na - i,
    {
        if a.get_char(i) != b.get_char(i) {
            return false;
        }
        i = i + 1;
    }
    proof {
        assert(a@ =~= b@);
    }
    true
}

/// Routes a request path.
pub fn route_of(path: &str) -> (r: Route)
    ensures
        r == spec_route(path@),
{
    if str_eq(path, "/") || str_eq(path, "/health") {
        Route::Health
    } else {
        Route::NotFound
    }
}

/// One HTTP response: a status code and a body.
pub struct HttpResponse {
    pub status_code: u16,
    pub body: String,
}

/// Answers one request. The health handler returns 200 in all cases;
/// the body varies only in its `database` field, set from the probe.
pub fn handle_request(path: &str, probe_ok: bool) -> (r: HttpResponse)
    ensures
        r.status_code == spec_status_code(spec_route(path@)),
        r.body@ == spec_body(spec_route(path@), probe_ok),
        spec_route(path@) is Health ==> r.status_code == 200,
{
    match route_of(path) {
        Route::Health => {
            let h = health_check(probe_ok);
            let body = health_body(&h);
            HttpResponse { status_code: 200, body }
        },
        Route::NotFound => HttpResponse { status_code: 404, body: String::new() },
    }
}

/// The root path and the health path are served by the identical
/// handler: for any probe outcome they answer the same status code and
/// the same body.
pub proof fn lemma_paths_equivalent(probe_ok: bool)
    ensures
        spec_route("/"@) == spec_route("/health"@),
        spec_status_code(spec_route("/"@)) == spec_status_code(spec_route("/health"@)),
        spec_body(spec_route("/"@), probe_ok) == spec_body(spec_route("/health"@), probe_ok),
{
}

/// A database that became unreachable after startup degrades only the
/// body's `database` field: the health path still answers 200, with
/// the payload serialized for a disconnected database, and never an
/// error status.
pub proof fn lemma_degraded_probe_still_ok()
    ensures
        spec_status_code(spec_route("/health"@)) == 200,
        spec_body(spec_route("/health"@), false)
            == spec_health_body(DatabaseStatus::Disconnected),
{
}

} // verus!
