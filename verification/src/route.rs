//! Path-based dispatch: an ordered pair of route matchers, first match wins.
//! Exactly one API route exists; every other path falls through to the
//! static-file service.

use vstd::prelude::*;
use vstd::string::StrSliceExecFns;

verus! {

/// Where a request goes: the one API route, or the static-file fallback.
#[derive(PartialEq, Eq, Structural, Clone, Copy, Debug)]
pub enum Route {
    ApiMessage,
    StaticAsset,
}

/// The path of the one API route.
pub open spec fn api_message_path() -> Seq<char> {
    "/api/message"@
}

/// The route a path dispatches to: the API route on an exact match of its
/// path, the static fallback on anything else.
pub open spec fn spec_route(path: Seq<char>) -> Route {
    if path == api_message_path() {
        Route::ApiMessage
    } else {
        Route::StaticAsset
    }
}

/// Character-for-character equality of two strings.
fn str_eq(a: &str, b: &str) -> (r: bool)
    ensures
        r == (a@ == b@),
{
    let n = a.unicode_len();
    let m = b.unicode_len();
    if n != m {
        return false;
    }
    let mut i: usize = 0;
    while i < n
        invariant
            i <= n,
            n == a@.len(),
            n == b@.len(),
            forall|k: int| 0 <= k < i ==> a@[k] == b@[k],
        decreases n - i,
    {
        if a.get_char(i) != b.get_char(i) {
            assert(a@ != b@) by {
                if a@ == b@ {
                    assert(a@[i as int] == b@[i as int]);
                }
            }
            return false;
        }
        i = i + 1;
    }
    proof {
        assert(a@ =~= b@);
    }
    true
}

/// Dispatch a request path, exactly as `spec_route` states: the matchers are
/// tried in order and the first match wins.
pub fn route_request(path: &str) -> (r: Route)
    ensures
        r == spec_route(path@),
{
    if str_eq(path, "/api/message") {
        Route::ApiMessage
    } else {
        Route::StaticAsset
    }
}

} // verus!
