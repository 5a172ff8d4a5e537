//! The message endpoint: each call increments the shared counter and answers
//! with a fixed greeting, the fresh counter value, and the current UTC time
//! as an RFC 3339 string.

use vstd::prelude::*;
use crate::counter::Counter;
use crate::counter::next_count;
use crate::rfc3339::is_rfc3339;

verus! {

/// The greeting carried by every response.
pub open spec fn greeting() -> Seq<char> {
    "Hello from Rust backend"@
}

/// What the message endpoint answers: the fixed greeting, the counter value
/// at the time of the call, and the time of the call. Built fresh per
/// request and never stored.
pub struct MessageResponse {
    pub message: String,
    pub counter: u64,
    pub timestamp: String,
}

/// Relies on chrono: `Utc::now()` reads the current UTC time, and
/// `DateTime::to_rfc3339` renders it as an RFC 3339 date-time string — for
/// years 0 through 9999, the only ones a wall clock reports, it writes
/// `YYYY-MM-DDTHH:MM:SS`, then a fraction of 3, 6 or 9 digits or none, then
/// a `+00:00`-style offset.
#[verifier::external_body]
fn now_rfc3339() -> (r: String)
    ensures
        is_rfc3339(r@),
{
    chrono::Utc::now().to_rfc3339()
}

/// The response for one call that observed counter value `count` at time
/// `timestamp`: the greeting is the same on every call.
pub fn build_response(count: u64, timestamp: String) -> (r: MessageResponse)
    ensures
        r.message@ == greeting(),
        r.counter == count,
        r.timestamp@ == timestamp@,
{
    MessageResponse { message: "Hello from Rust backend".to_owned(), counter: count, timestamp }
}

/// Handle one call of the message endpoint: increment the counter, read the
/// new value, and answer it beside the fixed greeting and a timestamp that
/// is a well-formed RFC 3339 date-time.
pub fn handle_message(counter: &mut Counter) -> (r: MessageResponse)
    ensures
        final(counter).value == next_count(old(counter).value),
        r.counter == final(counter).value,
        r.message@ == greeting(),
        is_rfc3339(r.timestamp@),
{
    let count = counter.increment_and_fetch();
    let timestamp = now_rfc3339();
    build_response(count, timestamp)
}

} // verus!
