//! Window identifiers: a fixed prefix and the time of asking in milliseconds.

use crate::decimal::{decimal, lemma_decimal_injective, push_decimal};
use vstd::prelude::*;

verus! {

/// What every identifier of a floating window begins with.
pub open spec fn window_id_prefix() -> Seq<char> {
    "floating-"@
}

/// The identifier of the window asked for `millis` milliseconds after the
/// start of 1970 (UTC).
pub open spec fn window_id_text(millis: int) -> Seq<char> {
    window_id_prefix() + decimal(millis)
}

/// The identifier of the window asked for at `millis`.
///
/// Two windows asked for within the same millisecond get the same identifier.
pub fn window_id(millis: i64) -> (id: String)
    ensures
        id@ == window_id_text(millis as int),
{
    let mut id = "floating-".to_owned();
    push_decimal(&mut id, millis);
    id
}

/// Every identifier begins with the prefix.
pub proof fn lemma_window_id_begins_with_prefix(millis: int)
    ensures
        window_id_prefix().is_prefix_of(window_id_text(millis)),
{
}

/// Two identifiers are the same only where they were made from the same
/// millisecond.
pub proof fn lemma_window_id_tells_the_time(earlier: int, later: int)
    ensures
        window_id_text(earlier) == window_id_text(later) <==> earlier == later,
{
    if window_id_text(earlier) == window_id_text(later) {
        let prefix = window_id_prefix();
        let a = window_id_text(earlier);
        let b = window_id_text(later);
        assert(decimal(earlier) =~= a.subrange(prefix.len() as int, a.len() as int));
        assert(decimal(later) =~= b.subrange(prefix.len() as int, b.len() as int));
        lemma_decimal_injective(earlier, later);
    }
}

/// The time now, in milliseconds since the start of 1970 (UTC).
///
/// Calls `chrono::Utc::now` and reads the value with
/// `chrono::DateTime::timestamp_millis`. Nothing is claimed of the number: it
/// is whatever the system clock says.
#[verifier::external_body]
fn utc_now_millis() -> i64 {
    chrono::Utc::now().timestamp_millis()
}

/// The identifier for a window asked for now, with the time it was made from.
pub fn fresh_window_id() -> (stamped: (i64, String))
    ensures
        stamped.1@ == window_id_text(stamped.0 as int),
{
    let millis = utc_now_millis();
    (millis, window_id(millis))
}

} // verus!
