use vstd::prelude::*;

use crate::record::Timestamp;

verus! {

/// The RFC 3339 rendering, in UTC, of the point in time given as seconds and
/// nanoseconds since the Unix epoch. The rendering is a function of the two
/// numbers alone; it is produced by chrono and left uninterpreted here.
pub uninterp spec fn rfc3339_of(secs: int, nanos: int) -> Seq<char>;

/// The rendering of an optional timestamp: absent stays absent.
pub open spec fn iso_of_opt(t: Option<Timestamp>) -> Option<Seq<char>> {
    match t {
        Some(ts) => Some(rfc3339_of(ts.secs as int, ts.nanos as int)),
        None => None,
    }
}

/// Relies on chrono's `DateTime::<Utc>::from_timestamp` and `to_rfc3339`:
/// the string depends on the two arguments alone (the rendering is in UTC,
/// never the host's local time zone), and `from_timestamp` returns `Some`
/// for every argument pair admitted here, since the day count then lies
/// well inside `NaiveDate`'s range and the nanoseconds are a valid
/// subsecond count.
#[verifier::external_body]
pub(crate) fn timestamp_to_iso8601(t: &Timestamp) -> (r: String)
    requires
        t.wf(),
    ensures
        r@ == rfc3339_of(t.secs as int, t.nanos as int),
{
    match chrono::DateTime::<chrono::Utc>::from_timestamp(t.secs, t.nanos) {
        Some(dt) => dt.to_rfc3339(),
        None => String::new(),
    }
}

/// Renders an optional timestamp, keeping absence as absence.
pub fn format_timestamp_opt(t: &Option<Timestamp>) -> (r: Option<String>)
    requires
        t matches Some(ts) ==> ts.wf(),
    ensures
        crate::record::opt_str_view(r) == iso_of_opt(*t),
{
    match t {
        Some(ts) => Some(timestamp_to_iso8601(ts)),
        None => None,
    }
}

} // verus!
