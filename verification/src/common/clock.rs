//! Instants in UTC.
use vstd::prelude::*;

verus! {

/// A UTC instant held as whole seconds since the Unix epoch and the
/// nanoseconds within that second.
#[derive(Clone, Copy, Debug, PartialEq, Eq)]
pub struct Timestamp {
    pub secs: i64,
    pub nanos: u32,
}

/// Reads the system clock through `chrono::Utc::now` and splits the instant
/// into seconds and sub-second nanoseconds.  Which instant comes back depends
/// on the time of the call and is not stated; what is stated holds of every
/// outcome: the parts come from a valid chrono `DateTime`, so
/// `DateTime::from_timestamp` represents them again.
#[verifier::external_body]
pub(crate) fn utc_now() -> (r: Timestamp)
    ensures
        chrono_represents(r.secs, r.nanos),
{
    let now = chrono::Utc::now();
    Timestamp { secs: now.timestamp(), nanos: now.timestamp_subsec_nanos() }
}

impl Timestamp {
    /// The current instant: one that chrono represents.
    pub fn now() -> (r: Timestamp)
        ensures
            chrono_represents(r.secs, r.nanos),
    {
        utc_now()
    }
}

/// Whether `chrono::DateTime::from_timestamp` represents the instant
/// `secs` seconds and `nanos` nanoseconds after the Unix epoch.
pub uninterp spec fn chrono_represents(secs: i64, nanos: u32) -> bool;

/// The RFC 3339 text that chrono's `to_rfc3339` gives for the instant
/// `secs` seconds and `nanos` nanoseconds after the Unix epoch, in UTC.
pub uninterp spec fn rfc3339_text(secs: i64, nanos: u32) -> Seq<char>;

/// Formats an instant through `chrono::DateTime::from_timestamp` and
/// `to_rfc3339`: `None` exactly where chrono cannot represent the instant
/// (which instants those are is named, not written out), else the text
/// named `rfc3339_text`.
#[verifier::external_body]
pub(crate) fn format_rfc3339(t: Timestamp) -> (r: Option<String>)
    ensures
        r is Some <==> chrono_represents(t.secs, t.nanos),
        r matches Some(s) ==> s@ == rfc3339_text(t.secs, t.nanos),
{
    chrono::DateTime::from_timestamp(t.secs, t.nanos).map(|d| d.to_rfc3339())
}

/// `s` is the RFC 3339 text of an instant that chrono represents.
pub open spec fn is_rfc3339_instant(s: Seq<char>) -> bool {
    exists|t: Timestamp| #[trigger] chrono_represents(t.secs, t.nanos) && s == rfc3339_text(t.secs, t.nanos)
}

/// The current instant in RFC 3339 form, as chrono's `to_rfc3339` writes it.
pub fn now_rfc3339() -> (r: String)
    ensures
        is_rfc3339_instant(r@),
{
    let t = utc_now();
    match format_rfc3339(t) {
        Some(text) => text,
        None => String::new(),
    }
}

} // verus!
