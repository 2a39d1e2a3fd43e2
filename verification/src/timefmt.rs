//! Display formatting of invoice creation dates. The rendering of a Unix
//! timestamp is chrono's work and is only named here; the fallback rule —
//! show the raw field text whenever it is not a timestamp chrono accepts —
//! is verified.

use vstd::prelude::*;
use crate::numtext::{i64_text_value, parse_i64};

verus! {

/// chrono's rendering of a Unix timestamp in the fixed layout
/// `%Y-%m-%d %H:%M:%S UTC`, a function of the timestamp alone.
pub uninterp spec fn utc_date_text(secs: int) -> Seq<char>;

/// The timestamp lies in the range chrono can represent.
pub uninterp spec fn utc_date_in_range(secs: int) -> bool;

/// Relies on `chrono::DateTime::from_timestamp` and chrono's formatter
/// with the fixed layout `%Y-%m-%d %H:%M:%S UTC`: the rendering depends
/// on the timestamp alone, and only out-of-range timestamps are refused.
#[verifier::external_body]
fn format_utc_timestamp(secs: i64) -> (r: Option<String>)
    ensures
        r is Some <==> utc_date_in_range(secs as int),
        r matches Some(s) ==> s@ == utc_date_text(secs as int),
{
    chrono::DateTime::<chrono::Utc>::from_timestamp(secs, 0).map(
        |dt| dt.format("%Y-%m-%d %H:%M:%S UTC").to_string(),
    )
}

/// What the listing shows for a creation-date field: the rendered
/// timestamp where the field is a decimal timestamp in chrono's range,
/// the raw field text otherwise.
pub open spec fn spec_creation_date_display(field: Seq<char>) -> Seq<char> {
    match i64_text_value(field) {
        Some(v) => if i64::MIN <= v <= i64::MAX && utc_date_in_range(v) {
            utc_date_text(v)
        } else {
            field
        },
        None => field,
    }
}

/// Formats an invoice's creation date for display, falling back to the
/// raw field text when it is not a renderable timestamp.
pub fn format_creation_date(creation_date: &String) -> (r: String)
    ensures
        r@ == spec_creation_date_display(creation_date@),
{
    match parse_i64(creation_date.as_str()) {
        Some(t) => match format_utc_timestamp(t) {
            Some(s) => s,
            None => creation_date.clone(),
        },
        None => creation_date.clone(),
    }
}

} // verus!
