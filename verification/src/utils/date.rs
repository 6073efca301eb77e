//! Dates as HTTP headers carry them.
use vstd::prelude::*;

use std::time::SystemTime;

use crate::model::opt_text;

verus! {

/// The RFC 2822 form, in UTC, of `date`, as the `time` crate writes it; `None` when that
/// crate cannot represent or format the date.
pub uninterp spec fn rfc2822_date(date: SystemTime) -> Option<Seq<char>>;

/// Formats a date in RFC 2822 form (`OffsetDateTime` from the date's distance to the
/// Unix epoch, then `OffsetDateTime::format` with `Rfc2822`). Gives `None`, where the
/// `From<SystemTime>` conversion of `time` would panic or the formatting would fail,
/// because the date lies outside what `time` can represent or RFC 2822 can write (years
/// 1900 to 9999).
#[verifier::external_body]
pub fn format_date(date: SystemTime) -> (r: Option<String>)
    ensures
        opt_text(r) == rfc2822_date(date),
{
    let epoch = time::OffsetDateTime::UNIX_EPOCH;
    let date = match date.duration_since(SystemTime::UNIX_EPOCH) {
        Ok(after) => epoch.checked_add(time::Duration::try_from(after).ok()?)?,
        Err(before) => epoch.checked_sub(time::Duration::try_from(before.duration()).ok()?)?,
    };
    date.format(&time::format_description::well_known::Rfc2822).ok()
}

} // verus!
