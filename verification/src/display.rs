//! Renders one candidate's line for the confirmation listing.

use vstd::prelude::*;

use crate::FileWithModifiedTime;

verus! {

/// The date of a timestamp (seconds since the Unix epoch), written as
/// four-digit year, two-digit month, two-digit day, separated by dashes,
/// as chrono's `%Y-%m-%d` format writes it.
pub uninterp spec fn date_label_of(secs: u64) -> Seq<char>;

/// The last second of year 9999, the greatest timestamp the display takes.
pub const MAX_DISPLAY_SECS: u64 = 253402300799;

/// Trusted call into chrono: `DateTime::from_timestamp` is documented to be
/// `Some` for every timestamp up to year 9999, and the `%Y-%m-%d` rendering
/// of the result is a function of the timestamp alone, named `date_label_of`.
#[verifier::external_body]
fn format_modified_date(secs: u64) -> (r: String)
    requires
        secs <= MAX_DISPLAY_SECS,
    ensures
        r@ == date_label_of(secs),
{
    let date_time = chrono::DateTime::from_timestamp(secs as i64, 0).unwrap();
    date_time.format("%Y-%m-%d").to_string()
}

/// One line of the confirmation listing: the file's last-modified date and
/// its name.
pub fn display_line(file: &FileWithModifiedTime) -> (r: String)
    requires
        file.modified_secs <= MAX_DISPLAY_SECS,
    ensures
        r@ == "Last Modified "@ + date_label_of(file.modified_secs) + " - "@ + file.name@ + " "@,
{
    let mut s = String::from_str("Last Modified ");
    let date = format_modified_date(file.modified_secs);
    s.append(date.as_str());
    s.append(" - ");
    s.append(file.name.as_str());
    s.append(" ");
    proof {
        assert(s@ =~= "Last Modified "@ + date_label_of(file.modified_secs) + " - "@ + file.name@
            + " "@);
    }
    s
}

} // verus!
