//! The ordered, fixed list of section headers. A section is known by its
//! position in this list.
use vstd::prelude::*;

verus! {

/// How many sections the catalog holds.
pub const SECTION_COUNT: usize = 17;

/// The header of section `i`, for `0 <= i < SECTION_COUNT`.
pub open spec fn header_spec(i: int) -> Seq<char> {
    if i == 0 {
        "Company Details"@
    } else if i == 1 {
        "Business Details"@
    } else if i == 2 {
        "Particulars of Stated Capital"@
    } else if i == 3 {
        "Certificate (Issued by Other Institutions)"@
    } else if i == 4 {
        "Office Bearers"@
    } else if i == 5 {
        "Shareholders"@
    } else if i == 6 {
        "Members (Applicable for Company Limited by Guarantee or Shares and Guarantee)"@
    } else if i == 7 {
        "Annual Return filed for last 3 years"@
    } else if i == 8 {
        "Financial Summary/Statements filed for last 3 years"@
    } else if i == 9 {
        "Last Financial Summary Filed"@
    } else if i == 10 {
        "Profit and Loss Statement"@
    } else if i == 11 {
        "Balance Sheet"@
    } else if i == 12 {
        "Charges"@
    } else if i == 13 {
        "Removal/Winding Up Details"@
    } else if i == 14 {
        "Objections"@
    } else if i == 15 {
        "Last Annual Registration Fee Paid"@
    } else {
        "Extract of file with additional comments"@
    }
}

/// A line (already trimmed) is a header when it equals one of the catalog's headers.
pub open spec fn is_header(line: Seq<char>) -> bool {
    exists|i: int| 0 <= i < SECTION_COUNT && line == #[trigger] header_spec(i)
}

/// The header of section `i`.
pub fn section_header(i: usize) -> (r: &'static str)
    requires
        i < SECTION_COUNT,
    ensures
        r@ == header_spec(i as int),
{
    match i {
        0 => "Company Details",
        1 => "Business Details",
        2 => "Particulars of Stated Capital",
        3 => "Certificate (Issued by Other Institutions)",
        4 => "Office Bearers",
        5 => "Shareholders",
        6 => "Members (Applicable for Company Limited by Guarantee or Shares and Guarantee)",
        7 => "Annual Return filed for last 3 years",
        8 => "Financial Summary/Statements filed for last 3 years",
        9 => "Last Financial Summary Filed",
        10 => "Profit and Loss Statement",
        11 => "Balance Sheet",
        12 => "Charges",
        13 => "Removal/Winding Up Details",
        14 => "Objections",
        15 => "Last Annual Registration Fee Paid",
        _ => "Extract of file with additional comments",
    }
}

/// The header of section `i`, or `None` past the end of the catalog.
pub fn lookup(i: usize) -> (r: Option<&'static str>)
    ensures
        i < SECTION_COUNT ==> r is Some && r->Some_0@ == header_spec(i as int),
        i >= SECTION_COUNT ==> r is None,
{
    if i < SECTION_COUNT {
        Some(section_header(i))
    } else {
        None
    }
}

} // verus!
