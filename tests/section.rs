use filing_extract::catalog::{lookup, section_header, SECTION_COUNT};
use filing_extract::extract_section;

#[test]
fn test_extract_section_invalid_index() {
    let text = "Some text";
    let result = extract_section(999, text);
    assert_eq!(result, "");
}

#[test]
fn test_extract_section_not_found() {
    let text = "Some random text\nwithout any sections";
    let result = extract_section(0, text);
    assert_eq!(result, "");
}

#[test]
fn test_extract_section_basic() {
    let text = "Company Details\nSome company info\nBusiness Details\nSome business info";
    let result = extract_section(0, text);
    assert!(result.contains("Company Details"));
    assert!(result.contains("Some company info"));
    assert!(!result.contains("Business Details"));
}

#[test]
fn two_sections_split_at_the_second_header() {
    let text = "Company Details\nAlpha Corp\nBusiness Details\nBeta Ltd";
    assert_eq!(extract_section(0, text), "Company Details\nAlpha Corp");
    assert_eq!(extract_section(1, text), "Business Details\nBeta Ltd");
}

#[test]
fn index_just_past_the_catalog_is_empty() {
    let text = "Company Details\nAlpha Corp";
    assert_eq!(extract_section(SECTION_COUNT, text), "");
    assert_eq!(extract_section(usize::MAX, text), "");
}

#[test]
fn header_on_the_last_line_gives_that_line() {
    let text = "preamble\nOffice Bearers";
    assert_eq!(extract_section(4, text), "Office Bearers");
}

#[test]
fn header_with_surrounding_whitespace_is_kept_verbatim() {
    let text = "intro\n   Company Details  \nAlpha Corp  \n\n";
    assert_eq!(extract_section(0, text), "   Company Details  \nAlpha Corp");
}

#[test]
fn header_as_substring_does_not_count() {
    let text = "See Company Details below\nnothing else";
    assert_eq!(extract_section(0, text), "");
}

#[test]
fn any_catalog_header_ends_a_section_whatever_its_order() {
    let text = "Office Bearers\nDIRECTOR A\nCompany Details\nAlpha\nShareholders\nB";
    assert_eq!(extract_section(4, text), "Office Bearers\nDIRECTOR A");
    assert_eq!(extract_section(0, text), "Company Details\nAlpha");
    assert_eq!(extract_section(5, text), "Shareholders\nB");
}

#[test]
fn first_of_duplicate_headers_is_taken() {
    let text = "Company Details\nfirst\nCompany Details\nsecond";
    assert_eq!(extract_section(0, text), "Company Details\nfirst");
}

#[test]
fn carriage_returns_before_newlines_are_dropped() {
    let text = "Company Details\r\nAlpha Corp\r\nBusiness Details\r\nBeta";
    assert_eq!(extract_section(0, text), "Company Details\nAlpha Corp");
}

#[test]
fn empty_text_gives_empty_sections() {
    for i in 0..SECTION_COUNT {
        assert_eq!(extract_section(i, ""), "");
    }
}

#[test]
fn catalog_lookup_matches_headers() {
    assert_eq!(lookup(0), Some("Company Details"));
    assert_eq!(lookup(16), Some("Extract of file with additional comments"));
    assert_eq!(lookup(17), None);
    assert_eq!(section_header(15), "Last Annual Registration Fee Paid");
}
