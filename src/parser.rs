//! Which sections have a structured shape, the extraction rules sent with
//! each, and the prompt built from them.
use vstd::prelude::*;

use crate::catalog::{header_spec, section_header, SECTION_COUNT};

verus! {

/// The extraction contract shared by every section.
pub const COMMON_PROMPT: &'static str = r#"
You are a data extraction engine.

IMPORTANT RULES:
- If a value is missing, unknown, or unclear, return an EMPTY STRING "".
- DO NOT use placeholder text ("Not provided", "Unknown", etc).
- DO NOT include explanations as values.
- Return ONLY valid JSON.
"#;

/// Rules for the key-value company metadata section.
pub const COMPANY_DETAILS_RULES: &'static str = r#"
The following section represents KEY-VALUE company metadata, NOT a table.

The layout looks like:
- File No.
- Date Incorporated
- Name
- Nature
- Type
- Status
- Category
- Sub Category
- Registered Office Address
- Effective date for Registered Office Address

EXTRACTION RULES (MUST FOLLOW STRICTLY):

File No. rules:
- Starts with a letter (e.g C, P) followed by a number. E.g., C12, C4235, P15.
- The File No. is found close to the Name. Do not confuse these two.

Category rules:
- Allowed common values: DOMESTIC, FOREIGN(DOM BRANCH), AUTHORISED COMPANY
- If Category is EMPTY, return "".
- If Category contains another meaningful value, KEEP it EXACTLY.
- DO NOT normalize or guess Category values.

Type rules:
- Common value: LIMITED BY SHARES
- If Type is EMPTY, return "".
- If Type contains another meaningful value, KEEP it EXACTLY.
- DO NOT normalize or guess Type values.
"#;

/// Rules for the business table.
pub const BUSINESS_DETAILS_RULES: &'static str = r#"
The following section represents a TABLE with these columns:
1. Business Name
2. Nature of Business
3. Principal Place of Business

Table rules:
- Each logical row starts with either a Business Name or a single "." character.
- If a row starts with ".", the Business Name is empty. Store it EXACTLY as ".".
- Rows may span multiple lines; merge wrapped lines into one row.
- Ignore headers, repeated titles, page numbers, footers.
- Do not invent or infer data.
"#;

/// Rules for the office bearer table.
pub const OFFICE_BEARERS_RULES: &'static str = r#"
The following section represents a TABLE with these columns:
1. Position
2. Name
3. Service Address
4. Appointed Date

CRITICAL EXTRACTION RULES (MUST FOLLOW):
- Position MUST contain only the role (e.g. DIRECTOR, SECRETARY, CHAIRMAN).
- Name MUST contain ONLY the entity name (person OR company).
- REMOVE the position title if it appears inside the Name.
  Example:
  Input: "DIRECTOR BEDEUX JEAN ALAIN"
  Output:
    Position = "DIRECTOR"
    Name = "BEDEUX JEAN ALAIN"

- Service Address may include street, city, and country.
- Country MUST be the LAST word in the address field.
- entityType MUST ALWAYS be an EMPTY STRING "".
- If a value is missing, return "" (empty string).
- DO NOT invent, infer, or normalize names.

Return ONLY valid JSON.
"#;

/// The sections that have a structured shape to extract.
#[derive(Debug, Clone, Copy, PartialEq, Eq, Structural)]
pub enum SectionParser {
    CompanyDetails,
    BusinessDetails,
    StatedCapital,
    Certificates,
    OfficeBearers,
    ShareHolders,
    AnnualReturns,
    RegistrationFee,
    BalanceSheet,
    ProfitAndLoss,
}

/// The parser of section `index`; the members section and the sections with
/// no structured shape have none.
pub open spec fn parser_for(index: int) -> Option<SectionParser> {
    if index == 0 {
        Some(SectionParser::CompanyDetails)
    } else if index == 1 {
        Some(SectionParser::BusinessDetails)
    } else if index == 2 {
        Some(SectionParser::StatedCapital)
    } else if index == 3 {
        Some(SectionParser::Certificates)
    } else if index == 4 {
        Some(SectionParser::OfficeBearers)
    } else if index == 5 {
        Some(SectionParser::ShareHolders)
    } else if index == 7 {
        Some(SectionParser::AnnualReturns)
    } else if index == 10 {
        Some(SectionParser::ProfitAndLoss)
    } else if index == 11 {
        Some(SectionParser::BalanceSheet)
    } else if index == 15 {
        Some(SectionParser::RegistrationFee)
    } else {
        None
    }
}

/// The display name of section `index`.
pub open spec fn section_name_spec(index: int) -> Seq<char> {
    if 0 <= index < SECTION_COUNT {
        header_spec(index)
    } else {
        "Unknown Section"@
    }
}

/// The section-specific rules of a parser; most sections have none.
pub open spec fn rules_spec(p: SectionParser) -> Seq<char> {
    match p {
        SectionParser::CompanyDetails => COMPANY_DETAILS_RULES@,
        SectionParser::BusinessDetails => BUSINESS_DETAILS_RULES@,
        SectionParser::OfficeBearers => OFFICE_BEARERS_RULES@,
        _ => ""@,
    }
}

/// The name of the shape a parser decodes into.
pub open spec fn shape_name_spec(p: SectionParser) -> Seq<char> {
    match p {
        SectionParser::CompanyDetails => "CompanyDetails"@,
        SectionParser::BusinessDetails => "BusinessDetailsList"@,
        SectionParser::StatedCapital => "StatedCapitalList"@,
        SectionParser::Certificates => "CertificateList"@,
        SectionParser::OfficeBearers => "OfficeBearerList"@,
        SectionParser::ShareHolders => "ShareHolderList"@,
        SectionParser::AnnualReturns => "AnnualReturnList"@,
        SectionParser::RegistrationFee => "RegistrationFee"@,
        SectionParser::BalanceSheet => "BalanceSheet"@,
        SectionParser::ProfitAndLoss => "ProfitAndLoss"@,
    }
}

/// The prompt for one section: the common rules, the section's rules, and the
/// section's text in a labelled block.
pub open spec fn prompt_spec(p: SectionParser, name: Seq<char>, content: Seq<char>) -> Seq<char> {
    COMMON_PROMPT@ + "\n\n"@ + rules_spec(p) + "\n\nExtract information from the \""@ + name
        + "\" section.\n\nSection:\n"@ + content + "\n"@
}

impl SectionParser {
    /// The parser of section `index`, if that section has a structured shape.
    pub fn from_section_index(index: usize) -> (r: Option<Self>)
        ensures
            r == parser_for(index as int),
    {
        match index {
            0 => Some(SectionParser::CompanyDetails),
            1 => Some(SectionParser::BusinessDetails),
            2 => Some(SectionParser::StatedCapital),
            3 => Some(SectionParser::Certificates),
            4 => Some(SectionParser::OfficeBearers),
            5 => Some(SectionParser::ShareHolders),
            7 => Some(SectionParser::AnnualReturns),
            10 => Some(SectionParser::ProfitAndLoss),
            11 => Some(SectionParser::BalanceSheet),
            15 => Some(SectionParser::RegistrationFee),
            _ => None,
        }
    }

    /// The header of section `index`, or "Unknown Section" past the catalog.
    pub fn section_name(index: usize) -> (r: &'static str)
        ensures
            r@ == section_name_spec(index as int),
    {
        if index < SECTION_COUNT {
            section_header(index)
        } else {
            "Unknown Section"
        }
    }

    /// The rules sent for this section besides the common ones.
    pub fn prompt_rules(&self) -> (r: &'static str)
        ensures
            r@ == rules_spec(*self),
    {
        match self {
            SectionParser::CompanyDetails => COMPANY_DETAILS_RULES,
            SectionParser::BusinessDetails => BUSINESS_DETAILS_RULES,
            SectionParser::OfficeBearers => OFFICE_BEARERS_RULES,
            _ => "",
        }
    }

    /// The name of the shape this section decodes into, which also names the
    /// schema sent to a backend.
    pub fn shape_name(&self) -> (r: &'static str)
        ensures
            r@ == shape_name_spec(*self),
    {
        match self {
            SectionParser::CompanyDetails => "CompanyDetails",
            SectionParser::BusinessDetails => "BusinessDetailsList",
            SectionParser::StatedCapital => "StatedCapitalList",
            SectionParser::Certificates => "CertificateList",
            SectionParser::OfficeBearers => "OfficeBearerList",
            SectionParser::ShareHolders => "ShareHolderList",
            SectionParser::AnnualReturns => "AnnualReturnList",
            SectionParser::RegistrationFee => "RegistrationFee",
            SectionParser::BalanceSheet => "BalanceSheet",
            SectionParser::ProfitAndLoss => "ProfitAndLoss",
        }
    }
}

/// The prompt for one section of a document.
pub fn build_prompt(parser: &SectionParser, section_name: &str, section_content: &str) -> (r:
    String)
    ensures
        r@ == prompt_spec(*parser, section_name@, section_content@),
{
    let mut s = COMMON_PROMPT.to_owned();
    s.append("\n\n");
    s.append(parser.prompt_rules());
    s.append("\n\nExtract information from the \"");
    s.append(section_name);
    s.append("\" section.\n\nSection:\n");
    s.append(section_content);
    s.append("\n");
    s
}

} // verus!
