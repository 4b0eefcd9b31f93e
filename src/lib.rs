//! Turns the plain text of company-filing documents into per-section records:
//! a fixed catalog of section headers, a segmenter that cuts one section out of
//! a document, the prompts and request bodies sent to a language-model backend,
//! and the per-document and per-batch decisions of the extraction run.
pub mod api;
pub mod batch;
pub mod catalog;
pub mod document;
pub mod json;
pub mod models;
pub mod parser;
pub mod section;
pub mod text;

pub use api::{LlmBackend, LlmConfig};
pub use json::JsonValue;
pub use models::company::{
    AnnualReturn, AnnualReturnList, BusinessDetails, BusinessDetailsList, Certificate,
    CertificateList, CompanyData, CompanyDetails, Financial, OfficeBearer, OfficeBearerList,
    OrganisationInfo, RegistrationFee, ShareHolder, ShareHolderList, StatedCapital,
    StatedCapitalList,
};
pub use models::financial::{
    BalanceSheet, CurrentAssets, CurrentLiabilities, EquityAndLiabilities, NonCurrentAssets,
    NonCurrentLiabilities, ProfitAndLoss,
};
pub use parser::SectionParser;
pub use section::extract_section;
