//! The shapes extracted from the company sections.
use vstd::prelude::*;

use crate::json::JsonValue;
use crate::models::financial::{BalanceSheet, ProfitAndLoss};

verus! {
/// A company record as the registry publishes it.
#[derive(Debug)]
pub struct CompanyData {
    pub organisation_info: OrganisationInfo,
    pub view_all: bool,
}

/// Everything the registry publishes about one organisation.
#[derive(Debug)]
pub struct OrganisationInfo {
    pub company_details: CompanyDetails,
    pub business_details_list: Vec<BusinessDetails>,
    pub stated_capitals_list: Vec<StatedCapital>,
    pub certificates_list: Vec<Certificate>,
    pub office_bearers_list: Vec<OfficeBearer>,
    pub share_holders_list: Vec<ShareHolder>,
    pub financials_list: Vec<Financial>,
    pub liquidators_list: Vec<JsonValue>,
    pub annual_return_list: Vec<AnnualReturn>,
    pub receivers_list: Vec<JsonValue>,
    pub administrators_list: Option<JsonValue>,
    pub charges_list: Vec<JsonValue>,
    pub members_list: Option<JsonValue>,
    pub winding_up_details_list: Vec<JsonValue>,
    pub objections_list: Vec<JsonValue>,
    pub last_annual_registration_fee_paid: RegistrationFee,
    pub additional_notes_list: Option<JsonValue>,
    pub balance_sheet: BalanceSheet,
    pub profit_and_loss: ProfitAndLoss,
}

/// Key-value metadata of a company.
#[derive(Debug)]
pub struct CompanyDetails {
    pub org_no: String,
    pub org_file_no: String,
    pub org_name: String,
    pub org_incorp_date: String,
    pub org_nature_cd: String,
    pub org_nature_cd_code: String,
    pub org_type_cd: String,
    pub org_last_sta_cd: String,
    pub company_address: String,
    pub category_desc: String,
    pub org_category_code: String,
    pub org_sub_category_code: Option<String>,
    pub sub_category_desc: Option<String>,
    pub defunct_date: Option<String>,
    pub effective_start_date: String,
    pub former_org_name: String,
    pub total_comprehensive_income: String,
    pub winding_up_status: Option<String>,
}

/// One row of the business table.
#[derive(Debug)]
pub struct BusinessDetails {
    pub bus_file_no: String,
    pub business_reg_no: String,
    pub bsn_business_name: String,
    pub business_type: Option<String>,
    pub main_address: String,
    pub bus_nature: String,
    pub status: Option<String>,
    pub app_name: Option<String>,
    pub bus_reg_dt: Option<String>,
}

/// The rows of the business table.
#[derive(Debug)]
pub struct BusinessDetailsList {
    pub business_details: Vec<BusinessDetails>,
}

/// One class of stated capital.
#[derive(Debug)]
pub struct StatedCapital {
    pub share_type: String,
    pub num_shares: String,
    pub currency: String,
    pub stated_capital1: String,
    pub par_value: String,
    pub amount_unpaid: String,
}

/// The classes of stated capital.
#[derive(Debug)]
pub struct StatedCapitalList {
    pub stated_capitals: Vec<StatedCapital>,
}

/// A certificate issued by another institution.
#[derive(Debug)]
pub struct Certificate {
    pub certif: String,
    pub certif_type: String,
    pub effective_date: String,
    pub expiry_date: String,
}

/// The certificates issued by other institutions.
#[derive(Debug)]
pub struct CertificateList {
    pub certificates: Vec<Certificate>,
}

/// One office bearer.
#[derive(Debug)]
pub struct OfficeBearer {
    pub position: String,
    pub name: String,
    pub address: String,
    pub country: String,
    pub appointed_date: String,
    pub entity_type: String,
}

/// The office bearers.
#[derive(Debug)]
pub struct OfficeBearerList {
    pub office_bearers: Vec<OfficeBearer>,
}

/// One shareholder.
#[derive(Debug)]
pub struct ShareHolder {
    pub name: String,
    pub num_shares: String,
    pub share_type: String,
    pub currency: String,
    pub entity_type: String,
}

/// The shareholders.
#[derive(Debug)]
pub struct ShareHolderList {
    pub share_holders: Vec<ShareHolder>,
}

/// One filed financial summary.
#[derive(Debug)]
pub struct Financial {
    pub financial_year_ended_date: String,
    pub currency: String,
    pub date_approved: String,
}

/// One filed annual return.
#[derive(Debug)]
pub struct AnnualReturn {
    pub annual_return_date: String,
    pub annual_meeting_date: String,
    pub filed_date: String,
}

/// The filed annual returns.
#[derive(Debug)]
pub struct AnnualReturnList {
    pub annual_returns: Vec<AnnualReturn>,
}

/// The last annual registration fee paid.
#[derive(Debug)]
pub struct RegistrationFee {
    pub amount: String,
}

} // verus!
