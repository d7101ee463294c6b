//! Customer quotations.
pub mod charges;
pub mod errors;
pub mod quotation;
pub mod rows;
pub mod status;

pub use errors::{MoneyError, QuotationError};
pub use quotation::{
    order_input, AcceptQuotationResponse, AcceptedQuotation, Quotation, QuotationCharge, QuotationItem,
    QuotationTotals,
};
pub use rows::{quotation_from_rows, QuotationChargeRow, QuotationItemRow, QuotationRow};
pub use status::QuotationStatus;
pub use charges::ChargeKind;
