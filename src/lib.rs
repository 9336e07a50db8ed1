//! A peer-to-peer lending ledger: borrowers request loans, lenders fund
//! them, borrowers repay them, and anyone can look a loan up.

pub mod address;
pub mod loan;
pub mod lifecycle;
pub mod registry;

pub use address::Address;
pub use loan::{Loan, LoanError};
pub use registry::{LoanBook, P2PLendingContract};
pub use lifecycle::{
    lemma_fund_then_fund_again, lemma_fund_unknown_id, lemma_loan_ids_held,
    lemma_repay_before_funding, lemma_repay_by_other, lemma_repay_then_repay_again,
    lemma_request_ids_sequential, lemma_request_then_view, lemma_unknown_id_not_found,
};
