use p2p_lending::{Address, Loan, LoanBook, LoanError, P2PLendingContract};

const BORROWER: &str = "GBORROWERXXXXXXXXXXXXXXXXXXXXXXXXXXXXXXXXXXXXXXXXXXXXXX";
const LENDER: &str = "GLENDERXXXXXXXXXXXXXXXXXXXXXXXXXXXXXXXXXXXXXXXXXXXXXXXXX";
const OTHER: &str = "GOTHERXXXXXXXXXXXXXXXXXXXXXXXXXXXXXXXXXXXXXXXXXXXXXXXXXXX";

fn addr(s: &str) -> Address {
    Address::from_str(s)
}

fn with_one_loan() -> P2PLendingContract {
    let mut reg = P2PLendingContract::new();
    assert_eq!(reg.request_loan(addr(BORROWER), 1000, 500, 86400, true), Ok(1));
    reg
}

fn assert_not_found(l: &Loan) {
    assert_eq!(l.loan_id, 0);
    assert!(!l.is_active);
    assert!(!l.is_repaid);
    assert_eq!(l.amount, 0);
    assert_eq!(l.interest_rate, 0);
    assert_eq!(l.duration, 0);
    assert_eq!(l.start_time, 0);
    assert_eq!(l.borrower.as_str(), "not_found");
    assert_eq!(l.lender.as_str(), "not_found");
}

#[test]
fn full_lifecycle_scenario() {
    let mut reg = P2PLendingContract::new();
    let id = reg.request_loan(addr(BORROWER), 1000, 500, 86400, true);
    assert_eq!(id, Ok(1));

    let v = reg.view_loan(1);
    assert_eq!(v.loan_id, 1);
    assert_eq!(v.amount, 1000);
    assert_eq!(v.interest_rate, 500);
    assert_eq!(v.duration, 86400);
    assert!(!v.is_active);
    assert!(!v.is_repaid);
    assert!(v.borrower == addr(BORROWER));

    assert_eq!(reg.fund_loan(1, addr(LENDER), true, 1_700_000_000), Ok(()));
    let v = reg.view_loan(1);
    assert!(v.is_active);
    assert!(!v.is_repaid);
    assert!(v.lender == addr(LENDER));
    assert!(v.start_time > 0);
    assert_eq!(v.start_time, 1_700_000_000);

    assert_eq!(reg.repay_loan(1, addr(BORROWER), true), Ok(()));
    let v = reg.view_loan(1);
    assert!(!v.is_active);
    assert!(v.is_repaid);

    assert_eq!(reg.repay_loan(1, addr(BORROWER), true), Err(LoanError::AlreadyRepaid));
}

#[test]
fn fund_never_created_id_fails() {
    let mut reg = with_one_loan();
    assert_eq!(reg.fund_loan(999, addr(LENDER), true, 10), Err(LoanError::LoanNotFound));
    let mut empty = P2PLendingContract::new();
    assert_eq!(empty.fund_loan(999, addr(LENDER), true, 10), Err(LoanError::LoanNotFound));
}

#[test]
fn ids_are_sequential_from_one() {
    let mut reg = P2PLendingContract::new();
    assert_eq!(reg.loan_count(), 0);
    for expected in 1..=5u64 {
        let id = reg.request_loan(addr(BORROWER), expected * 10, 100, 60, true);
        assert_eq!(id, Ok(expected));
        assert_eq!(reg.loan_count(), expected);
        assert_eq!(reg.view_loan(expected).loan_id, expected);
        assert_eq!(reg.view_loan(expected).amount, expected * 10);
    }
}

#[test]
fn unauthorized_request_changes_nothing() {
    let mut reg = with_one_loan();
    assert_eq!(
        reg.request_loan(addr(OTHER), 5, 5, 5, false),
        Err(LoanError::Unauthorized)
    );
    assert_eq!(reg.loan_count(), 1);
    assert_not_found(&reg.view_loan(2));
    assert_eq!(reg.request_loan(addr(OTHER), 5, 5, 5, true), Ok(2));
}

#[test]
fn view_unknown_id_is_sentinel_and_repeatable() {
    let reg = with_one_loan();
    for id in [0u64, 2, 999, u64::MAX] {
        let first = reg.view_loan(id);
        let second = reg.view_loan(id);
        assert_not_found(&first);
        assert_not_found(&second);
    }
    let empty = P2PLendingContract::new();
    assert_not_found(&empty.view_loan(1));
}

#[test]
fn requested_loan_has_placeholder_lender() {
    let reg = with_one_loan();
    let v = reg.view_loan(1);
    assert!(!v.is_active);
    assert!(!v.is_repaid);
    assert_eq!(v.start_time, 0);
    assert_eq!(v.lender.as_str(), "placeholder");
    assert!(v.lender == Address::placeholder());
}

#[test]
fn zero_amounts_are_accepted() {
    let mut reg = P2PLendingContract::new();
    assert_eq!(reg.request_loan(addr(BORROWER), 0, 0, 0, true), Ok(1));
    let v = reg.view_loan(1);
    assert_eq!(v.loan_id, 1);
    assert_eq!(v.amount, 0);
    let mut reg = P2PLendingContract::new();
    assert_eq!(reg.request_loan(addr(BORROWER), u64::MAX, u64::MAX, u64::MAX, true), Ok(1));
    assert_eq!(reg.view_loan(1).amount, u64::MAX);
}

#[test]
fn fund_twice_fails_and_keeps_record() {
    let mut reg = with_one_loan();
    assert_eq!(reg.fund_loan(1, addr(LENDER), true, 100), Ok(()));
    assert_eq!(reg.fund_loan(1, addr(OTHER), true, 200), Err(LoanError::AlreadyFunded));
    let v = reg.view_loan(1);
    assert!(v.lender == addr(LENDER));
    assert_eq!(v.start_time, 100);
    assert!(v.is_active);
}

#[test]
fn fund_repaid_loan_fails() {
    let mut reg = with_one_loan();
    assert_eq!(reg.fund_loan(1, addr(LENDER), true, 100), Ok(()));
    assert_eq!(reg.repay_loan(1, addr(BORROWER), true), Ok(()));
    assert_eq!(reg.fund_loan(1, addr(OTHER), true, 300), Err(LoanError::AlreadyFunded));
    let v = reg.view_loan(1);
    assert!(!v.is_active);
    assert!(v.is_repaid);
    assert!(v.lender == addr(LENDER));
}

#[test]
fn fund_unauthorized_fails() {
    let mut reg = with_one_loan();
    assert_eq!(reg.fund_loan(1, addr(LENDER), false, 100), Err(LoanError::Unauthorized));
    assert!(!reg.view_loan(1).is_active);
    assert_eq!(reg.fund_loan(999, addr(LENDER), false, 100), Err(LoanError::Unauthorized));
}

#[test]
fn repay_before_funding_fails_not_active() {
    let mut reg = with_one_loan();
    assert_eq!(reg.repay_loan(1, addr(BORROWER), true), Err(LoanError::NotActive));
    assert_eq!(reg.repay_loan(1, addr(OTHER), true), Err(LoanError::NotActive));
    let v = reg.view_loan(1);
    assert!(!v.is_active);
    assert!(!v.is_repaid);
}

#[test]
fn repay_by_non_borrower_fails() {
    let mut reg = with_one_loan();
    assert_eq!(reg.fund_loan(1, addr(LENDER), true, 100), Ok(()));
    assert_eq!(reg.repay_loan(1, addr(LENDER), true), Err(LoanError::NotBorrower));
    assert_eq!(reg.repay_loan(1, addr(OTHER), true), Err(LoanError::NotBorrower));
    let v = reg.view_loan(1);
    assert!(v.is_active);
    assert!(!v.is_repaid);
}

#[test]
fn repay_unknown_or_unauthorized_fails() {
    let mut reg = with_one_loan();
    assert_eq!(reg.repay_loan(7, addr(BORROWER), true), Err(LoanError::LoanNotFound));
    assert_eq!(reg.repay_loan(0, addr(BORROWER), true), Err(LoanError::LoanNotFound));
    assert_eq!(reg.fund_loan(1, addr(LENDER), true, 100), Ok(()));
    assert_eq!(reg.repay_loan(1, addr(BORROWER), false), Err(LoanError::Unauthorized));
    assert!(reg.view_loan(1).is_active);
}

#[test]
fn loans_are_independent() {
    let mut reg = P2PLendingContract::new();
    assert_eq!(reg.request_loan(addr(BORROWER), 1, 1, 1, true), Ok(1));
    assert_eq!(reg.request_loan(addr(OTHER), 2, 2, 2, true), Ok(2));
    assert_eq!(reg.fund_loan(2, addr(LENDER), true, 5), Ok(()));
    assert!(!reg.view_loan(1).is_active);
    assert!(reg.view_loan(2).is_active);
    assert_eq!(reg.repay_loan(2, addr(BORROWER), true), Err(LoanError::NotBorrower));
    assert_eq!(reg.repay_loan(2, addr(OTHER), true), Ok(()));
    assert!(reg.view_loan(2).is_repaid);
    assert!(!reg.view_loan(1).is_repaid);
}

#[test]
fn loan_transitions_on_records() {
    let requested = Loan::requested(3, addr(BORROWER), 10, 20, 30);
    assert_eq!(requested.loan_id, 3);
    assert_eq!(requested.lender.as_str(), "placeholder");
    let funded = requested.fund(&addr(LENDER), 42).unwrap();
    assert!(funded.is_active);
    assert_eq!(funded.start_time, 42);
    assert_eq!(funded.fund(&addr(OTHER), 43).err(), Some(LoanError::AlreadyFunded));
    let repaid = funded.repay(&addr(BORROWER)).unwrap();
    assert!(repaid.is_repaid);
    assert!(!repaid.is_active);
    assert_eq!(Loan::not_found().fund(&addr(LENDER), 1).err(), Some(LoanError::LoanNotFound));
    assert_eq!(Loan::not_found().repay(&addr(BORROWER)).err(), Some(LoanError::LoanNotFound));
}

#[test]
fn address_equality_follows_text() {
    assert!(addr(BORROWER) == addr(BORROWER));
    assert!(addr(BORROWER) != addr(LENDER));
    let s = String::from(LENDER);
    assert!(Address::from_string(&s) == addr(LENDER));
    assert_eq!(addr(OTHER).clone().as_str(), OTHER);
    assert!(Address::not_found() != Address::placeholder());
}

#[test]
fn storage_key_carries_id() {
    assert_eq!(LoanBook::Loan(4), LoanBook::Loan(4));
    assert_ne!(LoanBook::Loan(4), LoanBook::Loan(5));
}
