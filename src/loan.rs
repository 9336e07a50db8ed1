use crate::address::{not_found_text, placeholder_text, Address};
use vstd::prelude::*;

verus! {

/// Why a call on the registry was rejected.
#[derive(Clone, Copy, Debug, PartialEq, Eq, Structural)]
pub enum LoanError {
    /// The caller's identity was not authenticated for the call.
    Unauthorized,
    /// No loan is stored under the id.
    LoanNotFound,
    /// The loan has been funded already.
    AlreadyFunded,
    /// The loan is not funded, so there is nothing to repay.
    NotActive,
    /// The loan has been repaid already.
    AlreadyRepaid,
    /// Only the loan's borrower can repay it.
    NotBorrower,
}

/// The mathematical value of a loan record.
pub struct LoanView {
    pub loan_id: u64,
    pub borrower: Seq<char>,
    pub lender: Seq<char>,
    pub amount: u64,
    pub interest_rate: u64,
    pub duration: u64,
    pub start_time: u64,
    pub is_active: bool,
    pub is_repaid: bool,
}

/// A loan record. `loan_id == 0` marks the record that stands for a
/// missing loan.
pub struct Loan {
    pub loan_id: u64,
    pub borrower: Address,
    pub lender: Address,
    pub amount: u64,
    /// In basis points (10000 is 100%).
    pub interest_rate: u64,
    /// In seconds.
    pub duration: u64,
    pub start_time: u64,
    pub is_active: bool,
    pub is_repaid: bool,
}

impl View for Loan {
    type V = LoanView;

    open spec fn view(&self) -> LoanView {
        LoanView {
            loan_id: self.loan_id,
            borrower: self.borrower@,
            lender: self.lender@,
            amount: self.amount,
            interest_rate: self.interest_rate,
            duration: self.duration,
            start_time: self.start_time,
            is_active: self.is_active,
            is_repaid: self.is_repaid,
        }
    }
}

/// The record that a lookup of a missing loan answers with.
pub open spec fn not_found_loan() -> LoanView {
    LoanView {
        loan_id: 0,
        borrower: not_found_text(),
        lender: not_found_text(),
        amount: 0,
        interest_rate: 0,
        duration: 0,
        start_time: 0,
        is_active: false,
        is_repaid: false,
    }
}

/// A freshly requested loan: nobody has funded it yet.
pub open spec fn requested_loan(
    loan_id: u64,
    borrower: Seq<char>,
    amount: u64,
    interest_rate: u64,
    duration: u64,
) -> LoanView {
    LoanView {
        loan_id,
        borrower,
        lender: placeholder_text(),
        amount,
        interest_rate,
        duration,
        start_time: 0,
        is_active: false,
        is_repaid: false,
    }
}

/// The loan is requested and waits for a lender.
pub open spec fn is_requested(l: LoanView) -> bool {
    !l.is_active && !l.is_repaid
}

/// The loan is funded and waits for repayment.
pub open spec fn is_funded(l: LoanView) -> bool {
    l.is_active && !l.is_repaid
}

/// The loan is repaid; no further transition exists.
pub open spec fn is_repaid(l: LoanView) -> bool {
    !l.is_active && l.is_repaid
}

/// A stored loan is in one of the three lifecycle states, and one that is
/// still requested has no lender and no start time.
pub open spec fn loan_state_is_valid(l: LoanView) -> bool {
    ||| is_requested(l) && l.lender == placeholder_text() && l.start_time == 0
    ||| is_funded(l)
    ||| is_repaid(l)
}

/// What funding the loan `l` by `lender` at time `now` yields.
pub open spec fn fund_outcome(l: LoanView, lender: Seq<char>, now: u64) -> Result<LoanView, LoanError> {
    if l.loan_id == 0 {
        Err(LoanError::LoanNotFound)
    } else if !is_requested(l) {
        Err(LoanError::AlreadyFunded)
    } else {
        Ok(LoanView { lender, is_active: true, start_time: now, ..l })
    }
}

/// What repaying the loan `l` by `caller` yields.
pub open spec fn repay_outcome(l: LoanView, caller: Seq<char>) -> Result<LoanView, LoanError> {
    if l.loan_id == 0 {
        Err(LoanError::LoanNotFound)
    } else if l.is_repaid {
        Err(LoanError::AlreadyRepaid)
    } else if !l.is_active {
        Err(LoanError::NotActive)
    } else if l.borrower != caller {
        Err(LoanError::NotBorrower)
    } else {
        Ok(LoanView { is_active: false, is_repaid: true, ..l })
    }
}

/// The value of a transition's result.
pub open spec fn outcome_view(r: Result<Loan, LoanError>) -> Result<LoanView, LoanError> {
    match r {
        Ok(l) => Ok(l@),
        Err(e) => Err(e),
    }
}

impl Loan {
    /// A new loan request by `borrower`, stored under `loan_id`.
    pub fn requested(
        loan_id: u64,
        borrower: Address,
        amount: u64,
        interest_rate: u64,
        duration: u64,
    ) -> (r: Loan)
        ensures
            r@ == requested_loan(loan_id, borrower@, amount, interest_rate, duration),
    {
        Loan {
            loan_id,
            borrower,
            lender: Address::placeholder(),
            amount,
            interest_rate,
            duration,
            start_time: 0,
            is_active: false,
            is_repaid: false,
        }
    }

    /// The record that stands for a missing loan.
    pub fn not_found() -> (r: Loan)
        ensures
            r@ == not_found_loan(),
    {
        Loan {
            loan_id: 0,
            borrower: Address::not_found(),
            lender: Address::not_found(),
            amount: 0,
            interest_rate: 0,
            duration: 0,
            start_time: 0,
            is_active: false,
            is_repaid: false,
        }
    }

    /// This loan funded by `lender` at time `now`; fails on the record of a
    /// missing loan and on a loan that was funded before.
    pub fn fund(&self, lender: &Address, now: u64) -> (r: Result<Loan, LoanError>)
        ensures
            outcome_view(r) == fund_outcome(self@, lender@, now),
    {
        if self.loan_id == 0 {
            return Err(LoanError::LoanNotFound);
        }
        if self.is_active || self.is_repaid {
            return Err(LoanError::AlreadyFunded);
        }
        let mut loan = self.clone();
        loan.lender = lender.clone();
        loan.is_active = true;
        loan.start_time = now;
        Ok(loan)
    }

    /// This loan repaid by `caller`; fails on the record of a missing loan,
    /// on a repaid loan, on an unfunded loan, and where `caller` is not the
    /// borrower, checked in that order.
    pub fn repay(&self, caller: &Address) -> (r: Result<Loan, LoanError>)
        ensures
            outcome_view(r) == repay_outcome(self@, caller@),
    {
        if self.loan_id == 0 {
            return Err(LoanError::LoanNotFound);
        }
        if self.is_repaid {
            return Err(LoanError::AlreadyRepaid);
        }
        if !self.is_active {
            return Err(LoanError::NotActive);
        }
        if self.borrower != *caller {
            return Err(LoanError::NotBorrower);
        }
        let mut loan = self.clone();
        loan.is_repaid = true;
        loan.is_active = false;
        Ok(loan)
    }
}

impl Clone for Loan {
    fn clone(&self) -> (r: Loan)
        ensures
            r@ == self@,
    {
        Loan {
            loan_id: self.loan_id,
            borrower: self.borrower.clone(),
            lender: self.lender.clone(),
            amount: self.amount,
            interest_rate: self.interest_rate,
            duration: self.duration,
            start_time: self.start_time,
            is_active: self.is_active,
            is_repaid: self.is_repaid,
        }
    }
}

} // verus!
