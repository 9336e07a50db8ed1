use crate::address::Address;
use crate::loan::{
    fund_outcome, loan_state_is_valid, not_found_loan, repay_outcome, requested_loan, Loan,
    LoanError, LoanView,
};
use vstd::prelude::*;

verus! {

/// The key under which a loan record is stored.
#[derive(Clone, Copy, Debug, PartialEq, Eq, Structural)]
pub enum LoanBook {
    Loan(u64),
}

/// The registry of loans: a counter of the loans requested so far and the
/// records, kept by id. Ids are handed out as 1, 2, 3, ... and never reused;
/// the view lists the records in that order.
pub struct P2PLendingContract {
    loan_count: u64,
    loans: Vec<Loan>,
}

/// The record that a lookup of `loan_id` in `book` answers with: the stored
/// loan, or the not-found record where none is stored under that id.
pub open spec fn loan_at(book: Seq<LoanView>, loan_id: u64) -> LoanView {
    if 1 <= loan_id <= book.len() {
        book[loan_id - 1]
    } else {
        not_found_loan()
    }
}

/// Each record carries its own id, which is its position plus one, and is
/// in a valid lifecycle state.
pub open spec fn book_is_valid(book: Seq<LoanView>) -> bool {
    forall|i: int|
        0 <= i < book.len() ==> #[trigger] book[i].loan_id == i + 1 && loan_state_is_valid(book[i])
}

/// `book` with the record under `loan_id` replaced by the result of a
/// transition, or unchanged where the transition failed.
pub open spec fn apply_outcome(book: Seq<LoanView>, loan_id: u64, r: Result<LoanView, LoanError>) -> Seq<LoanView> {
    match r {
        Ok(l) => book.update(loan_id - 1, l),
        Err(_) => book,
    }
}

/// The unit result of a transition.
pub open spec fn outcome_unit(r: Result<LoanView, LoanError>) -> Result<(), LoanError> {
    match r {
        Ok(_) => Ok(()),
        Err(e) => Err(e),
    }
}

impl View for P2PLendingContract {
    type V = Seq<LoanView>;

    closed spec fn view(&self) -> Seq<LoanView> {
        self.loans@.map_values(|l: Loan| l@)
    }
}

impl P2PLendingContract {
    /// The counter equals the number of records, and the records form a
    /// valid book.
    pub closed spec fn wf(&self) -> bool {
        &&& self.loan_count == self.loans@.len()
        &&& book_is_valid(self@)
    }

    /// What `wf` says of the view.
    pub proof fn lemma_wf(&self)
        requires
            self.wf(),
        ensures
            book_is_valid(self@),
            self@.len() <= u64::MAX,
    {
    }

    /// An empty registry: no loan, counter at 0.
    pub fn new() -> (r: P2PLendingContract)
        ensures
            r.wf(),
            r@ == Seq::<LoanView>::empty(),
    {
        let r = P2PLendingContract { loan_count: 0, loans: Vec::new() };
        assert(r@ =~= Seq::<LoanView>::empty());
        r
    }

    /// The number of loans requested so far, which is also the last id
    /// handed out.
    pub fn loan_count(&self) -> (r: u64)
        requires
            self.wf(),
        ensures
            r == self@.len(),
    {
        self.loan_count
    }

    /// The record stored under `key`, if any.
    fn get(&self, key: &LoanBook) -> (r: Option<Loan>)
        requires
            self.wf(),
        ensures
            match *key {
                LoanBook::Loan(id) => match r {
                    Some(l) => 1 <= id <= self@.len() && l@ == self@[id - 1],
                    None => !(1 <= id <= self@.len()),
                },
            },
    {
        match *key {
            LoanBook::Loan(id) => {
                let n: usize = self.loans.len();
                if 1 <= id && id <= self.loan_count {
                    assert(id - 1 < n);
                    let l = self.loans[(id - 1) as usize].clone();
                    Some(l)
                } else {
                    None
                }
            },
        }
    }

    /// The loan stored under `loan_id`, or the not-found record (id 0,
    /// both flags false) where there is none. Never fails.
    pub fn view_loan(&self, loan_id: u64) -> (r: Loan)
        requires
            self.wf(),
        ensures
            r@ == loan_at(self@, loan_id),
    {
        match self.get(&LoanBook::Loan(loan_id)) {
            Some(l) => l,
            None => Loan::not_found(),
        }
    }

    /// Records a new loan request by `borrower` under the next id and returns
    /// that id; fails with `Unauthorized`, changing nothing, where the
    /// borrower's identity was not authenticated.
    pub fn request_loan(
        &mut self,
        borrower: Address,
        amount: u64,
        interest_rate: u64,
        duration: u64,
        authorized: bool,
    ) -> (r: Result<u64, LoanError>)
        requires
            old(self).wf(),
            old(self)@.len() < u64::MAX,
        ensures
            final(self).wf(),
            authorized ==> {
                let id = (old(self)@.len() + 1) as u64;
                &&& r == Ok::<u64, LoanError>(id)
                &&& final(self)@ == old(self)@.push(
                    requested_loan(id, borrower@, amount, interest_rate, duration),
                )
            },
            !authorized ==> r == Err::<u64, LoanError>(LoanError::Unauthorized) && final(self)@
                == old(self)@,
    {
        if !authorized {
            return Err(LoanError::Unauthorized);
        }
        let id = self.loan_count + 1;
        let loan = Loan::requested(id, borrower, amount, interest_rate, duration);
        self.loans.push(loan);
        self.loan_count = id;
        assert(self@ =~= old(self)@.push(
            requested_loan(id, loan@.borrower, amount, interest_rate, duration),
        ));
        Ok(id)
    }

    /// Funds the loan under `loan_id` by `lender` at ledger time `now`.
    /// Fails with `Unauthorized` where the lender's identity was not
    /// authenticated, else with `LoanNotFound` or `AlreadyFunded` as the
    /// loan's record decides; a failed call changes nothing.
    pub fn fund_loan(&mut self, loan_id: u64, lender: Address, authorized: bool, now: u64) -> (r:
        Result<(), LoanError>)
        requires
            old(self).wf(),
        ensures
            final(self).wf(),
            authorized ==> {
                let o = fund_outcome(loan_at(old(self)@, loan_id), lender@, now);
                &&& r == outcome_unit(o)
                &&& final(self)@ == apply_outcome(old(self)@, loan_id, o)
            },
            !authorized ==> r == Err::<(), LoanError>(LoanError::Unauthorized) && final(self)@
                == old(self)@,
    {
        if !authorized {
            return Err(LoanError::Unauthorized);
        }
        let loan = self.view_loan(loan_id);
        match loan.fund(&lender, now) {
            Ok(funded) => {
                let n: usize = self.loans.len();
                assert(loan_id - 1 < n);
                self.loans[(loan_id - 1) as usize] = funded;
                assert(self@ =~= old(self)@.update(loan_id - 1, funded@));
                Ok(())
            },
            Err(e) => Err(e),
        }
    }

    /// Repays the loan under `loan_id` on behalf of `borrower`. Fails with
    /// `Unauthorized` where the caller's identity was not authenticated, else
    /// with `LoanNotFound`, `AlreadyRepaid`, `NotActive` or `NotBorrower` as
    /// the loan's record decides; a failed call changes nothing.
    pub fn repay_loan(&mut self, loan_id: u64, borrower: Address, authorized: bool) -> (r: Result<
        (),
        LoanError,
    >)
        requires
            old(self).wf(),
        ensures
            final(self).wf(),
            authorized ==> {
                let o = repay_outcome(loan_at(old(self)@, loan_id), borrower@);
                &&& r == outcome_unit(o)
                &&& final(self)@ == apply_outcome(old(self)@, loan_id, o)
            },
            !authorized ==> r == Err::<(), LoanError>(LoanError::Unauthorized) && final(self)@
                == old(self)@,
    {
        if !authorized {
            return Err(LoanError::Unauthorized);
        }
        let loan = self.view_loan(loan_id);
        match loan.repay(&borrower) {
            Ok(repaid) => {
                let n: usize = self.loans.len();
                assert(loan_id - 1 < n);
                self.loans[(loan_id - 1) as usize] = repaid;
                assert(self@ =~= old(self)@.update(loan_id - 1, repaid@));
                Ok(())
            },
            Err(e) => Err(e),
        }
    }
}

} // verus!
