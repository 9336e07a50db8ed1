use crate::address::placeholder_text;
use crate::loan::{
    fund_outcome, is_funded, is_repaid, is_requested, not_found_loan, repay_outcome,
    requested_loan, LoanError, LoanView,
};
use crate::registry::{apply_outcome, book_is_valid, loan_at};
use vstd::prelude::*;

verus! {

/// A loan request: borrower, amount, interest rate, duration.
pub type RequestArgs = (Seq<char>, u64, u64, u64);

/// The book after the authorized requests `reqs` were made on `book`, one
/// after another, each recorded under the next id.
pub open spec fn after_requests(book: Seq<LoanView>, reqs: Seq<RequestArgs>) -> Seq<LoanView>
    decreases reqs.len(),
{
    if reqs.len() == 0 {
        book
    } else {
        let before = after_requests(book, reqs.drop_last());
        let q = reqs.last();
        before.push(requested_loan((before.len() + 1) as u64, q.0, q.1, q.2, q.3))
    }
}

/// Any run of requests on a valid book hands out the ids that follow the
/// last one, in increasing order with no gap and no repeat, and keeps the
/// loans that were there. From an empty registry the ids are 1, 2, 3, ...
pub proof fn lemma_request_ids_sequential(book: Seq<LoanView>, reqs: Seq<RequestArgs>)
    requires
        book_is_valid(book),
        book.len() + reqs.len() <= u64::MAX,
    ensures
        after_requests(book, reqs).len() == book.len() + reqs.len(),
        book_is_valid(after_requests(book, reqs)),
        after_requests(book, reqs).subrange(0, book.len() as int) == book,
        forall|j: int|
            0 <= j < reqs.len() ==> #[trigger] after_requests(book, reqs)[book.len() + j].loan_id
                == book.len() + j + 1,
    decreases reqs.len(),
{
    if reqs.len() > 0 {
        let prev = reqs.drop_last();
        lemma_request_ids_sequential(book, prev);
        let before = after_requests(book, prev);
        let after = after_requests(book, reqs);
        assert(after.subrange(0, book.len() as int) =~= book) by {
            assert(before.subrange(0, book.len() as int) == book);
        }
        assert forall|j: int| 0 <= j < reqs.len() implies #[trigger] after[book.len() + j].loan_id
            == book.len() + j + 1 by {
            if j < prev.len() {
                assert(after[book.len() + j] == before[book.len() + j]);
            }
        }
    }
}

/// In a valid book a lookup finds a loan exactly under the ids 1 to the
/// number of loans, and each record carries the id it is found under.
pub proof fn lemma_loan_ids_held(book: Seq<LoanView>, loan_id: u64)
    requires
        book_is_valid(book),
    ensures
        loan_at(book, loan_id).loan_id != 0 <==> 1 <= loan_id <= book.len(),
        loan_at(book, loan_id).loan_id != 0 ==> loan_at(book, loan_id).loan_id == loan_id,
{
}

/// A lookup of an id that no request was given answers with the not-found
/// record: id 0, neither active nor repaid.
pub proof fn lemma_unknown_id_not_found(book: Seq<LoanView>, loan_id: u64)
    requires
        book_is_valid(book),
        !(1 <= loan_id <= book.len()),
    ensures
        loan_at(book, loan_id) == not_found_loan(),
        loan_at(book, loan_id).loan_id == 0,
        !loan_at(book, loan_id).is_active,
        !loan_at(book, loan_id).is_repaid,
{
}

/// After a request, the new id looks up a loan that is neither active nor
/// repaid, whose lender is the placeholder and whose other fields are the
/// request's; the other ids look up what they did before.
pub proof fn lemma_request_then_view(
    book: Seq<LoanView>,
    borrower: Seq<char>,
    amount: u64,
    interest_rate: u64,
    duration: u64,
)
    requires
        book_is_valid(book),
        book.len() < u64::MAX,
    ensures
        ({
            let id = (book.len() + 1) as u64;
            let after = book.push(requested_loan(id, borrower, amount, interest_rate, duration));
            &&& book_is_valid(after)
            &&& loan_at(after, id) == requested_loan(id, borrower, amount, interest_rate, duration)
            &&& !loan_at(after, id).is_active
            &&& !loan_at(after, id).is_repaid
            &&& loan_at(after, id).lender == placeholder_text()
            &&& loan_at(after, id).borrower == borrower
            &&& loan_at(after, id).amount == amount
            &&& forall|other: u64| other != id ==> #[trigger] loan_at(after, other) == loan_at(book, other)
        }),
{
    let id = (book.len() + 1) as u64;
    let after = book.push(requested_loan(id, borrower, amount, interest_rate, duration));
    assert forall|i: int| 0 <= i < after.len() implies #[trigger] after[i].loan_id == i + 1
        && crate::loan::loan_state_is_valid(after[i]) by {
        if i < book.len() {
            assert(after[i] == book[i]);
        }
    }
}

/// Funding a requested loan makes it active, with the funder as lender and
/// the ledger time as start time (so a start time above 0 at any time above
/// 0); funding it once more fails with `AlreadyFunded` and changes nothing.
pub proof fn lemma_fund_then_fund_again(
    book: Seq<LoanView>,
    loan_id: u64,
    lender: Seq<char>,
    now: u64,
    second_lender: Seq<char>,
    later: u64,
)
    requires
        book_is_valid(book),
        1 <= loan_id <= book.len(),
        is_requested(loan_at(book, loan_id)),
    ensures
        ({
            let o = fund_outcome(loan_at(book, loan_id), lender, now);
            let after = apply_outcome(book, loan_id, o);
            let again = fund_outcome(loan_at(after, loan_id), second_lender, later);
            &&& o is Ok
            &&& book_is_valid(after)
            &&& loan_at(after, loan_id).is_active
            &&& !loan_at(after, loan_id).is_repaid
            &&& loan_at(after, loan_id).lender == lender
            &&& loan_at(after, loan_id).start_time == now
            &&& (now > 0 ==> loan_at(after, loan_id).start_time > 0)
            &&& again == Err::<LoanView, LoanError>(LoanError::AlreadyFunded)
            &&& apply_outcome(after, loan_id, again) == after
        }),
{
    let o = fund_outcome(loan_at(book, loan_id), lender, now);
    let after = apply_outcome(book, loan_id, o);
    assert forall|i: int| 0 <= i < after.len() implies #[trigger] after[i].loan_id == i + 1
        && crate::loan::loan_state_is_valid(after[i]) by {
        assert(book[i].loan_id == i + 1);
        if i != loan_id - 1 {
            assert(after[i] == book[i]);
        }
    }
}

/// Funding an id that no request was given fails with `LoanNotFound` and
/// changes nothing.
pub proof fn lemma_fund_unknown_id(book: Seq<LoanView>, loan_id: u64, lender: Seq<char>, now: u64)
    requires
        book_is_valid(book),
        !(1 <= loan_id <= book.len()),
    ensures
        fund_outcome(loan_at(book, loan_id), lender, now) == Err::<LoanView, LoanError>(
            LoanError::LoanNotFound,
        ),
        apply_outcome(book, loan_id, fund_outcome(loan_at(book, loan_id), lender, now)) == book,
{
}

/// Repaying a funded loan by its borrower marks it repaid and no longer
/// active; repaying it once more fails with `AlreadyRepaid` and changes
/// nothing.
pub proof fn lemma_repay_then_repay_again(book: Seq<LoanView>, loan_id: u64)
    requires
        book_is_valid(book),
        1 <= loan_id <= book.len(),
        is_funded(loan_at(book, loan_id)),
    ensures
        ({
            let borrower = loan_at(book, loan_id).borrower;
            let o = repay_outcome(loan_at(book, loan_id), borrower);
            let after = apply_outcome(book, loan_id, o);
            let again = repay_outcome(loan_at(after, loan_id), borrower);
            &&& o is Ok
            &&& book_is_valid(after)
            &&& loan_at(after, loan_id).is_repaid
            &&& !loan_at(after, loan_id).is_active
            &&& is_repaid(loan_at(after, loan_id))
            &&& again == Err::<LoanView, LoanError>(LoanError::AlreadyRepaid)
            &&& apply_outcome(after, loan_id, again) == after
        }),
{
    let borrower = loan_at(book, loan_id).borrower;
    let o = repay_outcome(loan_at(book, loan_id), borrower);
    let after = apply_outcome(book, loan_id, o);
    assert forall|i: int| 0 <= i < after.len() implies #[trigger] after[i].loan_id == i + 1
        && crate::loan::loan_state_is_valid(after[i]) by {
        assert(book[i].loan_id == i + 1);
        if i != loan_id - 1 {
            assert(after[i] == book[i]);
        }
    }
}

/// Repaying a loan that nobody has funded fails with `NotActive`, whoever
/// calls.
pub proof fn lemma_repay_before_funding(book: Seq<LoanView>, loan_id: u64, caller: Seq<char>)
    requires
        book_is_valid(book),
        1 <= loan_id <= book.len(),
        is_requested(loan_at(book, loan_id)),
    ensures
        repay_outcome(loan_at(book, loan_id), caller) == Err::<LoanView, LoanError>(
            LoanError::NotActive,
        ),
{
}

/// Repaying a funded loan by anyone but its borrower fails with
/// `NotBorrower`.
pub proof fn lemma_repay_by_other(book: Seq<LoanView>, loan_id: u64, caller: Seq<char>)
    requires
        book_is_valid(book),
        1 <= loan_id <= book.len(),
        is_funded(loan_at(book, loan_id)),
        caller != loan_at(book, loan_id).borrower,
    ensures
        repay_outcome(loan_at(book, loan_id), caller) == Err::<LoanView, LoanError>(
            LoanError::NotBorrower,
        ),
{
}

} // verus!
