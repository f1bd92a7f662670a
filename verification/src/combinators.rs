//! The two combinators over outcomes. AND requires both sides to pass and
//! reports every failure it received; OR forgives a failing branch when the
//! other one passed.

use vstd::prelude::*;

use crate::failure::Outcome;
use crate::failure::TestFailure;
use crate::message::merged_both;
use crate::message::merged_one;
use crate::message::opt_text;

verus! {

/// Passes only when both outcomes passed. A single failure is reported under
/// the one-failure header; two failures are merged under the two-failure
/// header, the first before the second.
pub fn and(first: Outcome, second: Outcome, annotation: Option<&str>) -> (r: Outcome)
    ensures
        first is Ok && second is Ok ==> r is Ok,
        first is Err && second is Err ==> r is Err && r->Err_0@ == merged_both(
            first->Err_0@,
            second->Err_0@,
            opt_text(annotation),
        ),
        first is Err && second is Ok ==> r is Err && r->Err_0@ == merged_one(
            first->Err_0@,
            opt_text(annotation),
        ),
        first is Ok && second is Err ==> r is Err && r->Err_0@ == merged_one(
            second->Err_0@,
            opt_text(annotation),
        ),
{
    match (first, second) {
        (Ok(()), Ok(())) => Ok(()),
        (Err(f), Err(s)) => Err(TestFailure::two_tests_failed(f, s, annotation)),
        (Err(f), Ok(())) => Err(TestFailure::one_test_failed(f, annotation)),
        (Ok(()), Err(s)) => Err(TestFailure::one_test_failed(s, annotation)),
    }
}

/// Passes when either outcome passed; the failing branch's detail is
/// discarded, since it did not cause an overall failure. Fails only when
/// both outcomes failed, merging both texts, the first before the second.
pub fn or(first: Outcome, second: Outcome, annotation: Option<&str>) -> (r: Outcome)
    ensures
        first is Ok || second is Ok ==> r is Ok,
        first is Err && second is Err ==> r is Err && r->Err_0@ == merged_both(
            first->Err_0@,
            second->Err_0@,
            opt_text(annotation),
        ),
{
    match (first, second) {
        (Err(f), Err(s)) => Err(TestFailure::two_tests_failed(f, s, annotation)),
        _ => Ok(()),
    }
}

} // verus!
