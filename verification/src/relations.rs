//! The six comparison predicates. Each evaluates one relation on two
//! operands and, on mismatch, renders a diagnostic naming the relation that
//! was expected and showing the operands that broke it.

use vstd::prelude::*;
use vstd::slice::slice_index_get;
use vstd::std_specs::cmp::PartialEqSpec;
use vstd::std_specs::cmp::PartialOrdSpec;

use core::cmp::Ordering;

use crate::failure::Outcome;
use crate::failure::TestFailure;
use crate::message::failure_message;
use crate::message::opt_text;
use crate::message::OperandView;
use crate::message::Relation;

verus! {

/// One operand as the caller saw it: its source-level text, the debug
/// rendering of its runtime value, and whether it was a literal. A literal
/// is self-evident, so it appears in the failure header only and gets no
/// detail line of its own.
pub struct Operand<'a> {
    pub text: &'a str,
    pub value: &'a str,
    pub literal: bool,
}

impl<'a> View for Operand<'a> {
    type V = OperandView;

    open spec fn view(&self) -> OperandView {
        OperandView { text: self.text@, value: self.value@, literal: self.literal }
    }
}

impl<'a> Operand<'a> {
    /// A named operand: an expression with its source text and the debug
    /// rendering of its value.
    pub fn expression(text: &'a str, value: &'a str) -> (o: Self)
        ensures
            o@ == (OperandView { text: text@, value: value@, literal: false }),
    {
        Operand { text, value, literal: false }
    }

    /// A literal operand: its text alone identifies it, so no detail line
    /// is rendered for it.
    pub fn literal(text: &'a str) -> (o: Self)
        ensures
            o@ == (OperandView { text: text@, value: text@, literal: true }),
    {
        Operand { text, value: text, literal: true }
    }
}

/// Builds the failure value for a relation that did not hold, picking which
/// operands earn a detail line: a literal right hides its line, then a
/// literal left, and two expressions are both shown, left before right.
fn report(rel: Relation, left: &Operand, right: &Operand, annotation: Option<&str>) -> (f:
    TestFailure)
    ensures
        f@ == failure_message(rel, left@, right@, opt_text(annotation)),
{
    let mut header: String = String::new();
    match rel {
        Relation::Any => {
            header.append("Test failed: !");
            header.append(right.text);
            header.append(".contains(");
            header.append(left.text);
            header.append(")");
        },
        Relation::NotAny => {
            header.append("Test failed: ");
            header.append(right.text);
            header.append(".contains(");
            header.append(left.text);
            header.append(")");
        },
        _ => {
            header.append("Test failed: ");
            header.append(left.text);
            let symbol: &str = match rel {
                Relation::Equal => " != ",
                Relation::NotEqual => " == ",
                Relation::LessOrEqual => " > ",
                _ => " < ",
            };
            header.append(symbol);
            header.append(right.text);
        },
    }
    proof {
        assert(header@ =~= crate::message::failure_header(rel, left.text@, right.text@));
    }
    if right.literal {
        TestFailure::test_failed_one_ident(header.as_str(), left.text, left.value, annotation)
    } else if left.literal {
        TestFailure::test_failed_one_ident(header.as_str(), right.text, right.value, annotation)
    } else {
        TestFailure::test_failed_two_idents(
            header.as_str(),
            left.text,
            left.value,
            right.text,
            right.value,
            annotation,
        )
    }
}

/// When `equal` passes: the operands compare equal.
pub open spec fn equal_passes<T: PartialEq<U> + ?Sized, U: ?Sized>(left: &T, right: &U) -> bool {
    left.eq_spec(right)
}

/// When `not_equal` passes: the operands compare unequal.
pub open spec fn not_equal_passes<T: PartialEq<U> + ?Sized, U: ?Sized>(
    left: &T,
    right: &U,
) -> bool {
    !left.eq_spec(right)
}

/// When `less_or_equal` passes: the left operand orders at or below the
/// right one.
pub open spec fn less_or_equal_passes<T: PartialOrd<U> + ?Sized, U: ?Sized>(
    left: &T,
    right: &U,
) -> bool {
    left.partial_cmp_spec(right) matches Some(Ordering::Less | Ordering::Equal)
}

/// When `greater_or_equal` passes: the left operand orders at or above the
/// right one.
pub open spec fn greater_or_equal_passes<T: PartialOrd<U> + ?Sized, U: ?Sized>(
    left: &T,
    right: &U,
) -> bool {
    left.partial_cmp_spec(right) matches Some(Ordering::Greater | Ordering::Equal)
}

/// When `any` passes: some element of the right operand equals the left one.
pub open spec fn any_passes<T: PartialEq>(left: &T, right: Seq<T>) -> bool {
    exists|j: int| 0 <= j < right.len() && #[trigger] right[j].eq_spec(left)
}

/// Passes when the operands are equal; fails rendering `!=`, the relation
/// the caller expected.
pub fn equal<T: PartialEq<U> + ?Sized, U: ?Sized>(
    left: &T,
    right: &U,
    left_op: &Operand,
    right_op: &Operand,
    annotation: Option<&str>,
) -> (r: Outcome)
    ensures
        T::obeys_eq_spec() ==> (r is Ok <==> equal_passes(left, right)),
        r is Err ==> r->Err_0@ == failure_message(
            Relation::Equal,
            left_op@,
            right_op@,
            opt_text(annotation),
        ),
{
    if left.eq(right) {
        Ok(())
    } else {
        Err(report(Relation::Equal, left_op, right_op, annotation))
    }
}

/// Passes when the operands are unequal; fails rendering `==`.
pub fn not_equal<T: PartialEq<U> + ?Sized, U: ?Sized>(
    left: &T,
    right: &U,
    left_op: &Operand,
    right_op: &Operand,
    annotation: Option<&str>,
) -> (r: Outcome)
    ensures
        T::obeys_eq_spec() ==> (r is Ok <==> not_equal_passes(left, right)),
        r is Err ==> r->Err_0@ == failure_message(
            Relation::NotEqual,
            left_op@,
            right_op@,
            opt_text(annotation),
        ),
{
    if left.ne(right) {
        Ok(())
    } else {
        Err(report(Relation::NotEqual, left_op, right_op, annotation))
    }
}

/// Passes when left orders at or below right; fails rendering `>`.
pub fn less_or_equal<T: PartialOrd<U> + ?Sized, U: ?Sized>(
    left: &T,
    right: &U,
    left_op: &Operand,
    right_op: &Operand,
    annotation: Option<&str>,
) -> (r: Outcome)
    ensures
        T::obeys_partial_cmp_spec() ==> (r is Ok <==> less_or_equal_passes(left, right)),
        r is Err ==> r->Err_0@ == failure_message(
            Relation::LessOrEqual,
            left_op@,
            right_op@,
            opt_text(annotation),
        ),
{
    if left.le(right) {
        Ok(())
    } else {
        Err(report(Relation::LessOrEqual, left_op, right_op, annotation))
    }
}

/// Passes when left orders at or above right; fails rendering `<`.
pub fn greater_or_equal<T: PartialOrd<U> + ?Sized, U: ?Sized>(
    left: &T,
    right: &U,
    left_op: &Operand,
    right_op: &Operand,
    annotation: Option<&str>,
) -> (r: Outcome)
    ensures
        T::obeys_partial_cmp_spec() ==> (r is Ok <==> greater_or_equal_passes(left, right)),
        r is Err ==> r->Err_0@ == failure_message(
            Relation::GreaterOrEqual,
            left_op@,
            right_op@,
            opt_text(annotation),
        ),
{
    if left.ge(right) {
        Ok(())
    } else {
        Err(report(Relation::GreaterOrEqual, left_op, right_op, annotation))
    }
}

/// Passes when some element of `right` equals `left`; fails rendering the
/// missing membership.
pub fn any<T: PartialEq>(
    left: &T,
    right: &[T],
    left_op: &Operand,
    right_op: &Operand,
    annotation: Option<&str>,
) -> (r: Outcome)
    ensures
        T::obeys_eq_spec() ==> (r is Ok <==> any_passes(left, right@)),
        r is Err ==> r->Err_0@ == failure_message(
            Relation::Any,
            left_op@,
            right_op@,
            opt_text(annotation),
        ),
{
    let mut i: usize = 0;
    while i < right.len()
        invariant
            i <= right@.len(),
            T::obeys_eq_spec() ==> forall|j: int| 0 <= j < i ==> !(#[trigger] right@[j].eq_spec(
                left,
            )),
        decreases right@.len() - i,
    {
        if slice_index_get(right, i).eq(left) {
            return Ok(());
        }
        i = i + 1;
    }
    Err(report(Relation::Any, left_op, right_op, annotation))
}

/// Passes when no element of `right` equals `left`; fails rendering the
/// membership that held.
pub fn not_any<T: PartialEq>(
    left: &T,
    right: &[T],
    left_op: &Operand,
    right_op: &Operand,
    annotation: Option<&str>,
) -> (r: Outcome)
    ensures
        T::obeys_eq_spec() ==> (r is Ok <==> !any_passes(left, right@)),
        r is Err ==> r->Err_0@ == failure_message(
            Relation::NotAny,
            left_op@,
            right_op@,
            opt_text(annotation),
        ),
{
    let mut i: usize = 0;
    while i < right.len()
        invariant
            i <= right@.len(),
            T::obeys_eq_spec() ==> forall|j: int| 0 <= j < i ==> !(#[trigger] right@[j].eq_spec(
                left,
            )),
        decreases right@.len() - i,
    {
        if slice_index_get(right, i).eq(left) {
            return Err(report(Relation::NotAny, left_op, right_op, annotation));
        }
        i = i + 1;
    }
    Ok(())
}

} // verus!
