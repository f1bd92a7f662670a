//! The failure value: an immutable, fully rendered diagnostic for one failed
//! assertion, with its constructors and the two merge operations.

use vstd::prelude::*;
use vstd::string::StringExecFns;

use crate::message::detail_line;
use crate::message::indent_message;
use crate::message::indented;
use crate::message::merged_both;
use crate::message::merged_one;
use crate::message::opt_text;
use crate::message::rendered_one;
use crate::message::rendered_plain;
use crate::message::rendered_two;
use crate::message::with_annotation;

verus! {

/// The result of one assertion: pass, or fail with a rendered diagnostic.
pub type Outcome = Result<(), TestFailure>;

/// An assertion that did not hold. Carries nothing but its rendered
/// message; once built it is never edited, only merged into new failures.
pub struct TestFailure {
    error: String,
}

impl View for TestFailure {
    type V = Seq<char>;

    closed spec fn view(&self) -> Seq<char> {
        self.error@
    }
}

impl TestFailure {
    /// The rendered failure message.
    pub fn message(&self) -> (m: &str)
        ensures
            m@ == self@,
    {
        self.error.as_str()
    }

    /// A failed test whose report shows both operands: the header, the
    /// optional annotation, then one detail line per operand, first before
    /// second.
    pub fn test_failed_two_idents(
        message: &str,
        first_ident: &str,
        first_val: &str,
        second_ident: &str,
        second_val: &str,
        args: Option<&str>,
    ) -> (r: Self)
        ensures
            r@ == rendered_two(
                message@,
                first_ident@,
                first_val@,
                second_ident@,
                second_val@,
                opt_text(args),
            ),
    {
        let mut error = message.to_owned();
        if let Some(a) = args {
            error.append(": ");
            error.append(a);
        }
        error.append("\n");
        error.append(first_ident);
        error.append(": ");
        error.append(first_val);
        error.append("\n");
        error.append(second_ident);
        error.append(": ");
        error.append(second_val);
        proof {
            assert(error@ =~= with_annotation(message@, opt_text(args)) + detail_line(
                first_ident@,
                first_val@,
            ) + detail_line(second_ident@, second_val@));
        }
        TestFailure { error }
    }

    /// A failed test whose report shows one operand: the header, the
    /// optional annotation, then a single detail line.
    pub fn test_failed_one_ident(message: &str, ident: &str, val: &str, args: Option<&str>) -> (r:
        Self)
        ensures
            r@ == rendered_one(message@, ident@, val@, opt_text(args)),
    {
        let mut error = message.to_owned();
        if let Some(a) = args {
            error.append(": ");
            error.append(a);
        }
        error.append("\n");
        error.append(ident);
        error.append(": ");
        error.append(val);
        proof {
            assert(error@ =~= with_annotation(message@, opt_text(args)) + detail_line(
                ident@,
                val@,
            ));
        }
        TestFailure { error }
    }

    /// A failed test whose report is the header and the optional annotation
    /// alone, with no operand detail lines.
    pub fn test_failed_no_ident(message: &str, args: Option<&str>) -> (r: Self)
        ensures
            r@ == rendered_plain(message@, opt_text(args)),
    {
        let mut error = message.to_owned();
        if let Some(a) = args {
            error.append(": ");
            error.append(a);
        }
        proof {
            assert(error@ =~= with_annotation(message@, opt_text(args)));
        }
        TestFailure { error }
    }

    /// Merges two failed tests: both texts re-indented by one level and
    /// numbered, the first before the second.
    pub fn two_tests_failed(first: Self, second: Self, args: Option<&str>) -> (r: Self)
        ensures
            r@ == merged_both(first@, second@, opt_text(args)),
    {
        let first_indented = indent_message(first.error.as_str());
        let second_indented = indent_message(second.error.as_str());
        let mut error = "Both tests failed".to_owned();
        if let Some(a) = args {
            error.append(": ");
            error.append(a);
        }
        error.append("\n1: ");
        error.append(first_indented.as_str());
        error.append("\n2: ");
        error.append(second_indented.as_str());
        proof {
            assert(error@ =~= with_annotation("Both tests failed"@, opt_text(args)) + "\n1: "@
                + indented(first@) + "\n2: "@ + indented(second@));
        }
        TestFailure { error }
    }

    /// Merges one failed test: its text re-indented by one level, under the
    /// one-failure header.
    pub fn one_test_failed(failure: Self, args: Option<&str>) -> (r: Self)
        ensures
            r@ == merged_one(failure@, opt_text(args)),
    {
        let failure_indented = indent_message(failure.error.as_str());
        let mut error = "One of the tests failed".to_owned();
        if let Some(a) = args {
            error.append(": ");
            error.append(a);
        }
        error.append("\n   ");
        error.append(failure_indented.as_str());
        proof {
            assert(error@ =~= with_annotation("One of the tests failed"@, opt_text(args))
                + "\n   "@ + indented(failure@));
        }
        TestFailure { error }
    }
}

} // verus!
