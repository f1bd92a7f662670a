//! Laws that relate the predicates and the rendered diagnostics to one
//! another, stated over the same spec functions the contracts use.

use vstd::prelude::*;
use vstd::std_specs::cmp::PartialEqSpec;
use vstd::std_specs::cmp::PartialOrdSpec;

use core::cmp::Ordering;

use crate::message::contains_text;
use crate::message::detail_line;
use crate::message::failure_header;
use crate::message::failure_message;
use crate::message::indented;
use crate::message::lemma_contains_middle;
use crate::message::merged_both;
use crate::message::merged_one;
use crate::message::with_annotation;
use crate::message::OperandView;
use crate::message::Relation;
use crate::relations::equal_passes;
use crate::relations::greater_or_equal_passes;
use crate::relations::less_or_equal_passes;
use crate::relations::not_equal_passes;

verus! {

/// Law: `equal` and `not_equal` are complementary. For any two values,
/// exactly one of the two predicates passes.
pub proof fn lemma_equal_not_equal_complementary<T: PartialEq<U> + ?Sized, U: ?Sized>(
    left: &T,
    right: &U,
)
    ensures
        equal_passes(left, right) <==> !not_equal_passes(left, right),
{
}

/// Law: `less_or_equal(a, b)` passes exactly when `greater_or_equal(b, a)`
/// does, for every type whose ordering obeys the usual comparison laws, as
/// the orderings of the primitive types do.
pub proof fn lemma_le_ge_mirror<T: PartialOrd>(left: &T, right: &T)
    requires
        vstd::laws_cmp::obeys_partial_cmp_spec_properties::<T>(),
    ensures
        less_or_equal_passes(left, right) <==> greater_or_equal_passes(right, left),
{
    reveal(vstd::laws_cmp::obeys_partial_cmp_spec_properties);
    reveal(vstd::laws_eq::obeys_eq_spec_properties);
    let a = *left;
    let b = *right;
    if a.partial_cmp_spec(&b) == Some(Ordering::Equal) {
        assert(a.eq_spec(&b));
        assert(b.eq_spec(&a));
        assert(b.partial_cmp_spec(&a) == Some(Ordering::Equal));
    }
    if b.partial_cmp_spec(&a) == Some(Ordering::Equal) {
        assert(b.eq_spec(&a));
        assert(a.eq_spec(&b));
        assert(a.partial_cmp_spec(&b) == Some(Ordering::Equal));
    }
    assert(a.partial_cmp_spec(&b) == Some(Ordering::Less) <==> b.partial_cmp_spec(&a) == Some(
        Ordering::Greater,
    ));
}

/// What a prefix holds, the whole holds.
proof fn lemma_contains_extends(a: Seq<char>, b: Seq<char>, needle: Seq<char>)
    requires
        contains_text(a, needle),
    ensures
        contains_text(a + b, needle),
{
    let k = choose|k: int|
        0 <= k && k + needle.len() <= a.len() && #[trigger] a.subrange(k, k + needle.len() as int)
            == needle;
    assert((a + b).subrange(k, k + needle.len() as int) =~= a.subrange(
        k,
        k + needle.len() as int,
    ));
}

/// Every relation's failure header shows both operands' source texts.
proof fn lemma_header_shows_texts(rel: Relation, left_text: Seq<char>, right_text: Seq<char>)
    ensures
        contains_text(failure_header(rel, left_text, right_text), left_text),
        contains_text(failure_header(rel, left_text, right_text), right_text),
{
    let header = failure_header(rel, left_text, right_text);
    match rel {
        Relation::Any => {
            assert(header =~= "Test failed: !"@ + right_text + (".contains("@ + left_text
                + ")"@));
            lemma_contains_middle("Test failed: !"@, right_text, ".contains("@ + left_text + ")"@);
            assert(header =~= ("Test failed: !"@ + right_text + ".contains("@) + left_text
                + ")"@);
            lemma_contains_middle(
                "Test failed: !"@ + right_text + ".contains("@,
                left_text,
                ")"@,
            );
        },
        Relation::NotAny => {
            assert(header =~= "Test failed: "@ + right_text + (".contains("@ + left_text + ")"@));
            lemma_contains_middle("Test failed: "@, right_text, ".contains("@ + left_text + ")"@);
            assert(header =~= ("Test failed: "@ + right_text + ".contains("@) + left_text + ")"@);
            lemma_contains_middle("Test failed: "@ + right_text + ".contains("@, left_text, ")"@);
        },
        _ => {
            let symbol = match rel {
                Relation::Equal => " != "@,
                Relation::NotEqual => " == "@,
                Relation::LessOrEqual => " > "@,
                _ => " < "@,
            };
            assert(header =~= "Test failed: "@ + left_text + (symbol + right_text));
            lemma_contains_middle("Test failed: "@, left_text, symbol + right_text);
            assert(header =~= ("Test failed: "@ + left_text + symbol) + right_text
                + Seq::<char>::empty());
            lemma_contains_middle(
                "Test failed: "@ + left_text + symbol,
                right_text,
                Seq::<char>::empty(),
            );
        },
    }
}

/// Law: the failure text of any relation shows both operands' source texts
/// (a literal's text stands inline in the header), and shows the rendered
/// value of every operand that earned a detail line: the left one when the
/// right is a literal, the right one when only the left is a literal, and
/// both, left before right, when both are expressions.
#[verifier::rlimit(50)]
pub proof fn lemma_failure_shows_operands(
    rel: Relation,
    left: OperandView,
    right: OperandView,
    annotation: Option<Seq<char>>,
)
    ensures
        contains_text(failure_message(rel, left, right, annotation), left.text),
        contains_text(failure_message(rel, left, right, annotation), right.text),
        right.literal ==> contains_text(failure_message(rel, left, right, annotation), left.value),
        left.literal && !right.literal ==> contains_text(
            failure_message(rel, left, right, annotation),
            right.value,
        ),
        !left.literal && !right.literal ==> contains_text(
            failure_message(rel, left, right, annotation),
            left.value,
        ) && contains_text(failure_message(rel, left, right, annotation), right.value),
{
    let msg = failure_message(rel, left, right, annotation);
    let header = failure_header(rel, left.text, right.text);
    let ann_part = match annotation {
        Some(a) => ": "@ + a,
        None => Seq::<char>::empty(),
    };
    let details = if right.literal {
        detail_line(left.text, left.value)
    } else if left.literal {
        detail_line(right.text, right.value)
    } else {
        detail_line(left.text, left.value) + detail_line(right.text, right.value)
    };
    let tail = ann_part + details;
    assert(msg =~= header + tail);

    lemma_header_shows_texts(rel, left.text, right.text);
    lemma_contains_extends(header, tail, left.text);
    lemma_contains_extends(header, tail, right.text);

    let head = with_annotation(header, annotation);
    if right.literal {
        let before_value = head + "\n"@ + left.text + ": "@;
        assert(msg =~= before_value + left.value + Seq::<char>::empty());
        lemma_contains_middle(before_value, left.value, Seq::<char>::empty());
    } else if left.literal {
        let before_value = head + "\n"@ + right.text + ": "@;
        assert(msg =~= before_value + right.value + Seq::<char>::empty());
        lemma_contains_middle(before_value, right.value, Seq::<char>::empty());
    } else {
        let second_detail = detail_line(right.text, right.value);
        let before_left_value = head + "\n"@ + left.text + ": "@;
        assert(msg =~= before_left_value + left.value + second_detail);
        lemma_contains_middle(before_left_value, left.value, second_detail);

        let first_detail = detail_line(left.text, left.value);
        let before_right_value = head + first_detail + "\n"@ + right.text + ": "@;
        assert(msg =~= before_right_value + right.value + Seq::<char>::empty());
        lemma_contains_middle(before_right_value, right.value, Seq::<char>::empty());
    }
}

/// Law: a merged failure shows the re-indented text of every nested failure
/// it reports.
pub proof fn lemma_merged_shows_inner(
    first: Seq<char>,
    second: Seq<char>,
    annotation: Option<Seq<char>>,
)
    ensures
        contains_text(merged_both(first, second, annotation), indented(first)),
        contains_text(merged_both(first, second, annotation), indented(second)),
        contains_text(merged_one(first, annotation), indented(first)),
{
    let both = merged_both(first, second, annotation);
    let both_head = with_annotation("Both tests failed"@, annotation);
    let before_first = both_head + "\n1: "@;
    let after_first = "\n2: "@ + indented(second);
    assert(both =~= before_first + indented(first) + after_first);
    lemma_contains_middle(before_first, indented(first), after_first);

    let before_second = both_head + "\n1: "@ + indented(first) + "\n2: "@;
    assert(both =~= before_second + indented(second) + Seq::<char>::empty());
    lemma_contains_middle(before_second, indented(second), Seq::<char>::empty());

    let one = merged_one(first, annotation);
    let before_one = with_annotation("One of the tests failed"@, annotation) + "\n   "@;
    assert(one =~= before_one + indented(first) + Seq::<char>::empty());
    lemma_contains_middle(before_one, indented(first), Seq::<char>::empty());
}

} // verus!
