//! The textual model of a diagnostic: how a nested failure text is
//! re-indented when it is merged into a larger one, and the shapes of the
//! rendered messages.

use vstd::prelude::*;

verus! {

/// `s` with three spaces inserted after every newline (never before the
/// first line): one extra level of visual nesting.
pub open spec fn indented(s: Seq<char>) -> Seq<char>
    decreases s.len(),
{
    if s.len() == 0 {
        Seq::empty()
    } else if s[0] == '\n' {
        seq!['\n', ' ', ' ', ' '] + indented(s.subrange(1, s.len() as int))
    } else {
        seq![s[0]] + indented(s.subrange(1, s.len() as int))
    }
}

/// How many newline characters `s` holds.
pub open spec fn newline_count(s: Seq<char>) -> nat
    decreases s.len(),
{
    if s.len() == 0 {
        0
    } else {
        (if s[0] == '\n' {
            1nat
        } else {
            0nat
        }) + newline_count(s.subrange(1, s.len() as int))
    }
}

/// What one character becomes under re-indentation.
pub open spec fn indented_unit(c: char) -> Seq<char> {
    if c == '\n' {
        seq!['\n', ' ', ' ', ' ']
    } else {
        seq![c]
    }
}

pub proof fn lemma_indented_push(s: Seq<char>, c: char)
    ensures
        indented(s.push(c)) == indented(s) + indented_unit(c),
    decreases s.len(),
{
    if s.len() == 0 {
        assert(indented(Seq::<char>::empty()) == Seq::<char>::empty());
        assert(s.push(c) =~= seq![c]);
        assert(seq![c].subrange(1, 1) =~= Seq::<char>::empty());
        assert(indented(seq![c]) == indented_unit(c) + indented(Seq::<char>::empty()));
        assert(indented(s.push(c)) =~= indented(s) + indented_unit(c));
    } else {
        let tail = s.subrange(1, s.len() as int);
        assert(s.push(c).subrange(1, s.push(c).len() as int) =~= tail.push(c));
        lemma_indented_push(tail, c);
        assert(indented(s.push(c)) =~= indented(s) + indented_unit(c));
    }
}

pub proof fn lemma_newline_count_append(a: Seq<char>, b: Seq<char>)
    ensures
        newline_count(a + b) == newline_count(a) + newline_count(b),
    decreases a.len(),
{
    if a.len() == 0 {
        assert(a + b =~= b);
    } else {
        let tail = a.subrange(1, a.len() as int);
        assert((a + b).subrange(1, (a + b).len() as int) =~= tail + b);
        lemma_newline_count_append(tail, b);
    }
}

proof fn lemma_newline_count_single(c: char)
    ensures
        newline_count(seq![c]) == if c == '\n' {
            1nat
        } else {
            0nat
        },
{
    assert(newline_count(Seq::<char>::empty()) == 0);
    assert(seq![c].subrange(1, 1) =~= Seq::<char>::empty());
}

proof fn lemma_newline_count_unit(c: char)
    ensures
        newline_count(indented_unit(c)) == if c == '\n' {
            1nat
        } else {
            0nat
        },
{
    lemma_newline_count_single(c);
    if c == '\n' {
        let u = seq!['\n', ' ', ' ', ' '];
        assert(u =~= seq!['\n'] + seq![' ', ' ', ' ']);
        assert(seq![' ', ' ', ' '] =~= seq![' '] + (seq![' '] + seq![' ']));
        lemma_newline_count_single('\n');
        lemma_newline_count_single(' ');
        lemma_newline_count_append(seq![' '], seq![' ']);
        lemma_newline_count_append(seq![' '], seq![' '] + seq![' ']);
        lemma_newline_count_append(seq!['\n'], seq![' ', ' ', ' ']);
    }
}

/// Law: re-indentation grows a text by exactly three characters for each of
/// its newlines and adds no newline of its own. So every merge of an already
/// merged failure adds exactly three more spaces after each newline, and a
/// failure nested `n` combinators deep shows `3 * n` leading spaces on every
/// continuation line.
pub proof fn lemma_indented_growth(s: Seq<char>)
    ensures
        indented(s).len() == s.len() + 3 * newline_count(s),
        newline_count(indented(s)) == newline_count(s),
    decreases s.len(),
{
    if s.len() == 0 {
    } else {
        let tail = s.subrange(1, s.len() as int);
        lemma_indented_growth(tail);
        lemma_newline_count_unit(s[0]);
        lemma_newline_count_append(indented_unit(s[0]), indented(tail));
        assert(indented(s) =~= indented_unit(s[0]) + indented(tail));
    }
}

/// The view of an optional caller-supplied annotation.
pub open spec fn opt_text(t: Option<&str>) -> Option<Seq<char>> {
    match t {
        Some(s) => Some(s@),
        None => None,
    }
}

/// A header, followed by `": "` and the annotation only when one is present.
pub open spec fn with_annotation(header: Seq<char>, annotation: Option<Seq<char>>) -> Seq<char> {
    match annotation {
        Some(a) => header + ": "@ + a,
        None => header,
    }
}

/// One detail line, on a line of its own: `name: value`.
pub open spec fn detail_line(name: Seq<char>, value: Seq<char>) -> Seq<char> {
    "\n"@ + name + ": "@ + value
}

/// A failure text showing two named operands, left before right.
pub open spec fn rendered_two(
    header: Seq<char>,
    first_name: Seq<char>,
    first_value: Seq<char>,
    second_name: Seq<char>,
    second_value: Seq<char>,
    annotation: Option<Seq<char>>,
) -> Seq<char> {
    with_annotation(header, annotation) + detail_line(first_name, first_value) + detail_line(
        second_name,
        second_value,
    )
}

/// A failure text showing one named operand.
pub open spec fn rendered_one(
    header: Seq<char>,
    name: Seq<char>,
    value: Seq<char>,
    annotation: Option<Seq<char>>,
) -> Seq<char> {
    with_annotation(header, annotation) + detail_line(name, value)
}

/// A failure text with no operand detail lines.
pub open spec fn rendered_plain(header: Seq<char>, annotation: Option<Seq<char>>) -> Seq<char> {
    with_annotation(header, annotation)
}

/// The merge of a single nested failure: its text, re-indented once, under
/// the one-failure header.
pub open spec fn merged_one(inner: Seq<char>, annotation: Option<Seq<char>>) -> Seq<char> {
    with_annotation("One of the tests failed"@, annotation) + "\n   "@ + indented(inner)
}

/// The merge of two nested failures: both texts re-indented once and
/// numbered, the first before the second, under the two-failure header.
pub open spec fn merged_both(
    first: Seq<char>,
    second: Seq<char>,
    annotation: Option<Seq<char>>,
) -> Seq<char> {
    with_annotation("Both tests failed"@, annotation) + "\n1: "@ + indented(first) + "\n2: "@
        + indented(second)
}

/// The comparison or containment relation one assertion evaluates.
#[derive(Clone, Copy)]
pub enum Relation {
    Equal,
    NotEqual,
    Any,
    NotAny,
    LessOrEqual,
    GreaterOrEqual,
}

/// The abstract content of one operand descriptor: its source-level text,
/// the debug rendering of its value, and whether it was a literal.
pub ghost struct OperandView {
    pub text: Seq<char>,
    pub value: Seq<char>,
    pub literal: bool,
}

/// The failure header for a relation that did not hold. It shows the
/// relation's negation: the comparison that was observed instead of the one
/// the caller expected.
pub open spec fn failure_header(
    rel: Relation,
    left_text: Seq<char>,
    right_text: Seq<char>,
) -> Seq<char> {
    match rel {
        Relation::Equal => "Test failed: "@ + left_text + " != "@ + right_text,
        Relation::NotEqual => "Test failed: "@ + left_text + " == "@ + right_text,
        Relation::LessOrEqual => "Test failed: "@ + left_text + " > "@ + right_text,
        Relation::GreaterOrEqual => "Test failed: "@ + left_text + " < "@ + right_text,
        Relation::Any => "Test failed: !"@ + right_text + ".contains("@ + left_text + ")"@,
        Relation::NotAny => "Test failed: "@ + right_text + ".contains("@ + left_text + ")"@,
    }
}

/// The whole failure text for a relation that did not hold: the header, the
/// optional annotation, then a detail line for each operand that is not a
/// literal. A literal right operand hides its detail line first, then a
/// literal left one; two expressions are both shown, left before right.
pub open spec fn failure_message(
    rel: Relation,
    left: OperandView,
    right: OperandView,
    annotation: Option<Seq<char>>,
) -> Seq<char> {
    let header = failure_header(rel, left.text, right.text);
    if right.literal {
        rendered_one(header, left.text, left.value, annotation)
    } else if left.literal {
        rendered_one(header, right.text, right.value, annotation)
    } else {
        rendered_two(header, left.text, left.value, right.text, right.value, annotation)
    }
}

/// `needle` occurs somewhere in `hay`.
pub open spec fn contains_text(hay: Seq<char>, needle: Seq<char>) -> bool {
    exists|k: int|
        0 <= k && k + needle.len() <= hay.len() && #[trigger] hay.subrange(
            k,
            k + needle.len() as int,
        ) == needle
}

/// A text occurs in any concatenation that carries it whole.
pub proof fn lemma_contains_middle(before: Seq<char>, needle: Seq<char>, after: Seq<char>)
    ensures
        contains_text(before + needle + after, needle),
{
    let hay = before + needle + after;
    let k = before.len() as int;
    assert(hay.subrange(k, k + needle.len() as int) =~= needle);
}

/// Re-indents a failure text by one level: three spaces after every newline.
pub fn indent_message(s: &str) -> (r: String)
    ensures
        r@ == indented(s@),
{
    let n: usize = s.unicode_len();
    let mut out: String = String::new();
    let mut i: usize = 0;
    while i < n
        invariant
            n == s@.len(),
            i <= n,
            out@ == indented(s@.subrange(0, i as int)),
        decreases n - i,
    {
        let piece: &str = s.substring_char(i, i + 1);
        out.append(piece);
        let c: char = s.get_char(i);
        if c == '\n' {
            out.append("   ");
        }
        proof {
            reveal_strlit("   ");
            let done = s@.subrange(0, i as int);
            assert(s@.subrange(0, (i + 1) as int) =~= done.push(s@[i as int]));
            lemma_indented_push(done, s@[i as int]);
            assert(piece@ =~= seq![s@[i as int]]);
            if c == '\n' {
                assert("   "@ =~= seq![' ', ' ', ' ']);
            }
            assert(out@ =~= indented(s@.subrange(0, (i + 1) as int)));
        }
        i = i + 1;
    }
    proof {
        assert(s@.subrange(0, n as int) =~= s@);
    }
    out
}

} // verus!
