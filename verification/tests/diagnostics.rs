use test_eq::and;
use test_eq::any;
use test_eq::equal;
use test_eq::greater_or_equal;
use test_eq::indent_message;
use test_eq::less_or_equal;
use test_eq::not_any;
use test_eq::not_equal;
use test_eq::or;
use test_eq::Operand;
use test_eq::TestFailure;

#[test]
fn scenario_equal_mismatch_message() {
    let out = equal(&5, &19, &Operand::expression("a", "5"), &Operand::expression("b", "19"), None);
    match out {
        Err(f) => assert_eq!(f.message(), "Test failed: a != b\na: 5\nb: 19"),
        Ok(()) => panic!("expected a failure"),
    }
}

#[test]
fn scenario_equal_match_passes() {
    let out = equal(&42, &42, &Operand::expression("a", "42"), &Operand::expression("b", "42"),
        None);
    assert!(out.is_ok());
}

#[test]
fn scenario_any_membership() {
    let values = [1, 3, 5, 7];
    let out = any(&3, &values, &Operand::expression("a", "3"),
        &Operand::literal("[1, 3, 5, 7]"), None);
    assert!(out.is_ok());
    let out = any(&4, &values, &Operand::expression("a", "4"),
        &Operand::literal("[1, 3, 5, 7]"), None);
    match out {
        Err(f) => assert_eq!(f.message(), "Test failed: ![1, 3, 5, 7].contains(a)\na: 4"),
        Ok(()) => panic!("expected a failure"),
    }
}

#[test]
fn scenario_and_single_failure() {
    let first = greater_or_equal(&10, &5, &Operand::expression("a", "10"),
        &Operand::expression("b", "5"), None);
    let second = equal("hello", "world", &Operand::expression("c", "\"hello\""),
        &Operand::expression("d", "\"world\""), None);
    let out = and(first, second, None);
    match out {
        Err(f) => assert_eq!(
            f.message(),
            "One of the tests failed\n   Test failed: c != d\n   c: \"hello\"\n   d: \"world\"",
        ),
        Ok(()) => panic!("expected a failure"),
    }
}

#[test]
fn scenario_or_both_failures() {
    let first = greater_or_equal(&5, &10, &Operand::expression("a", "5"),
        &Operand::expression("b", "10"), None);
    let second = equal("hello", "world", &Operand::expression("c", "\"hello\""),
        &Operand::expression("d", "\"world\""), None);
    let out = or(first, second, None);
    match out {
        Err(f) => assert_eq!(
            f.message(),
            "Both tests failed\n1: Test failed: a < b\n   a: 5\n   b: 10\n2: Test failed: c != d\n   c: \"hello\"\n   d: \"world\"",
        ),
        Ok(()) => panic!("expected a failure"),
    }
}

#[test]
fn annotation_joins_header_with_colon() {
    let out = equal(&3, &6, &Operand::expression("a", "3"), &Operand::expression("c", "6"),
        Some("and b is 3"));
    match out {
        Err(f) => assert_eq!(f.message(), "Test failed: a != c: and b is 3\na: 3\nc: 6"),
        Ok(()) => panic!("expected a failure"),
    }
}

#[test]
fn literal_right_operand_gets_no_detail_line() {
    let out = equal(&5, &19, &Operand::expression("a", "5"), &Operand::literal("19"), None);
    match out {
        Err(f) => assert_eq!(f.message(), "Test failed: a != 19\na: 5"),
        Ok(()) => panic!("expected a failure"),
    }
}

#[test]
fn literal_left_operand_gets_no_detail_line() {
    let out = equal(&5, &19, &Operand::literal("5"), &Operand::expression("b", "19"), None);
    match out {
        Err(f) => assert_eq!(f.message(), "Test failed: 5 != b\nb: 19"),
        Ok(()) => panic!("expected a failure"),
    }
}

#[test]
fn two_literal_operands_show_the_left_one() {
    let out = equal(&5, &19, &Operand::literal("5"), &Operand::literal("19"), None);
    match out {
        Err(f) => assert_eq!(f.message(), "Test failed: 5 != 19\n5: 5"),
        Ok(()) => panic!("expected a failure"),
    }
}

#[test]
fn not_equal_failure_shows_observed_equality() {
    let out = not_equal(&42, &42, &Operand::expression("a", "42"),
        &Operand::expression("b", "42"), None);
    match out {
        Err(f) => assert_eq!(f.message(), "Test failed: a == b\na: 42\nb: 42"),
        Ok(()) => panic!("expected a failure"),
    }
}

#[test]
fn less_or_equal_failure_shows_observed_greater() {
    let out = less_or_equal(&10, &5, &Operand::expression("a", "10"),
        &Operand::expression("b", "5"), None);
    match out {
        Err(f) => assert_eq!(f.message(), "Test failed: a > b\na: 10\nb: 5"),
        Ok(()) => panic!("expected a failure"),
    }
}

#[test]
fn not_any_fails_exactly_when_containment_holds() {
    let values = [1, 3, 5, 7];
    let out = not_any(&6, &values, &Operand::expression("b", "6"),
        &Operand::literal("[1, 3, 5, 7]"), None);
    assert!(out.is_ok());
    let out = not_any(&3, &values, &Operand::expression("a", "3"),
        &Operand::literal("[1, 3, 5, 7]"), None);
    match out {
        Err(f) => assert_eq!(f.message(), "Test failed: [1, 3, 5, 7].contains(a)\na: 3"),
        Ok(()) => panic!("expected a failure"),
    }
    // The annotated call must fail on the same containment as the bare one.
    let out = not_any(&3, &values, &Operand::expression("a", "3"),
        &Operand::literal("[1, 3, 5, 7]"), Some("and b is 6"));
    match out {
        Err(f) => assert_eq!(f.message(), "Test failed: [1, 3, 5, 7].contains(a): and b is 6\na: 3"),
        Ok(()) => panic!("expected a failure"),
    }
}

#[test]
fn less_or_equal_mirrors_greater_or_equal() {
    let pairs = [(5, 10), (10, 5), (7, 7), (0, 0), (-3, 2)];
    for (a, b) in pairs {
        let le = less_or_equal(&a, &b, &Operand::expression("a", "?"),
            &Operand::expression("b", "?"), None);
        let ge = greater_or_equal(&b, &a, &Operand::expression("b", "?"),
            &Operand::expression("a", "?"), None);
        assert_eq!(le.is_ok(), ge.is_ok());
    }
}

#[test]
fn merging_twice_adds_three_spaces_each_time() {
    let inner = equal(&5, &19, &Operand::expression("a", "5"), &Operand::expression("b", "19"),
        None);
    let once = and(inner, Ok(()), None);
    let once_text = match &once {
        Err(f) => f.message().to_string(),
        Ok(()) => panic!("expected a failure"),
    };
    assert_eq!(once_text, "One of the tests failed\n   Test failed: a != b\n   a: 5\n   b: 19");
    let twice = and(once, Ok(()), None);
    match twice {
        Err(f) => assert_eq!(
            f.message(),
            "One of the tests failed\n   One of the tests failed\n      Test failed: a != b\n      a: 5\n      b: 19",
        ),
        Ok(()) => panic!("expected a failure"),
    }
}

#[test]
fn and_reports_both_failures_in_order() {
    let first = equal(&1, &2, &Operand::expression("a", "1"), &Operand::expression("b", "2"),
        None);
    let second = equal(&3, &4, &Operand::expression("c", "3"), &Operand::expression("d", "4"),
        None);
    let out = and(first, second, Some("context"));
    match out {
        Err(f) => assert_eq!(
            f.message(),
            "Both tests failed: context\n1: Test failed: a != b\n   a: 1\n   b: 2\n2: Test failed: c != d\n   c: 3\n   d: 4",
        ),
        Ok(()) => panic!("expected a failure"),
    }
}

#[test]
fn and_passes_only_when_both_pass() {
    assert!(and(Ok(()), Ok(()), None).is_ok());
    let failing = equal(&1, &2, &Operand::expression("a", "1"), &Operand::expression("b", "2"),
        None);
    let out = and(Ok(()), failing, Some("note"));
    match out {
        Err(f) => assert_eq!(
            f.message(),
            "One of the tests failed: note\n   Test failed: a != b\n   a: 1\n   b: 2",
        ),
        Ok(()) => panic!("expected a failure"),
    }
}

#[test]
fn or_forgives_a_single_failure() {
    let failing = equal(&1, &2, &Operand::expression("a", "1"), &Operand::expression("b", "2"),
        None);
    assert!(or(failing, Ok(()), None).is_ok());
    let failing = equal(&1, &2, &Operand::expression("a", "1"), &Operand::expression("b", "2"),
        None);
    assert!(or(Ok(()), failing, None).is_ok());
    assert!(or(Ok(()), Ok(()), None).is_ok());
}

#[test]
fn plain_failure_renders_header_and_annotation_only() {
    let f = TestFailure::test_failed_no_ident("Test failed: something", None);
    assert_eq!(f.message(), "Test failed: something");
    let f = TestFailure::test_failed_no_ident("Test failed: something", Some("why"));
    assert_eq!(f.message(), "Test failed: something: why");
}

#[test]
fn detail_constructors_render_each_operand_line() {
    let f = TestFailure::test_failed_one_ident("Test failed: a != 19", "a", "5", None);
    assert_eq!(f.message(), "Test failed: a != 19\na: 5");
    let f = TestFailure::test_failed_two_idents("Test failed: a != b", "a", "5", "b", "19",
        Some("seen"));
    assert_eq!(f.message(), "Test failed: a != b: seen\na: 5\nb: 19");
}

#[test]
fn merge_constructors_reindent_nested_text() {
    let first = TestFailure::test_failed_one_ident("Test failed: a != 19", "a", "5", None);
    let second = TestFailure::test_failed_no_ident("Test failed: something", None);
    let merged = TestFailure::two_tests_failed(first, second, Some("ctx"));
    assert_eq!(
        merged.message(),
        "Both tests failed: ctx\n1: Test failed: a != 19\n   a: 5\n2: Test failed: something",
    );
    let single = TestFailure::test_failed_one_ident("Test failed: a != 19", "a", "5", None);
    let merged = TestFailure::one_test_failed(single, None);
    assert_eq!(merged.message(), "One of the tests failed\n   Test failed: a != 19\n   a: 5");
}

#[test]
fn indentation_inserts_three_spaces_after_every_newline() {
    assert_eq!(indent_message("x\ny\nz"), "x\n   y\n   z");
    assert_eq!(indent_message(""), "");
    assert_eq!(indent_message("no newline"), "no newline");
    assert_eq!(indent_message("\n"), "\n   ");
}
