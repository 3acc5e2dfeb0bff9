use matchcore::disjunction_matcher::DisjunctionMatcher;
use matchcore::elements_are_matcher::elements_are;
use matchcore::leaf_matchers::{anything, ends_with, eq_str, eq_value, ge_value, not};
use matchcore::matcher::{Matcher, MatcherResult};
use matchcore::result_of_matcher::result_of;

#[test]
fn or_true_true_matches() {
    let matcher = DisjunctionMatcher::new(anything::<i64>(), anything::<i64>());
    assert_eq!(matcher.matches(&1), MatcherResult::Match);
}

#[test]
fn or_true_false_matches() {
    let matcher = DisjunctionMatcher::new(anything::<i64>(), not(anything::<i64>()));
    assert_eq!(matcher.matches(&1), MatcherResult::Match);
}

#[test]
fn or_false_true_matches() {
    let matcher = DisjunctionMatcher::new(not(anything::<i64>()), anything::<i64>());
    assert_eq!(matcher.matches(&1), MatcherResult::Match);
}

#[test]
fn or_false_false_does_not_match() {
    let matcher = DisjunctionMatcher::new(not(anything::<i64>()), not(anything::<i64>()));
    assert_eq!(matcher.matches(&1), MatcherResult::NoMatch);
    assert_eq!(
        matcher.describe(MatcherResult::Match).render(),
        "never matches, or never matches"
    );
    assert_eq!(
        matcher.explain_match(&1).render(),
        "which is anything and\n  which is anything"
    );
}

#[test]
fn chained_or_matches() {
    let matcher =
        DisjunctionMatcher::new(DisjunctionMatcher::new(eq_value(1), eq_value(5)), ge_value(9));
    assert_eq!(matcher.matches(&10), MatcherResult::Match);
}

#[test]
fn works_with_str_slices() {
    let matcher = DisjunctionMatcher::new(ends_with("A"), ends_with("string"));
    assert_eq!(matcher.matches(&"A string"), MatcherResult::Match);
}

#[test]
fn works_with_owned_strings() {
    let value = "A string".to_string();
    let matcher = DisjunctionMatcher::new(ends_with("A"), ends_with("string"));
    assert_eq!(matcher.matches(&value.as_str()), MatcherResult::Match);
}

#[test]
fn result_of_match_with_value() {
    let matcher = result_of(|value: i64| value + 1, eq_value(2));
    let value = 1;
    let result = matcher.matches(value);
    assert_eq!(result, MatcherResult::Match);
}

#[test]
fn result_of_match_with_different_value() {
    let matcher = result_of(|value: i64| value + 1, eq_value(2));
    let value = 2;
    let result = matcher.matches(value);
    assert_eq!(result, MatcherResult::NoMatch);
}

#[test]
fn result_of_match_with_reference() {
    let matcher = result_of(|s: &str| s.to_uppercase(), eq_str("HELLO"));
    let value = "hello";
    let result = matcher.matches(value);
    assert_eq!(result, MatcherResult::Match);
}

#[test]
fn test_should_work_with_second_test_annotation() {
    assert_eq!(eq_value(1).matches(&1), MatcherResult::Match);
}

#[test]
fn result_of_describe_delegates_to_inner() {
    let matcher = result_of(|value: i64| value + 1, eq_value(2));
    assert_eq!(
        matcher.describe::<i64>(MatcherResult::Match).render(),
        "is mapped by the given callable to a value that is equal to 2"
    );
    assert_eq!(
        matcher.describe::<i64>(MatcherResult::NoMatch).render(),
        "is mapped by the given callable to a value that isn't equal to 2"
    );
}

#[test]
fn disjunction_describe_no_match_joins_with_or() {
    let matcher = DisjunctionMatcher::new(eq_value(1), eq_value(5));
    assert_eq!(
        matcher.describe(MatcherResult::NoMatch).render(),
        "isn't equal to 1, or isn't equal to 5"
    );
    assert_eq!(
        matcher.explain_match(&7).render(),
        "isn't equal to 1 and\n  isn't equal to 5"
    );
}

#[test]
fn eq_value_describes_negative_numbers() {
    let matcher = eq_value(-5);
    assert_eq!(matcher.describe(MatcherResult::Match).render(), "is equal to -5");
    assert_eq!(matcher.matches(&-5), MatcherResult::Match);
    assert_eq!(matcher.matches(&5), MatcherResult::NoMatch);
}

#[test]
fn not_inverts_the_inner_matcher() {
    let matcher = not(eq_value(1));
    assert_eq!(matcher.matches(&2), MatcherResult::Match);
    assert_eq!(matcher.matches(&1), MatcherResult::NoMatch);
    assert_eq!(matcher.describe(MatcherResult::Match).render(), "isn't equal to 1");
}

#[test]
fn ends_with_rejects_missing_suffix() {
    let matcher = ends_with("xyz");
    assert_eq!(matcher.matches(&"abc"), MatcherResult::NoMatch);
    let longer = ends_with("abcdef");
    assert_eq!(longer.matches(&"def"), MatcherResult::NoMatch);
    assert_eq!(
        matcher.describe(MatcherResult::Match).render(),
        "ends with suffix \"xyz\""
    );
}

#[test]
fn eq_str_describes_with_quotes() {
    let matcher = eq_str("HELLO");
    assert_eq!(matcher.matches(&"HELLO".to_string()), MatcherResult::Match);
    assert_eq!(matcher.matches(&"hello".to_string()), MatcherResult::NoMatch);
    assert_eq!(
        matcher.describe(MatcherResult::NoMatch).render(),
        "isn't equal to \"HELLO\""
    );
}

#[test]
fn elements_are_matches_matching_sequence() {
    let matcher = elements_are(vec![eq_value(1), eq_value(2), eq_value(3)]);
    assert_eq!(matcher.matches(&vec![1, 2, 3]), MatcherResult::Match);
    assert_eq!(
        matcher.explain_match(&vec![1, 2, 3]).render(),
        "whose elements all match"
    );
}

#[test]
fn elements_are_reports_size_mismatch() {
    let matcher = elements_are(vec![eq_value(1), eq_value(2), eq_value(3)]);
    assert_eq!(matcher.matches(&vec![1, 2]), MatcherResult::NoMatch);
    assert_eq!(matcher.explain_match(&vec![1, 2]).render(), "whose size is 2");
}

#[test]
fn elements_are_mentions_only_the_mismatching_element() {
    let matcher = elements_are(vec![eq_value(1), eq_value(2), eq_value(3)]);
    assert_eq!(matcher.matches(&vec![1, 5, 3]), MatcherResult::NoMatch);
    assert_eq!(
        matcher.explain_match(&vec![1, 5, 3]).render(),
        "* element #1 is 5, which isn't equal to 2"
    );
}

#[test]
fn elements_are_describe_enumerates_children() {
    let matcher = elements_are(vec![eq_value(1), eq_value(2)]);
    assert_eq!(
        matcher.describe(MatcherResult::Match).render(),
        "has elements:\n  0. is equal to 1\n  1. is equal to 2"
    );
    assert_eq!(
        matcher.describe(MatcherResult::NoMatch).render(),
        "doesn't have elements:\n  0. is equal to 1\n  1. is equal to 2"
    );
}

#[test]
fn nested_elements_are_indents_one_level_per_depth() {
    let matcher = elements_are(vec![elements_are(vec![eq_value(1), eq_value(3)])]);
    let actual = vec![vec![1, 2]];
    assert_eq!(matcher.matches(&actual), MatcherResult::NoMatch);
    assert_eq!(
        matcher.explain_match(&actual).render(),
        "* element #0 is [1, 2], which:\n    * element #1 is 2, which isn't equal to 3"
    );
}
