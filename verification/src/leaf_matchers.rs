//! Leaf matchers with no child structure: plain equality on integers and
//! strings, a lower bound on integers, suffix containment, the matcher that
//! accepts anything, and the negation of a single matcher. The combinators
//! and their tests are built on top of these.

use core::marker::PhantomData;
use vstd::prelude::*;
use vstd::string::StringExecFns;
use crate::description::Description;
use crate::matcher::{Matcher, MatcherResult};
use crate::text::{spec_int_to_string, i64_to_string};

verus! {

/// Matches every actual value of type `A`.
pub struct AnythingMatcher<A> {
    phantom: PhantomData<A>,
}

/// Matches every actual value of type `A`.
pub fn anything<A>() -> (m: AnythingMatcher<A>) {
    AnythingMatcher { phantom: PhantomData }
}

impl<A> Matcher<A> for AnythingMatcher<A> {
    open spec fn spec_matches(&self, actual: A) -> bool {
        true
    }

    open spec fn spec_describe(&self, result: MatcherResult) -> Seq<char> {
        match result {
            MatcherResult::Match => "is anything"@,
            MatcherResult::NoMatch => "never matches"@,
        }
    }

    open spec fn spec_explain(&self, actual: A) -> Seq<char> {
        "which is anything"@
    }

    open spec fn spec_explain_block(&self, actual: A) -> bool {
        false
    }

    fn matches(&self, actual: &A) -> (r: MatcherResult) {
        MatcherResult::Match
    }

    fn describe(&self, result: MatcherResult) -> (d: Description) {
        match result {
            MatcherResult::Match => Description::text("is anything".to_owned()),
            MatcherResult::NoMatch => Description::text("never matches".to_owned()),
        }
    }

    fn explain_match(&self, actual: &A) -> (d: Description) {
        Description::text("which is anything".to_owned())
    }
}

/// Matches exactly when the inner matcher does not; its description for one
/// polarity is the inner matcher's description for the opposite polarity.
pub struct NotMatcher<M> {
    pub inner: M,
}

/// Negates `inner`.
pub fn not<M>(inner: M) -> (m: NotMatcher<M>)
    ensures
        m.inner == inner,
{
    NotMatcher { inner }
}

impl<A, M: Matcher<A>> Matcher<A> for NotMatcher<M> {
    open spec fn spec_matches(&self, actual: A) -> bool {
        !self.inner.spec_matches(actual)
    }

    open spec fn spec_describe(&self, result: MatcherResult) -> Seq<char> {
        match result {
            MatcherResult::Match => self.inner.spec_describe(MatcherResult::NoMatch),
            MatcherResult::NoMatch => self.inner.spec_describe(MatcherResult::Match),
        }
    }

    open spec fn spec_explain(&self, actual: A) -> Seq<char> {
        self.inner.spec_explain(actual)
    }

    open spec fn spec_explain_block(&self, actual: A) -> bool {
        self.inner.spec_explain_block(actual)
    }

    fn matches(&self, actual: &A) -> (r: MatcherResult) {
        match self.inner.matches(actual) {
            MatcherResult::Match => MatcherResult::NoMatch,
            MatcherResult::NoMatch => MatcherResult::Match,
        }
    }

    fn describe(&self, result: MatcherResult) -> (d: Description) {
        match result {
            MatcherResult::Match => self.inner.describe(MatcherResult::NoMatch),
            MatcherResult::NoMatch => self.inner.describe(MatcherResult::Match),
        }
    }

    fn explain_match(&self, actual: &A) -> (d: Description) {
        self.inner.explain_match(actual)
    }
}

/// Matches an integer equal to `expected`.
pub struct EqValueMatcher {
    pub expected: i64,
}

/// Matches an integer equal to `expected`.
pub fn eq_value(expected: i64) -> (m: EqValueMatcher)
    ensures
        m.expected == expected,
{
    EqValueMatcher { expected }
}

impl Matcher<i64> for EqValueMatcher {
    open spec fn spec_matches(&self, actual: i64) -> bool {
        actual == self.expected
    }

    open spec fn spec_describe(&self, result: MatcherResult) -> Seq<char> {
        match result {
            MatcherResult::Match => "is equal to "@ + spec_int_to_string(self.expected as int),
            MatcherResult::NoMatch => "isn't equal to "@ + spec_int_to_string(
                self.expected as int,
            ),
        }
    }

    open spec fn spec_explain(&self, actual: i64) -> Seq<char> {
        if actual == self.expected {
            "is equal to "@ + spec_int_to_string(self.expected as int)
        } else {
            "isn't equal to "@ + spec_int_to_string(self.expected as int)
        }
    }

    open spec fn spec_explain_block(&self, actual: i64) -> bool {
        false
    }

    fn matches(&self, actual: &i64) -> (r: MatcherResult) {
        if *actual == self.expected {
            MatcherResult::Match
        } else {
            MatcherResult::NoMatch
        }
    }

    fn describe(&self, result: MatcherResult) -> (d: Description) {
        let mut s = match result {
            MatcherResult::Match => String::from_str("is equal to "),
            MatcherResult::NoMatch => String::from_str("isn't equal to "),
        };
        let digits = i64_to_string(self.expected);
        s.append(digits.as_str());
        Description::text(s)
    }

    fn explain_match(&self, actual: &i64) -> (d: Description) {
        let mut s = if *actual == self.expected {
            String::from_str("is equal to ")
        } else {
            String::from_str("isn't equal to ")
        };
        let digits = i64_to_string(self.expected);
        s.append(digits.as_str());
        Description::text(s)
    }
}

/// Matches an integer greater than or equal to `min`.
pub struct GeValueMatcher {
    pub min: i64,
}

/// Matches an integer greater than or equal to `min`.
pub fn ge_value(min: i64) -> (m: GeValueMatcher)
    ensures
        m.min == min,
{
    GeValueMatcher { min }
}

impl Matcher<i64> for GeValueMatcher {
    open spec fn spec_matches(&self, actual: i64) -> bool {
        actual >= self.min
    }

    open spec fn spec_describe(&self, result: MatcherResult) -> Seq<char> {
        match result {
            MatcherResult::Match => "is greater than or equal to "@ + spec_int_to_string(
                self.min as int,
            ),
            MatcherResult::NoMatch => "is less than "@ + spec_int_to_string(self.min as int),
        }
    }

    open spec fn spec_explain(&self, actual: i64) -> Seq<char> {
        if actual >= self.min {
            "is greater than or equal to "@ + spec_int_to_string(self.min as int)
        } else {
            "is less than "@ + spec_int_to_string(self.min as int)
        }
    }

    open spec fn spec_explain_block(&self, actual: i64) -> bool {
        false
    }

    fn matches(&self, actual: &i64) -> (r: MatcherResult) {
        if *actual >= self.min {
            MatcherResult::Match
        } else {
            MatcherResult::NoMatch
        }
    }

    fn describe(&self, result: MatcherResult) -> (d: Description) {
        let mut s = match result {
            MatcherResult::Match => String::from_str("is greater than or equal to "),
            MatcherResult::NoMatch => String::from_str("is less than "),
        };
        let digits = i64_to_string(self.min);
        s.append(digits.as_str());
        Description::text(s)
    }

    fn explain_match(&self, actual: &i64) -> (d: Description) {
        let mut s = if *actual >= self.min {
            String::from_str("is greater than or equal to ")
        } else {
            String::from_str("is less than ")
        };
        let digits = i64_to_string(self.min);
        s.append(digits.as_str());
        Description::text(s)
    }
}

/// Matches a string equal to `expected`.
pub struct EqStrMatcher {
    pub expected: String,
}

/// Matches a string equal to `expected`.
pub fn eq_str(expected: &str) -> (m: EqStrMatcher)
    ensures
        m.expected@ == expected@,
{
    EqStrMatcher { expected: expected.to_owned() }
}

impl Matcher<String> for EqStrMatcher {
    open spec fn spec_matches(&self, actual: String) -> bool {
        actual@ == self.expected@
    }

    open spec fn spec_describe(&self, result: MatcherResult) -> Seq<char> {
        match result {
            MatcherResult::Match => "is equal to \""@ + self.expected@ + seq!['"'],
            MatcherResult::NoMatch => "isn't equal to \""@ + self.expected@ + seq!['"'],
        }
    }

    open spec fn spec_explain(&self, actual: String) -> Seq<char> {
        if actual@ == self.expected@ {
            "is equal to \""@ + self.expected@ + seq!['"']
        } else {
            "isn't equal to \""@ + self.expected@ + seq!['"']
        }
    }

    open spec fn spec_explain_block(&self, actual: String) -> bool {
        false
    }

    fn matches(&self, actual: &String) -> (r: MatcherResult) {
        if *actual == self.expected {
            MatcherResult::Match
        } else {
            MatcherResult::NoMatch
        }
    }

    fn describe(&self, result: MatcherResult) -> (d: Description) {
        let mut s = match result {
            MatcherResult::Match => String::from_str("is equal to \""),
            MatcherResult::NoMatch => String::from_str("isn't equal to \""),
        };
        s.append(self.expected.as_str());
        s.append("\"");
        proof {
            reveal_strlit("\"");
            assert(s@ =~= self.spec_describe(result));
        }
        Description::text(s)
    }

    fn explain_match(&self, actual: &String) -> (d: Description) {
        let mut s = if *actual == self.expected {
            String::from_str("is equal to \"")
        } else {
            String::from_str("isn't equal to \"")
        };
        s.append(self.expected.as_str());
        s.append("\"");
        proof {
            reveal_strlit("\"");
            assert(s@ =~= self.spec_explain(*actual));
        }
        Description::text(s)
    }
}

/// Whether `suffix` is a suffix of `s`.
pub open spec fn spec_ends_with(s: Seq<char>, suffix: Seq<char>) -> bool {
    suffix.len() <= s.len() && s.subrange(s.len() - suffix.len(), s.len() as int) == suffix
}

/// Matches a string slice that ends with `suffix`.
pub struct EndsWithMatcher {
    pub suffix: String,
}

/// Matches a string slice that ends with `suffix`.
pub fn ends_with(suffix: &str) -> (m: EndsWithMatcher)
    ensures
        m.suffix@ == suffix@,
{
    EndsWithMatcher { suffix: suffix.to_owned() }
}

impl<'a> Matcher<&'a str> for EndsWithMatcher {
    open spec fn spec_matches(&self, actual: &'a str) -> bool {
        spec_ends_with(actual@, self.suffix@)
    }

    open spec fn spec_describe(&self, result: MatcherResult) -> Seq<char> {
        match result {
            MatcherResult::Match => "ends with suffix \""@ + self.suffix@ + seq!['"'],
            MatcherResult::NoMatch => "doesn't end with suffix \""@ + self.suffix@ + seq!['"'],
        }
    }

    open spec fn spec_explain(&self, actual: &'a str) -> Seq<char> {
        if spec_ends_with(actual@, self.suffix@) {
            "ends with suffix \""@ + self.suffix@ + seq!['"']
        } else {
            "doesn't end with suffix \""@ + self.suffix@ + seq!['"']
        }
    }

    open spec fn spec_explain_block(&self, actual: &'a str) -> bool {
        false
    }

    fn matches(&self, actual: &&'a str) -> (r: MatcherResult) {
        let text: &str = *actual;
        let text_len = text.unicode_len();
        let suffix_len = self.suffix.as_str().unicode_len();
        if suffix_len > text_len {
            return MatcherResult::NoMatch;
        }
        let start = text_len - suffix_len;
        let mut i: usize = 0;
        let mut all_equal = true;
        while i < suffix_len
            invariant
                i <= suffix_len,
                suffix_len == self.suffix@.len(),
                text_len == text@.len(),
                suffix_len <= text_len,
                start == text_len - suffix_len,
                all_equal == (forall|j: int|
                    0 <= j < i ==> text@[start + j] == self.suffix@[j]),
            decreases suffix_len - i,
        {
            let c_text = text.get_char(start + i);
            let c_suffix = self.suffix.as_str().get_char(i);
            if c_text != c_suffix {
                all_equal = false;
            }
            i += 1;
        }
        if all_equal {
            proof {
                assert(text@.subrange(start as int, text@.len() as int) =~= self.suffix@);
            }
            MatcherResult::Match
        } else {
            proof {
                assert(!spec_ends_with(text@, self.suffix@)) by {
                    if spec_ends_with(text@, self.suffix@) {
                        let j = choose|j: int|
                            0 <= j < suffix_len && text@[start + j] != self.suffix@[j];
                        assert(text@.subrange(start as int, text@.len() as int)[j]
                            == text@[start + j]);
                    }
                }
            }
            MatcherResult::NoMatch
        }
    }

    fn describe(&self, result: MatcherResult) -> (d: Description) {
        let mut s = match result {
            MatcherResult::Match => String::from_str("ends with suffix \""),
            MatcherResult::NoMatch => String::from_str("doesn't end with suffix \""),
        };
        s.append(self.suffix.as_str());
        s.append("\"");
        proof {
            reveal_strlit("\"");
            assert(s@ =~= self.spec_describe(result));
        }
        Description::text(s)
    }

    fn explain_match(&self, actual: &&'a str) -> (d: Description) {
        let matched = matches!(self.matches(actual), MatcherResult::Match);
        let mut s = if matched {
            String::from_str("ends with suffix \"")
        } else {
            String::from_str("doesn't end with suffix \"")
        };
        s.append(self.suffix.as_str());
        s.append("\"");
        proof {
            reveal_strlit("\"");
            assert(s@ =~= self.spec_explain(*actual));
        }
        Description::text(s)
    }
}

} // verus!
