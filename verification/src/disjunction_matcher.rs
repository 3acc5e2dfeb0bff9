//! The disjunction combinator: at least one of two matchers over the same
//! actual type holds. Its description and explanation always report both
//! branches, whichever side actually matched.

use vstd::prelude::*;
use vstd::string::StringExecFns;
use crate::description::Description;
use crate::matcher::{Matcher, MatcherResult};

verus! {

/// Matches when at least one of the two child matchers matches. Owns both
/// children exclusively.
pub struct DisjunctionMatcher<M1, M2> {
    pub m1: M1,
    pub m2: M2,
}

impl<M1, M2> DisjunctionMatcher<M1, M2> {
    pub fn new(m1: M1, m2: M2) -> (m: DisjunctionMatcher<M1, M2>)
        ensures
            m.m1 == m1,
            m.m2 == m2,
    {
        DisjunctionMatcher { m1, m2 }
    }
}

impl<A, M1: Matcher<A>, M2: Matcher<A>> Matcher<A> for DisjunctionMatcher<M1, M2> {
    open spec fn spec_matches(&self, actual: A) -> bool {
        self.m1.spec_matches(actual) || self.m2.spec_matches(actual)
    }

    /// Both children's descriptions, joined by `", or "`, for either
    /// requested polarity.
    open spec fn spec_describe(&self, result: MatcherResult) -> Seq<char> {
        self.m1.spec_describe(result) + ", or "@ + self.m2.spec_describe(result)
    }

    /// Both children's explanations, joined by `" and\n  "`, regardless of
    /// which side actually matched.
    open spec fn spec_explain(&self, actual: A) -> Seq<char> {
        self.m1.spec_explain(actual) + " and\n  "@ + self.m2.spec_explain(actual)
    }

    open spec fn spec_explain_block(&self, actual: A) -> bool {
        false
    }

    fn matches(&self, actual: &A) -> (r: MatcherResult) {
        match (self.m1.matches(actual), self.m2.matches(actual)) {
            (MatcherResult::NoMatch, MatcherResult::NoMatch) => MatcherResult::NoMatch,
            _ => MatcherResult::Match,
        }
    }

    fn describe(&self, result: MatcherResult) -> (d: Description) {
        let mut s = self.m1.describe(result).render();
        s.append(", or ");
        let second = self.m2.describe(result).render();
        s.append(second.as_str());
        proof {
            assert(s@ =~= self.spec_describe(result));
        }
        Description::text(s)
    }

    fn explain_match(&self, actual: &A) -> (d: Description) {
        let mut s = self.m1.explain_match(actual).render();
        s.append(" and\n  ");
        let second = self.m2.explain_match(actual).render();
        s.append(second.as_str());
        proof {
            assert(s@ =~= self.spec_explain(*actual));
        }
        Description::text(s)
    }
}

/// When both children fail to match, the disjunction reports no match, its
/// explanation is the two children's explanations joined by `" and\n  "`,
/// and its description of the failing polarity is the two children's
/// descriptions joined by `", or "`.
pub proof fn lemma_disjunction_reports_both_branches<A, M1: Matcher<A>, M2: Matcher<A>>(
    m: DisjunctionMatcher<M1, M2>,
    actual: A,
)
    requires
        !m.m1.spec_matches(actual),
        !m.m2.spec_matches(actual),
    ensures
        !m.spec_matches(actual),
        m.spec_explain(actual) == m.m1.spec_explain(actual) + " and\n  "@ + m.m2.spec_explain(
            actual,
        ),
        m.spec_describe(MatcherResult::NoMatch) == m.m1.spec_describe(MatcherResult::NoMatch)
            + ", or "@ + m.m2.spec_describe(MatcherResult::NoMatch),
{
}

} // verus!
