//! The result-of combinator: applies a pure transform to the actual value
//! and delegates to an inner matcher over the transformed value. The
//! transform is invoked exactly once per `matches` call and its result is
//! passed on without duplication.

use vstd::prelude::*;
use vstd::string::StringExecFns;
use crate::description::Description;
use crate::matcher::{Matcher, MatcherResult};

verus! {

/// Matches when the inner matcher matches the image of the actual value
/// under the callable.
pub struct ResultOfMatcher<F, M> {
    pub callable: F,
    pub inner_matcher: M,
}

/// Builds a matcher that maps the actual value through `callable` and
/// checks the result with `inner_matcher`.
pub fn result_of<F, M>(callable: F, inner_matcher: M) -> (m: ResultOfMatcher<F, M>)
    ensures
        m.callable == callable,
        m.inner_matcher == inner_matcher,
{
    ResultOfMatcher { callable, inner_matcher }
}

impl<F, M> ResultOfMatcher<F, M> {
    /// Invokes the callable exactly once on the actual value and delegates
    /// to the inner matcher on the transformed value. The outcome reflects
    /// the inner matcher's verdict on a value the callable can return; when
    /// the callable is deterministic, that pins the outcome completely.
    pub fn matches<I, T>(&self, actual: I) -> (r: MatcherResult) where
        F: Fn(I) -> T,
        M: Matcher<T>,

        requires
            call_requires(self.callable, (actual,)),
        ensures
            exists|t: T|
                call_ensures(self.callable, (actual,), t) && ((r is Match)
                    == self.inner_matcher.spec_matches(t)),
    {
        let mapped = (self.callable)(actual);
        let r = self.inner_matcher.matches(&mapped);
        proof {
            assert(call_ensures(self.callable, (actual,), mapped) && ((r is Match)
                == self.inner_matcher.spec_matches(mapped)));
        }
        r
    }

    /// Renders as `"is mapped by the given callable to a value that "`
    /// followed by the inner matcher's description; the polarity-specific
    /// wording comes entirely from the inner matcher.
    pub fn describe<T>(&self, result: MatcherResult) -> (d: Description) where M: Matcher<T>,
        ensures
            d.spec_render() == "is mapped by the given callable to a value that "@
                + self.inner_matcher.spec_describe(result),
    {
        let mut s = String::from_str("is mapped by the given callable to a value that ");
        let inner = self.inner_matcher.describe(result).render();
        s.append(inner.as_str());
        Description::text(s)
    }
}

} // verus!
