//! The matcher capability: a two-valued outcome type and the polymorphic
//! contract (`matches`, `describe`, `explain_match`) that every concrete
//! matcher implements. All three operations are pure and deterministic, so
//! they may be called any number of times in any order.

use vstd::prelude::*;
use vstd::string::StringExecFns;
use crate::description::Description;
use crate::text::{spec_int_to_string, i64_to_string};

verus! {

/// The outcome of checking a matcher against an actual value. A dedicated
/// two-valued type, never a raw boolean, so that polarity stays explicit.
#[derive(Clone, Copy, PartialEq, Eq, Structural, Debug)]
pub enum MatcherResult {
    Match,
    NoMatch,
}

/// An immutable predicate-plus-explanation object over actual values of type
/// `A`. The three spec functions fix, for every implementation, exactly what
/// the three executable operations return; the fourth records whether the
/// explanation is a list that an embedding matcher must set off as an
/// indented block rather than splice inline.
pub trait Matcher<A>: Sized {
    /// Whether the matcher accepts the actual value.
    spec fn spec_matches(&self, actual: A) -> bool;

    /// The rendered text of `describe` for the requested polarity.
    spec fn spec_describe(&self, result: MatcherResult) -> Seq<char>;

    /// The rendered text of `explain_match` for the given actual value.
    spec fn spec_explain(&self, actual: A) -> Seq<char>;

    /// Whether `explain_match` returns a list-styled description.
    spec fn spec_explain_block(&self, actual: A) -> bool;

    /// Checks the actual value; pure and deterministic, with no observable
    /// side effect.
    fn matches(&self, actual: &A) -> (r: MatcherResult)
        ensures
            (r is Match) == self.spec_matches(*actual),
    ;

    /// The phrase describing what the matcher requires to reach the
    /// requested outcome, independent of any actual value.
    fn describe(&self, result: MatcherResult) -> (d: Description)
        ensures
            d.spec_render() == self.spec_describe(result),
    ;

    /// Explains, after the fact, why the actual value did or did not
    /// satisfy the matcher.
    fn explain_match(&self, actual: &A) -> (d: Description)
        ensures
            d.spec_render() == self.spec_explain(*actual),
            (!(d.list_style is NoList)) == self.spec_explain_block(*actual),
    ;
}

/// A value that can render itself as debug-style text, used when an
/// explanation has to quote the actual value's content.
pub trait DebugText {
    /// The debug representation as a sequence of characters.
    spec fn spec_debug(&self) -> Seq<char>;

    /// Renders the debug representation.
    fn debug_text(&self) -> (s: String)
        ensures
            s@ == self.spec_debug(),
    ;
}

impl DebugText for i64 {
    open spec fn spec_debug(&self) -> Seq<char> {
        spec_int_to_string(*self as int)
    }

    fn debug_text(&self) -> (s: String) {
        i64_to_string(*self)
    }
}

/// The items of `items` up to index `k`, rendered as debug text and joined
/// by `", "`.
pub open spec fn spec_debug_items<T: DebugText>(items: Seq<T>, k: int) -> Seq<char>
    decreases k,
{
    if k <= 0 {
        Seq::empty()
    } else if k == 1 {
        items[0].spec_debug()
    } else {
        spec_debug_items(items, k - 1) + seq![',', ' '] + items[k - 1].spec_debug()
    }
}

impl<T: DebugText> DebugText for Vec<T> {
    /// The same shape std's debug formatting gives a vector: the items joined
    /// by `", "`, between square brackets.
    open spec fn spec_debug(&self) -> Seq<char> {
        seq!['['] + spec_debug_items(self@, self@.len() as int) + seq![']']
    }

    fn debug_text(&self) -> (s: String) {
        let mut s = String::from_str("[");
        proof {
            reveal_strlit("[");
            assert(s@ =~= seq!['[']);
        }
        let n = self.len();
        let mut i: usize = 0;
        while i < n
            invariant
                i <= n,
                n == self@.len(),
                s@ == seq!['['] + spec_debug_items(self@, i as int),
            decreases n - i,
        {
            if i > 0 {
                s.append(", ");
                proof {
                    reveal_strlit(", ");
                    assert((", ")@ =~= seq![',', ' ']);
                }
            }
            let item = &self[i];
            let item_text = item.debug_text();
            s.append(item_text.as_str());
            proof {
                assert(s@ =~= seq!['['] + spec_debug_items(self@, i as int + 1));
            }
            i += 1;
        }
        s.append("]");
        proof {
            reveal_strlit("]");
            assert(s@ =~= self.spec_debug());
        }
        s
    }
}

} // verus!
