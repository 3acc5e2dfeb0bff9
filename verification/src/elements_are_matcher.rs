//! The elements-are combinator: a structural matcher pairing each position
//! of an actual sequence with its own child matcher. The arity is fixed at
//! construction. A length mismatch is a normal no-match outcome explained as
//! `"whose size is N"`; positional mismatches are explained as a bullet
//! list, and a child whose own explanation is a list is set off as an
//! indented sub-list, so mismatches nest to arbitrary depth with correct,
//! non-duplicated indentation.

use vstd::prelude::*;
use vstd::string::StringExecFns;
use crate::description::{Description, IndentMode, ListStyle, spec_render_parts};
use crate::matcher::{DebugText, Matcher, MatcherResult};
use crate::text::{spec_nat_to_string, usize_to_string};

verus! {

/// Matches a vector whose length equals the number of child matchers and
/// whose element at each position matches the child bound to that position.
pub struct ElementsAreMatcher<M> {
    pub children: Vec<M>,
}

/// Builds a matcher binding one child matcher to each expected position.
pub fn elements_are<M>(children: Vec<M>) -> (m: ElementsAreMatcher<M>)
    ensures
        m.children == children,
{
    ElementsAreMatcher { children }
}

/// Whether every child accepts the actual element at its position.
pub open spec fn spec_all_match<E, M: Matcher<E>>(children: Seq<M>, actual: Seq<E>) -> bool {
    forall|i: int| 0 <= i < children.len() ==> #[trigger] children[i].spec_matches(actual[i])
}

/// The text explaining one mismatching position: the index, the actual
/// element's debug text, and the child's explanation, spliced inline after
/// `", which "` or, when the child's explanation is itself a list, set off
/// after `", which:"` on the following lines.
pub open spec fn spec_mismatch_item<E: DebugText, M: Matcher<E>>(m: M, a: E, idx: nat) -> Seq<
    char,
> {
    "element #"@ + spec_nat_to_string(idx) + " is "@ + a.spec_debug() + ", which"@ + (
    if m.spec_explain_block(a) {
        seq![':', '\n'] + m.spec_explain(a)
    } else {
        seq![' '] + m.spec_explain(a)
    })
}

/// The mismatch texts of the first `k` positions, in position order.
pub open spec fn spec_mismatch_items<E: DebugText, M: Matcher<E>>(
    children: Seq<M>,
    actual: Seq<E>,
    k: int,
) -> Seq<Seq<char>>
    decreases k,
{
    if k <= 0 {
        Seq::empty()
    } else {
        spec_mismatch_items(children, actual, k - 1) + (
        if children[k - 1].spec_matches(actual[k - 1]) {
            Seq::<Seq<char>>::empty()
        } else {
            seq![spec_mismatch_item(children[k - 1], actual[k - 1], (k - 1) as nat)]
        })
    }
}

/// Each child's description of what it requires to match, in position order.
pub open spec fn spec_child_descriptions<E, M: Matcher<E>>(children: Seq<M>) -> Seq<Seq<char>> {
    Seq::new(children.len(), |i: int| children[i].spec_describe(MatcherResult::Match))
}

impl<E: DebugText, M: Matcher<E>> Matcher<Vec<E>> for ElementsAreMatcher<M> {
    open spec fn spec_matches(&self, actual: Vec<E>) -> bool {
        actual@.len() == self.children@.len() && spec_all_match(self.children@, actual@)
    }

    /// `"has elements:"` (or `"doesn't have elements:"` for the failing
    /// polarity) followed by the enumerated, indented list of the children's
    /// descriptions.
    open spec fn spec_describe(&self, result: MatcherResult) -> Seq<char> {
        (if result is Match {
            "has elements:\n"@
        } else {
            "doesn't have elements:\n"@
        }) + spec_render_parts(
            spec_child_descriptions(self.children@),
            IndentMode::EveryLine,
            ListStyle::Enumerate,
        )
    }

    /// `"whose size is N"` when the lengths differ; otherwise the bullet
    /// list of the mismatching positions, or a fixed all-match phrase when
    /// every position matches.
    open spec fn spec_explain(&self, actual: Vec<E>) -> Seq<char> {
        if actual@.len() != self.children@.len() {
            "whose size is "@ + spec_nat_to_string(actual@.len())
        } else if spec_all_match(self.children@, actual@) {
            "whose elements all match"@
        } else {
            spec_render_parts(
                spec_mismatch_items(self.children@, actual@, self.children@.len() as int),
                IndentMode::AllExceptFirstLine,
                ListStyle::Bullet,
            )
        }
    }

    open spec fn spec_explain_block(&self, actual: Vec<E>) -> bool {
        actual@.len() == self.children@.len() && !spec_all_match(self.children@, actual@)
    }

    fn matches(&self, actual: &Vec<E>) -> (r: MatcherResult) {
        if actual.len() != self.children.len() {
            return MatcherResult::NoMatch;
        }
        let n = self.children.len();
        let mut all = true;
        let mut i: usize = 0;
        while i < n
            invariant
                i <= n,
                n == self.children@.len(),
                actual@.len() == n,
                all == (forall|j: int|
                    0 <= j < i ==> #[trigger] self.children@[j].spec_matches(actual@[j])),
            decreases n - i,
        {
            let child = &self.children[i];
            match child.matches(&actual[i]) {
                MatcherResult::Match => {},
                MatcherResult::NoMatch => {
                    all = false;
                },
            }
            i += 1;
        }
        if all {
            MatcherResult::Match
        } else {
            MatcherResult::NoMatch
        }
    }

    fn describe(&self, result: MatcherResult) -> (d: Description) {
        let n = self.children.len();
        let mut texts: Vec<String> = Vec::new();
        let mut i: usize = 0;
        while i < n
            invariant
                i <= n,
                n == self.children@.len(),
                texts@.len() == i,
                forall|j: int|
                    0 <= j < i ==> texts@[j]@ == #[trigger] self.children@[j].spec_describe(
                        MatcherResult::Match,
                    ),
            decreases n - i,
        {
            let child = &self.children[i];
            let text = child.describe(MatcherResult::Match).render();
            texts.push(text);
            i += 1;
        }
        let list = Description::new(texts).enumerate().indent();
        proof {
            assert(list.spec_elements() =~= spec_child_descriptions(self.children@));
        }
        let rendered = list.render();
        let mut s = match result {
            MatcherResult::Match => String::from_str("has elements:\n"),
            MatcherResult::NoMatch => String::from_str("doesn't have elements:\n"),
        };
        s.append(rendered.as_str());
        Description::text(s)
    }

    fn explain_match(&self, actual: &Vec<E>) -> (d: Description) {
        if actual.len() != self.children.len() {
            let mut s = String::from_str("whose size is ");
            let digits = usize_to_string(actual.len());
            s.append(digits.as_str());
            return Description::text(s);
        }
        let n = self.children.len();
        let mut items: Vec<String> = Vec::new();
        let mut all = true;
        let mut i: usize = 0;
        while i < n
            invariant
                i <= n,
                n == self.children@.len(),
                actual@.len() == n,
                all == (forall|j: int|
                    0 <= j < i ==> #[trigger] self.children@[j].spec_matches(actual@[j])),
                items.deep_view() == spec_mismatch_items(self.children@, actual@, i as int),
            decreases n - i,
        {
            let child = &self.children[i];
            match child.matches(&actual[i]) {
                MatcherResult::Match => {},
                MatcherResult::NoMatch => {
                    all = false;
                    let mut item = String::from_str("element #");
                    let idx_digits = usize_to_string(i);
                    item.append(idx_digits.as_str());
                    item.append(" is ");
                    let element = &actual[i];
                    let debug = element.debug_text();
                    item.append(debug.as_str());
                    item.append(", which");
                    let explanation = child.explain_match(&actual[i]);
                    if matches!(explanation.list_style, ListStyle::NoList) {
                        item.append(" ");
                    } else {
                        item.append(":\n");
                    }
                    let explanation_text = explanation.render();
                    item.append(explanation_text.as_str());
                    proof {
                        reveal_strlit(" ");
                        reveal_strlit(":\n");
                        assert(item@ =~= spec_mismatch_item(
                            self.children@[i as int],
                            actual@[i as int],
                            i as nat,
                        ));
                    }
                    items.push(item);
                },
            }
            proof {
                assert(items.deep_view() =~= spec_mismatch_items(
                    self.children@,
                    actual@,
                    i as int + 1,
                ));
            }
            i += 1;
        }
        if all {
            Description::text(String::from_str("whose elements all match"))
        } else {
            Description::new(items).bullet_list().indent_except_first_line()
        }
    }
}

/// An elements-are matcher checked against a sequence of the wrong length
/// reports no match and explains itself as exactly `"whose size is "`
/// followed by the actual length.
pub proof fn lemma_size_mismatch_explanation<E: DebugText, M: Matcher<E>>(
    m: ElementsAreMatcher<M>,
    actual: Vec<E>,
)
    requires
        actual@.len() != m.children@.len(),
    ensures
        !m.spec_matches(actual),
        m.spec_explain(actual) == "whose size is "@ + spec_nat_to_string(actual@.len()),
{
}

} // verus!
