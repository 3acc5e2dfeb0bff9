//! A matcher-combinator core: composable predicates over values, each able to
//! describe what it requires and to explain, after the fact, why an actual
//! value did or did not satisfy it. The text of those descriptions and
//! explanations is built lazily by the [`description::Description`] engine,
//! which handles indentation, bullet lists and enumerated lists so that
//! nested combinators render at arbitrary depth without duplicated markers.

pub mod description;
pub mod disjunction_matcher;
pub mod elements_are_matcher;
pub mod leaf_matchers;
pub mod matcher;
pub mod result_of_matcher;
pub mod text;
