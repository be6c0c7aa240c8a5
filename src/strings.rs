//! Predicates over text, and adapters that change the text before an inner
//! predicate sees it.
pub mod adapters;
pub mod basics;

pub use self::adapters::{trim, PredicateStrExt, TrimPredicate, Utf8Predicate};
pub use self::basics::{
    contains, ends_with, is_empty, starts_with, ContainsPredicate, EndsWithPredicate,
    IsEmptyPredicate, MatchesPredicate, StartsWithPredicate,
};
