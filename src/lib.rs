//! Composable boolean predicates: a single evaluation capability, logical
//! combinators over it, naming and type erasure, and a set of predicates and
//! adapters over text.
use vstd::prelude::*;

pub mod boolean;
pub mod boxed;
pub mod name;
pub mod strings;

verus! {

/// A check on a value of type `Item`, together with a human-readable
/// description of what it checks.
///
/// `holds` is the mathematical meaning of the check, stated over the item's
/// view; `eval` computes it, and `describe` renders `description`.
pub trait Predicate<Item: View> {
    /// Whether the check accepts an item whose view is `item`.
    spec fn holds(&self, item: Item::V) -> bool;

    /// The text that `describe` returns.
    spec fn description(&self) -> Seq<char>;

    /// Executes the check on `item`.
    fn eval(&self, item: Item) -> (r: bool)
        ensures
            r == self.holds(item@),
    ;

    /// Renders what the check does.
    fn describe(&self) -> (r: String)
        ensures
            r@ == self.description(),
    ;
}

} // verus!
