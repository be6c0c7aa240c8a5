//! A predicate that hides the concrete type of another behind a shared,
//! heap-allocated handle, so that predicates of different types can be
//! stored side by side.
use vstd::prelude::*;

use crate::Predicate;

verus! {

/// A predicate that may be evaluated from several threads at once.
pub trait SharedPredicate<Item: View>: Predicate<Item> + Send + Sync {

}

impl<Item: View, P: Predicate<Item> + Send + Sync> SharedPredicate<Item> for P {

}

/// Relies on the unsizing coercion of `Box::new(p)` to a trait object: each
/// call through the object dispatches to `p`'s own impl, so the object checks
/// and describes exactly what `p` does. The object is handed back inside
/// `BoxPredicate`: Verus does not carry a contract on a bare trait-object
/// result over to the caller.
#[verifier::external_body]
fn erase<Item: View, P: Predicate<Item> + Send + Sync + 'static>(p: P) -> (r: BoxPredicate<Item>)
    ensures
        forall|x: Item::V| r.inner.holds(x) == p.holds(x),
        r.inner.description() == p.description(),
{
    BoxPredicate { inner: Box::new(p) }
}

/// `Predicate` that wraps another `Predicate` as a trait object, allowing
/// sized storage of predicate types.
///
/// Its check and its description are those of the trait object, which
/// dispatches to the value it was made from.
#[verifier::reject_recursive_types(Item)]
pub struct BoxPredicate<Item: View> {
    inner: Box<dyn SharedPredicate<Item>>,
}

impl<Item: View> BoxPredicate<Item> {
    /// Creates a new `BoxPredicate`, a wrapper around a dynamically-dispatched
    /// `Predicate`.
    pub fn new<P: Predicate<Item> + Send + Sync + 'static>(inner: P) -> (r: Self)
        ensures
            forall|x: Item::V| r.holds(x) == inner.holds(x),
            r.description() == inner.description(),
    {
        erase(inner)
    }
}

impl<Item: View> Predicate<Item> for BoxPredicate<Item> {
    closed spec fn holds(&self, item: Item::V) -> bool {
        self.inner.holds(item)
    }

    closed spec fn description(&self) -> Seq<char> {
        self.inner.description()
    }

    fn eval(&self, item: Item) -> (r: bool) {
        self.inner.eval(item)
    }

    fn describe(&self) -> (r: String) {
        self.inner.describe()
    }
}

} // verus!
