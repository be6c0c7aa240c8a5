//! Name predicate expressions.
use std::marker::PhantomData;
use vstd::prelude::*;

use crate::Predicate;

verus! {

/// Augment an existing predicate with a name.
///
/// It checks what the inner predicate checks, and describes itself by the
/// name alone.
#[derive(Debug)]
pub struct NamePredicate<M, Item> {
    inner: M,
    name: &'static str,
    _phantom: PhantomData<Item>,
}

impl<M, Item> NamePredicate<M, Item> {
    /// The predicate that is named.
    pub closed spec fn named(&self) -> M {
        self.inner
    }

    /// The label that stands for the inner predicate's description.
    pub closed spec fn label(&self) -> Seq<char> {
        self.name@
    }
}

impl<M, Item> Predicate<Item> for NamePredicate<M, Item> where M: Predicate<Item>, Item: View {
    open spec fn holds(&self, item: Item::V) -> bool {
        self.named().holds(item)
    }

    open spec fn description(&self) -> Seq<char> {
        self.label()
    }

    fn eval(&self, item: Item) -> (r: bool) {
        self.inner.eval(item)
    }

    fn describe(&self) -> (r: String) {
        String::from_str(self.name)
    }
}

/// `Predicate` extension that adds naming predicate expressions.
pub trait PredicateNameExt<Item: View>: Predicate<Item> + Sized {
    /// Name a predicate expression.
    fn name(self, name: &'static str) -> (r: NamePredicate<Self, Item>)
        ensures
            r.named() == self,
            r.label() == name@,
    {
        NamePredicate { inner: self, name, _phantom: PhantomData }
    }
}

impl<P, Item: View> PredicateNameExt<Item> for P where P: Predicate<Item> {

}

/// A named predicate checks what the unnamed one does, and its description is
/// exactly the label, whatever the inner description was.
pub proof fn lemma_name_keeps_eval_replaces_description<Item: View, P: Predicate<Item>>(
    named: NamePredicate<P, Item>,
    p: P,
    label: Seq<char>,
    x: Item::V,
)
    requires
        named.named() == p,
        named.label() == label,
    ensures
        named.holds(x) == p.holds(x),
        named.description() == label,
{
}

} // verus!
