//! Boolean logic combinators over `Predicate`s.
use std::marker::PhantomData;
use vstd::prelude::*;

use crate::Predicate;

verus! {

/// Description of a combinator that joins `a` and `b` with the operator `op`:
/// `(a op b)`.
pub open spec fn joined(a: Seq<char>, op: Seq<char>, b: Seq<char>) -> Seq<char> {
    "("@ + a + " "@ + op + " "@ + b + ")"@
}

/// Predicate that combines two `Predicate`s, returning the AND of the results.
#[derive(Debug)]
pub struct AndPredicate<M1, M2, Item> {
    a: M1,
    b: M2,
    _phantom: PhantomData<Item>,
}

impl<M1, M2, Item> AndPredicate<M1, M2, Item> {
    /// The left operand, evaluated first.
    pub closed spec fn left(&self) -> M1 {
        self.a
    }

    /// The right operand, evaluated only when the left one accepts.
    pub closed spec fn right(&self) -> M2 {
        self.b
    }

    /// Create a new `AndPredicate` over predicates `a` and `b`.
    pub fn new(a: M1, b: M2) -> (r: AndPredicate<M1, M2, Item>)
        ensures
            r.left() == a,
            r.right() == b,
    {
        AndPredicate { a: a, b: b, _phantom: PhantomData }
    }
}

impl<M1, M2, Item> Predicate<Item> for AndPredicate<M1, M2, Item> where
    M1: Predicate<Item>,
    M2: Predicate<Item>,
    Item: Copy + View,
 {
    open spec fn holds(&self, item: Item::V) -> bool {
        self.left().holds(item) && self.right().holds(item)
    }

    open spec fn description(&self) -> Seq<char> {
        joined(self.left().description(), "&&"@, self.right().description())
    }

    fn eval(&self, item: Item) -> (r: bool) {
        self.a.eval(item) && self.b.eval(item)
    }

    fn describe(&self) -> (r: String) {
        let mut r = String::from_str("(");
        r.append(self.a.describe().as_str());
        r.append(" && ");
        r.append(self.b.describe().as_str());
        r.append(")");
        proof {
            reveal_strlit("(");
            reveal_strlit(" && ");
            reveal_strlit(")");
            reveal_strlit("&&");
            reveal_strlit(" ");
            assert(r@ =~= self.description());
        }
        r
    }
}

/// Predicate that combines two `Predicate`s, returning the OR of the results.
#[derive(Debug)]
pub struct OrPredicate<M1, M2, Item> {
    a: M1,
    b: M2,
    _phantom: PhantomData<Item>,
}

impl<M1, M2, Item> OrPredicate<M1, M2, Item> {
    /// The left operand, evaluated first.
    pub closed spec fn left(&self) -> M1 {
        self.a
    }

    /// The right operand, evaluated only when the left one rejects.
    pub closed spec fn right(&self) -> M2 {
        self.b
    }

    /// Create a new `OrPredicate` over predicates `a` and `b`.
    pub fn new(a: M1, b: M2) -> (r: OrPredicate<M1, M2, Item>)
        ensures
            r.left() == a,
            r.right() == b,
    {
        OrPredicate { a: a, b: b, _phantom: PhantomData }
    }
}

impl<M1, M2, Item> Predicate<Item> for OrPredicate<M1, M2, Item> where
    M1: Predicate<Item>,
    M2: Predicate<Item>,
    Item: Copy + View,
 {
    open spec fn holds(&self, item: Item::V) -> bool {
        self.left().holds(item) || self.right().holds(item)
    }

    open spec fn description(&self) -> Seq<char> {
        joined(self.left().description(), "||"@, self.right().description())
    }

    fn eval(&self, item: Item) -> (r: bool) {
        self.a.eval(item) || self.b.eval(item)
    }

    fn describe(&self) -> (r: String) {
        let mut r = String::from_str("(");
        r.append(self.a.describe().as_str());
        r.append(" || ");
        r.append(self.b.describe().as_str());
        r.append(")");
        proof {
            reveal_strlit("(");
            reveal_strlit(" || ");
            reveal_strlit(")");
            reveal_strlit("||");
            reveal_strlit(" ");
            assert(r@ =~= self.description());
        }
        r
    }
}

/// Predicate that returns a `Predicate` taking the logical NOT of the result.
#[derive(Debug)]
pub struct NotPredicate<M, Item> {
    inner: M,
    _phantom: PhantomData<Item>,
}

impl<M, Item> NotPredicate<M, Item> {
    /// The predicate whose result is negated.
    pub closed spec fn operand(&self) -> M {
        self.inner
    }

    /// Create a new `NotPredicate` over predicate `inner`.
    pub fn new(inner: M) -> (r: NotPredicate<M, Item>)
        ensures
            r.operand() == inner,
    {
        NotPredicate { inner: inner, _phantom: PhantomData }
    }
}

impl<M, Item> Predicate<Item> for NotPredicate<M, Item> where M: Predicate<Item>, Item: Copy + View {
    open spec fn holds(&self, item: Item::V) -> bool {
        !self.operand().holds(item)
    }

    open spec fn description(&self) -> Seq<char> {
        "(! "@ + self.operand().description() + ")"@
    }

    fn eval(&self, item: Item) -> (r: bool) {
        !self.inner.eval(item)
    }

    fn describe(&self) -> (r: String) {
        let mut r = String::from_str("(! ");
        r.append(self.inner.describe().as_str());
        r.append(")");
        proof {
            reveal_strlit("(! ");
            reveal_strlit(")");
            assert(r@ =~= self.description());
        }
        r
    }
}

/// Builders that combine a `Predicate` with others by boolean logic.
pub trait PredicateBooleanExt<Item: Copy + View>: Predicate<Item> + Sized {
    /// A predicate that accepts what both `self` and `other` accept.
    fn and<B: Predicate<Item>>(self, other: B) -> (r: AndPredicate<Self, B, Item>)
        ensures
            r.left() == self,
            r.right() == other,
    {
        AndPredicate::new(self, other)
    }

    /// A predicate that accepts what `self` or `other` accepts.
    fn or<B: Predicate<Item>>(self, other: B) -> (r: OrPredicate<Self, B, Item>)
        ensures
            r.left() == self,
            r.right() == other,
    {
        OrPredicate::new(self, other)
    }

    /// A predicate that accepts what `self` rejects.
    fn not(self) -> (r: NotPredicate<Self, Item>)
        ensures
            r.operand() == self,
    {
        NotPredicate::new(self)
    }
}

impl<Item: Copy + View, P: Predicate<Item>> PredicateBooleanExt<Item> for P {

}

/// The three combinators compute the boolean operations on their operands'
/// results, for every item.
pub proof fn lemma_boolean_semantics<Item: Copy + View, P: Predicate<Item>, Q: Predicate<Item>>(
    and_pq: AndPredicate<P, Q, Item>,
    or_pq: OrPredicate<P, Q, Item>,
    not_p: NotPredicate<P, Item>,
    p: P,
    q: Q,
    x: Item::V,
)
    requires
        and_pq.left() == p && and_pq.right() == q,
        or_pq.left() == p && or_pq.right() == q,
        not_p.operand() == p,
    ensures
        and_pq.holds(x) == (p.holds(x) && q.holds(x)),
        or_pq.holds(x) == (p.holds(x) || q.holds(x)),
        not_p.holds(x) == !p.holds(x),
{
}

/// De Morgan: the negation of a conjunction accepts exactly what the
/// disjunction of the negations accepts.
pub proof fn lemma_de_morgan<Item: Copy + View, P: Predicate<Item>, Q: Predicate<Item>>(
    lhs: NotPredicate<AndPredicate<P, Q, Item>, Item>,
    rhs: OrPredicate<NotPredicate<P, Item>, NotPredicate<Q, Item>, Item>,
    p: P,
    q: Q,
    x: Item::V,
)
    requires
        lhs.operand().left() == p,
        lhs.operand().right() == q,
        rhs.left().operand() == p,
        rhs.right().operand() == q,
    ensures
        lhs.holds(x) == rhs.holds(x),
{
}

} // verus!
