//! Leaf predicates over `str`.
use vstd::prelude::*;

use crate::Predicate;

verus! {

/// `p` occurs in `s` starting at character index `i`.
pub open spec fn occurs_at(s: Seq<char>, p: Seq<char>, i: int) -> bool {
    0 <= i && i + p.len() <= s.len() && s.subrange(i, i + p.len()) == p
}

/// `p` occurs somewhere in `s` as a contiguous run of characters.
pub open spec fn occurs_in(s: Seq<char>, p: Seq<char>) -> bool {
    exists|i: int| occurs_at(s, p, i)
}

/// The number of non-overlapping occurrences of a non-empty `p` in `s` from
/// index `i` on, scanning left to right and resuming after each match.
pub open spec fn count_from(s: Seq<char>, p: Seq<char>, i: int) -> nat
    decreases s.len() - i,
{
    if p.len() == 0 || i < 0 || i + p.len() > s.len() {
        0
    } else if occurs_at(s, p, i) {
        1 + count_from(s, p, i + p.len())
    } else {
        count_from(s, p, i + 1)
    }
}

/// The number of non-overlapping matches of `p` in `s`. The empty pattern
/// matches at each of the `s.len() + 1` positions between characters.
pub open spec fn match_count(s: Seq<char>, p: Seq<char>) -> nat {
    if p.len() == 0 {
        s.len() + 1
    } else {
        count_from(s, p, 0)
    }
}

/// The decimal rendering of `n`, most significant digit first.
pub open spec fn decimal(n: nat) -> Seq<char>
    decreases n,
{
    if n < 10 {
        seq![digit_char(n)]
    } else {
        decimal(n / 10).push(digit_char(n % 10))
    }
}

/// The character of the decimal digit `d`.
pub open spec fn digit_char(d: nat) -> char {
    if d == 0 { '0' }
    else if d == 1 { '1' }
    else if d == 2 { '2' }
    else if d == 3 { '3' }
    else if d == 4 { '4' }
    else if d == 5 { '5' }
    else if d == 6 { '6' }
    else if d == 7 { '7' }
    else if d == 8 { '8' }
    else { '9' }
}

/// The `Debug` rendering of a string: quoted, with escapes.
pub uninterp spec fn debug_quoted(s: Seq<char>) -> Seq<char>;

/// Relies on the `Debug` impl of `str`, which the result names.
#[verifier::external_body]
fn quoted(s: &str) -> (r: String)
    ensures
        r@ == debug_quoted(s@),
{
    format!("{:?}", s)
}

/// The text of the decimal digit `d`.
fn digit_text(d: usize) -> (r: &'static str)
    requires
        d < 10,
    ensures
        r@ == seq![digit_char(d as nat)],
{
    proof {
        reveal_strlit("0");
        reveal_strlit("1");
        reveal_strlit("2");
        reveal_strlit("3");
        reveal_strlit("4");
        reveal_strlit("5");
        reveal_strlit("6");
        reveal_strlit("7");
        reveal_strlit("8");
        reveal_strlit("9");
    }
    if d == 0 {
        "0"
    } else if d == 1 {
        "1"
    } else if d == 2 {
        "2"
    } else if d == 3 {
        "3"
    } else if d == 4 {
        "4"
    } else if d == 5 {
        "5"
    } else if d == 6 {
        "6"
    } else if d == 7 {
        "7"
    } else if d == 8 {
        "8"
    } else {
        "9"
    }
}

/// The digits of `n` in base ten.
fn decimal_text(n: usize) -> (r: String)
    ensures
        r@ == decimal(n as nat),
    decreases n,
{
    if n < 10 {
        String::from_str(digit_text(n))
    } else {
        let mut r = decimal_text(n / 10);
        r.append(digit_text(n % 10));
        r
    }
}

/// The characters of `s`, in order.
fn chars_of(s: &str) -> (r: Vec<char>)
    ensures
        r@ == s@,
{
    let n = s.unicode_len();
    let mut r: Vec<char> = Vec::new();
    let mut i: usize = 0;
    while i < n
        invariant
            n == s@.len(),
            i <= n,
            r@ == s@.subrange(0, i as int),
        decreases n - i,
    {
        r.push(s.get_char(i));
        i = i + 1;
    }
    assert(r@ =~= s@);
    r
}

/// Whether `p` occurs in `s` at index `i`.
fn occurs_at_exec(s: &Vec<char>, p: &Vec<char>, i: usize) -> (r: bool)
    ensures
        r == occurs_at(s@, p@, i as int),
{
    if i > s.len() || p.len() > s.len() - i {
        return false;
    }
    let mut k: usize = 0;
    while k < p.len()
        invariant
            i + p@.len() <= s@.len(),
            s@.len() <= usize::MAX,
            k <= p@.len(),
            forall|j: int| 0 <= j < k ==> s@[i + j] == p@[j],
        decreases p@.len() - k,
    {
        if s[i + k] != p[k] {
            assert(s@.subrange(i as int, i + p@.len())[k as int] != p@[k as int]);
            return false;
        }
        k = k + 1;
    }
    assert(s@.subrange(i as int, i + p@.len()) =~= p@);
    true
}

/// Whether `p` occurs anywhere in `s`.
fn occurs_in_exec(s: &Vec<char>, p: &Vec<char>) -> (r: bool)
    ensures
        r == occurs_in(s@, p@),
{
    if p.len() > s.len() {
        assert(forall|i: int| !occurs_at(s@, p@, i));
        return false;
    }
    let last = s.len() - p.len();
    let mut i: usize = 0;
    while i < last
        invariant
            last + p@.len() == s@.len(),
            i <= last,
            forall|j: int| 0 <= j < i ==> !occurs_at(s@, p@, j),
        decreases last - i,
    {
        if occurs_at_exec(s, p, i) {
            return true;
        }
        i = i + 1;
    }
    let r = occurs_at_exec(s, p, last);
    assert(r || forall|j: int| !occurs_at(s@, p@, j));
    r
}

/// The number of non-overlapping matches of `p` in `s`.
fn count_matches(s: &Vec<char>, p: &Vec<char>) -> (r: usize)
    requires
        p@.len() > 0,
    ensures
        r == count_from(s@, p@, 0),
{
    let m = p.len();
    let n = s.len();
    let mut c: usize = 0;
    let mut i: usize = 0;
    while i < n && m <= n - i
        invariant
            m == p@.len(),
            n == s@.len(),
            m > 0,
            i <= n,
            c <= i,
            c + count_from(s@, p@, i as int) == count_from(s@, p@, 0),
        decreases n - i,
    {
        if occurs_at_exec(s, p, i) {
            c = c + 1;
            i = i + m;
        } else {
            i = i + 1;
        }
    }
    c
}

/// Predicate that checks for empty strings.
#[derive(Copy, Clone, Debug)]
pub struct IsEmptyPredicate {}

impl<'a> Predicate<&'a str> for IsEmptyPredicate {
    open spec fn holds(&self, item: Seq<char>) -> bool {
        item.len() == 0
    }

    open spec fn description(&self) -> Seq<char> {
        "var.is_empty()"@
    }

    fn eval(&self, item: &'a str) -> (r: bool) {
        item.is_empty()
    }

    fn describe(&self) -> (r: String) {
        String::from_str("var.is_empty()")
    }
}

/// Creates a new `Predicate` that ensures a str is empty.
pub fn is_empty() -> (r: IsEmptyPredicate) {
    IsEmptyPredicate {  }
}

/// Predicate checks start of str.
#[derive(Clone, Debug)]
pub struct StartsWithPredicate {
    pattern: String,
}

impl StartsWithPredicate {
    /// The text that a match begins with.
    pub closed spec fn prefix(&self) -> Seq<char> {
        self.pattern@
    }
}

impl<'a> Predicate<&'a str> for StartsWithPredicate {
    open spec fn holds(&self, item: Seq<char>) -> bool {
        occurs_at(item, self.prefix(), 0)
    }

    open spec fn description(&self) -> Seq<char> {
        "var.starts_with("@ + debug_quoted(self.prefix()) + ")"@
    }

    fn eval(&self, item: &'a str) -> (r: bool) {
        let s = chars_of(item);
        let p = chars_of(self.pattern.as_str());
        occurs_at_exec(&s, &p, 0)
    }

    fn describe(&self) -> (r: String) {
        let mut r = String::from_str("var.starts_with(");
        r.append(quoted(self.pattern.as_str()).as_str());
        r.append(")");
        r
    }
}

/// Creates a new `Predicate` that ensures a str starts with `pattern`.
pub fn starts_with(pattern: &str) -> (r: StartsWithPredicate)
    ensures
        r.prefix() == pattern@,
{
    StartsWithPredicate { pattern: String::from_str(pattern) }
}

/// Predicate checks end of str.
#[derive(Clone, Debug)]
pub struct EndsWithPredicate {
    pattern: String,
}

impl EndsWithPredicate {
    /// The text that a match ends with.
    pub closed spec fn suffix(&self) -> Seq<char> {
        self.pattern@
    }
}

impl<'a> Predicate<&'a str> for EndsWithPredicate {
    open spec fn holds(&self, item: Seq<char>) -> bool {
        occurs_at(item, self.suffix(), item.len() - self.suffix().len())
    }

    open spec fn description(&self) -> Seq<char> {
        "var.ends_with("@ + debug_quoted(self.suffix()) + ")"@
    }

    fn eval(&self, item: &'a str) -> (r: bool) {
        let s = chars_of(item);
        let p = chars_of(self.pattern.as_str());
        if p.len() > s.len() {
            false
        } else {
            occurs_at_exec(&s, &p, s.len() - p.len())
        }
    }

    fn describe(&self) -> (r: String) {
        let mut r = String::from_str("var.ends_with(");
        r.append(quoted(self.pattern.as_str()).as_str());
        r.append(")");
        r
    }
}

/// Creates a new `Predicate` that ensures a str ends with `pattern`.
pub fn ends_with(pattern: &str) -> (r: EndsWithPredicate)
    ensures
        r.suffix() == pattern@,
{
    EndsWithPredicate { pattern: String::from_str(pattern) }
}

/// Predicate that checks for patterns.
#[derive(Clone, Debug)]
pub struct ContainsPredicate {
    pattern: String,
}

impl ContainsPredicate {
    /// The text searched for.
    pub closed spec fn needle(&self) -> Seq<char> {
        self.pattern@
    }

    /// Require a specific count of non-overlapping matches.
    pub fn count(self, count: usize) -> (r: MatchesPredicate)
        ensures
            r.needle() == self.needle(),
            r.expected() == count,
    {
        MatchesPredicate { pattern: self.pattern, count }
    }
}

impl<'a> Predicate<&'a str> for ContainsPredicate {
    open spec fn holds(&self, item: Seq<char>) -> bool {
        occurs_in(item, self.needle())
    }

    open spec fn description(&self) -> Seq<char> {
        "var.contains("@ + debug_quoted(self.needle()) + ")"@
    }

    fn eval(&self, item: &'a str) -> (r: bool) {
        let s = chars_of(item);
        let p = chars_of(self.pattern.as_str());
        occurs_in_exec(&s, &p)
    }

    fn describe(&self) -> (r: String) {
        let mut r = String::from_str("var.contains(");
        r.append(quoted(self.pattern.as_str()).as_str());
        r.append(")");
        r
    }
}

/// Predicate that checks for repeated patterns.
#[derive(Clone, Debug)]
pub struct MatchesPredicate {
    pattern: String,
    count: usize,
}

impl MatchesPredicate {
    /// The text searched for.
    pub closed spec fn needle(&self) -> Seq<char> {
        self.pattern@
    }

    /// The number of matches required.
    pub closed spec fn expected(&self) -> nat {
        self.count as nat
    }
}

impl<'a> Predicate<&'a str> for MatchesPredicate {
    open spec fn holds(&self, item: Seq<char>) -> bool {
        match_count(item, self.needle()) == self.expected()
    }

    open spec fn description(&self) -> Seq<char> {
        "var.contains("@ + debug_quoted(self.needle()) + ", "@ + decimal(self.expected()) + ")"@
    }

    fn eval(&self, item: &'a str) -> (r: bool) {
        let s = chars_of(item);
        let p = chars_of(self.pattern.as_str());
        if p.len() == 0 {
            self.count > 0 && self.count - 1 == s.len()
        } else {
            count_matches(&s, &p) == self.count
        }
    }

    fn describe(&self) -> (r: String) {
        let mut r = String::from_str("var.contains(");
        r.append(quoted(self.pattern.as_str()).as_str());
        r.append(", ");
        r.append(decimal_text(self.count).as_str());
        r.append(")");
        r
    }
}

/// Creates a new `Predicate` that ensures a str contains `pattern`.
pub fn contains(pattern: &str) -> (r: ContainsPredicate)
    ensures
        r.needle() == pattern@,
{
    ContainsPredicate { pattern: String::from_str(pattern) }
}

proof fn lemma_count_from_zero(s: Seq<char>, p: Seq<char>, i: int)
    requires
        p.len() > 0,
        0 <= i,
    ensures
        count_from(s, p, i) == 0 <==> forall|j: int| i <= j ==> !occurs_at(s, p, j),
    decreases s.len() - i,
{
    if i + p.len() > s.len() {
    } else if occurs_at(s, p, i) {
    } else {
        lemma_count_from_zero(s, p, i + 1);
        assert forall|j: int| i <= j && #[trigger] occurs_at(s, p, j) implies i + 1 <= j by {}
    }
}

/// The empty pattern is a prefix, a suffix and a part of every text.
pub proof fn lemma_empty_pattern_always_matches(
    sw: StartsWithPredicate,
    ew: EndsWithPredicate,
    c: ContainsPredicate,
    s: Seq<char>,
)
    requires
        sw.prefix().len() == 0,
        ew.suffix().len() == 0,
        c.needle().len() == 0,
    ensures
        <StartsWithPredicate as Predicate<&str>>::holds(&sw, s),
        <EndsWithPredicate as Predicate<&str>>::holds(&ew, s),
        <ContainsPredicate as Predicate<&str>>::holds(&c, s),
{
    assert(s.subrange(0, 0) =~= sw.prefix());
    assert(s.subrange(s.len() as int, s.len() as int) =~= ew.suffix());
    assert(s.subrange(0, 0) =~= c.needle());
    assert(occurs_at(s, c.needle(), 0));
}

/// Requiring zero matches of a non-empty pattern accepts exactly the texts in
/// which the pattern does not occur.
pub proof fn lemma_zero_count_iff_absent(m: MatchesPredicate, s: Seq<char>)
    requires
        m.expected() == 0,
        m.needle().len() > 0,
    ensures
        <MatchesPredicate as Predicate<&str>>::holds(&m, s) <==> !occurs_in(s, m.needle()),
{
    lemma_count_from_zero(s, m.needle(), 0);
    if occurs_in(s, m.needle()) {
        let j = choose|j: int| occurs_at(s, m.needle(), j);
        assert(0 <= j);
    }
}

} // verus!
