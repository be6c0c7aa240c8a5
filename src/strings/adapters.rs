//! Adapters that transform text before an inner predicate sees it.
use vstd::prelude::*;
use vstd::utf8::{decode_utf8, valid_utf8};

use crate::strings::basics::IsEmptyPredicate;
use crate::Predicate;

verus! {

/// Whether `c` has the Unicode `White_Space` property.
pub open spec fn white_space(c: char) -> bool {
    let u = c as u32;
    (0x9 <= u <= 0xd) || u == 0x20 || u == 0x85 || u == 0xa0 || u == 0x1680 || (0x2000 <= u
        <= 0x200a) || u == 0x2028 || u == 0x2029 || u == 0x202f || u == 0x205f || u == 0x3000
}

/// `s` without its leading white space.
pub open spec fn trim_front(s: Seq<char>) -> Seq<char>
    decreases s.len(),
{
    if s.len() > 0 && white_space(s[0]) {
        trim_front(s.drop_first())
    } else {
        s
    }
}

/// `s` without its trailing white space.
pub open spec fn trim_back(s: Seq<char>) -> Seq<char>
    decreases s.len(),
{
    if s.len() > 0 && white_space(s.last()) {
        trim_back(s.drop_last())
    } else {
        s
    }
}

/// `s` without its leading and trailing white space.
pub open spec fn trimmed(s: Seq<char>) -> Seq<char> {
    trim_back(trim_front(s))
}

/// Whether `c` is white space.
pub fn is_white_space(c: char) -> (r: bool)
    ensures
        r == white_space(c),
{
    let u = c as u32;
    (0x9 <= u && u <= 0xd) || u == 0x20 || u == 0x85 || u == 0xa0 || u == 0x1680 || (0x2000 <= u
        && u <= 0x200a) || u == 0x2028 || u == 0x2029 || u == 0x202f || u == 0x205f || u == 0x3000
}

/// `s` with its leading and trailing white space removed.
pub fn trim(s: &str) -> (r: &str)
    ensures
        r@ == trimmed(s@),
{
    let n = s.unicode_len();
    let mut i: usize = 0;
    assert(s@.subrange(0, n as int) =~= s@);
    while i < n && is_white_space(s.get_char(i))
        invariant
            n == s@.len(),
            i <= n,
            trim_front(s@) == trim_front(s@.subrange(i as int, n as int)),
        decreases n - i,
    {
        assert(s@.subrange(i as int, n as int).drop_first() =~= s@.subrange(i + 1, n as int));
        i = i + 1;
    }
    let mut j: usize = n;
    while j > i && is_white_space(s.get_char(j - 1))
        invariant
            n == s@.len(),
            i <= j <= n,
            trimmed(s@) == trim_back(s@.subrange(i as int, j as int)),
        decreases j - i,
    {
        assert(s@.subrange(i as int, j as int).drop_last() =~= s@.subrange(i as int, j - 1));
        j = j - 1;
    }
    s.substring_char(i, j)
}

/// Relies on `std::str::from_utf8`: it succeeds exactly on valid UTF-8, and
/// then yields the text that the bytes encode.
#[verifier::external_body]
fn text_of<'a>(bytes: &'a [u8]) -> (r: Option<&'a str>)
    ensures
        r is Some <==> valid_utf8(bytes@),
        r matches Some(s) ==> s@ == decode_utf8(bytes@),
{
    std::str::from_utf8(bytes).ok()
}

/// Predicate adapter that trims the variable being tested.
#[derive(Clone, Debug)]
pub struct TrimPredicate<P> {
    p: P,
}

impl<P> TrimPredicate<P> {
    /// The predicate that sees the trimmed text.
    pub closed spec fn inner(&self) -> P {
        self.p
    }
}

impl<'a, P: Predicate<&'a str>> Predicate<&'a str> for TrimPredicate<P> {
    open spec fn holds(&self, item: Seq<char>) -> bool {
        self.inner().holds(trimmed(item))
    }

    open spec fn description(&self) -> Seq<char> {
        self.inner().description()
    }

    fn eval(&self, item: &'a str) -> (r: bool) {
        self.p.eval(trim(item))
    }

    fn describe(&self) -> (r: String) {
        self.p.describe()
    }
}

/// Predicate adapter that converts a `str` predicate to a byte predicate.
///
/// Bytes that are not valid UTF-8 are rejected.
#[derive(Clone, Debug)]
pub struct Utf8Predicate<P> {
    p: P,
}

impl<P> Utf8Predicate<P> {
    /// The predicate that sees the decoded text.
    pub closed spec fn inner(&self) -> P {
        self.p
    }
}

impl<'a, P: Predicate<&'a str>> Predicate<&'a [u8]> for Utf8Predicate<P> {
    open spec fn holds(&self, item: Seq<u8>) -> bool {
        valid_utf8(item) && self.inner().holds(decode_utf8(item))
    }

    open spec fn description(&self) -> Seq<char> {
        self.inner().description()
    }

    fn eval(&self, item: &'a [u8]) -> (r: bool) {
        match text_of(item) {
            Some(s) => self.p.eval(s),
            None => false,
        }
    }

    fn describe(&self) -> (r: String) {
        self.p.describe()
    }
}

/// `Predicate` extension adapting a `str` predicate.
pub trait PredicateStrExt<'a>: Predicate<&'a str> + Sized {
    /// Returns a `TrimPredicate` that ensures the data passed to `Self` is trimmed.
    fn trim(self) -> (r: TrimPredicate<Self>)
        ensures
            r.inner() == self,
    {
        TrimPredicate { p: self }
    }

    /// Returns a `Utf8Predicate` that adapts `Self` to a `[u8]` `Predicate`.
    fn from_utf8(self) -> (r: Utf8Predicate<Self>)
        ensures
            r.inner() == self,
    {
        Utf8Predicate { p: self }
    }
}

impl<'a, P: Predicate<&'a str>> PredicateStrExt<'a> for P {

}

/// The UTF-8 adapter hands the decoded text to its inner predicate, and
/// rejects bytes that are not valid UTF-8 whatever the inner predicate is.
pub proof fn lemma_utf8_adapter<'a, P: Predicate<&'a str>>(
    u: Utf8Predicate<P>,
    p: P,
    bytes: Seq<u8>,
)
    requires
        u.inner() == p,
    ensures
        !valid_utf8(bytes) ==> !u.holds(bytes),
        valid_utf8(bytes) ==> (u.holds(bytes) == p.holds(decode_utf8(bytes))),
{
}

/// The trim adapter's inner predicate judges the text without its leading and
/// trailing white space.
pub proof fn lemma_trim_adapter<'a, P: Predicate<&'a str>>(
    t: TrimPredicate<P>,
    p: P,
    s: Seq<char>,
)
    requires
        t.inner() == p,
    ensures
        t.holds(s) == p.holds(trimmed(s)),
{
}

proof fn lemma_trim_front_empty(s: Seq<char>)
    ensures
        trim_front(s).len() == 0 <==> forall|i: int| 0 <= i < s.len() ==> white_space(#[trigger] s[i]),
        trim_front(s).len() > 0 ==> !white_space(trim_front(s)[0]),
    decreases s.len(),
{
    if s.len() > 0 && white_space(s[0]) {
        lemma_trim_front_empty(s.drop_first());
        if trim_front(s).len() == 0 {
            assert forall|i: int| 0 <= i < s.len() implies white_space(#[trigger] s[i]) by {
                if i > 0 {
                    assert(s[i] == s.drop_first()[i - 1]);
                }
            }
        }
        if forall|i: int| 0 <= i < s.len() ==> white_space(#[trigger] s[i]) {
            assert forall|i: int| 0 <= i < s.drop_first().len() implies white_space(
                #[trigger] s.drop_first()[i],
            ) by {
                assert(s.drop_first()[i] == s[i + 1]);
            }
        }
    }
}

proof fn lemma_trim_back_keeps_start(x: Seq<char>)
    requires
        x.len() > 0,
        !white_space(x[0]),
    ensures
        trim_back(x).len() > 0,
    decreases x.len(),
{
    if white_space(x.last()) {
        lemma_trim_back_keeps_start(x.drop_last());
    }
}

/// Trimming and then testing for emptiness accepts exactly the texts made of
/// white space alone, the empty text included.
pub proof fn lemma_trimmed_is_empty<'a>(t: TrimPredicate<IsEmptyPredicate>, s: Seq<char>)
    ensures
        <TrimPredicate<IsEmptyPredicate> as Predicate<&'a str>>::holds(&t, s) <==> forall|i: int|
            0 <= i < s.len() ==> white_space(#[trigger] s[i]),
{
    lemma_trim_front_empty(s);
    if trim_front(s).len() > 0 {
        lemma_trim_back_keeps_start(trim_front(s));
    }
}

} // verus!
