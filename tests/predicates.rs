use predicates::boolean::PredicateBooleanExt;
use predicates::boxed::BoxPredicate;
use predicates::name::PredicateNameExt;
use predicates::strings::{contains, ends_with, is_empty, starts_with, trim, PredicateStrExt};
use predicates::Predicate;

struct Always(bool);

impl<'a> Predicate<&'a str> for Always {
    fn holds(&self, _item: vstd::seq::Seq<char>) -> bool {
        unreachable!()
    }

    fn description(&self) -> vstd::seq::Seq<char> {
        unreachable!()
    }

    fn eval(&self, _item: &'a str) -> bool {
        self.0
    }

    fn describe(&self) -> String {
        format!("{}", self.0)
    }
}

struct PanicsIfCalled;

impl<'a> Predicate<&'a str> for PanicsIfCalled {
    fn holds(&self, _item: vstd::seq::Seq<char>) -> bool {
        unreachable!()
    }

    fn description(&self) -> vstd::seq::Seq<char> {
        unreachable!()
    }

    fn eval(&self, _item: &'a str) -> bool {
        panic!("the second operand must not be evaluated")
    }

    fn describe(&self) -> String {
        String::from("panics")
    }
}

#[test]
fn and_or_not_compute_boolean_operations() {
    for a in [false, true] {
        for b in [false, true] {
            assert_eq!(Always(a).and(Always(b)).eval("x"), a && b);
            assert_eq!(Always(a).or(Always(b)).eval("x"), a || b);
        }
        assert_eq!(Always(a).not().eval("x"), !a);
    }
    let p = starts_with("Hi").and(ends_with("!"));
    assert!(p.eval("Hi you!"));
    assert!(!p.eval("Hi you"));
    let q = starts_with("Hi").or(ends_with("!"));
    assert!(q.eval("Hi you"));
    assert!(!q.eval("Bye you"));
}

#[test]
fn and_short_circuits() {
    assert!(!Always(false).and(PanicsIfCalled).eval("x"));
}

#[test]
fn or_short_circuits() {
    assert!(Always(true).or(PanicsIfCalled).eval("x"));
}

#[test]
fn de_morgan_holds_on_samples() {
    for s in ["", "Hi", "Hi!", "!", "Hello"] {
        let lhs = starts_with("Hi").and(ends_with("!")).not();
        let rhs = starts_with("Hi").not().or(ends_with("!").not());
        assert_eq!(lhs.eval(s), rhs.eval(s));
    }
}

#[test]
fn combinator_descriptions() {
    assert_eq!(
        is_empty().and(is_empty().not()).describe(),
        "(var.is_empty() && (! var.is_empty()))"
    );
    assert_eq!(is_empty().or(is_empty()).describe(), "(var.is_empty() || var.is_empty())");
}

#[test]
fn name_replaces_description_and_keeps_eval() {
    let p = is_empty().not().name("non-empty");
    assert_eq!(p.describe(), "non-empty");
    assert!(p.eval("a"));
    assert!(!p.eval(""));
}

#[test]
fn boxing_is_transparent() {
    let b = BoxPredicate::new(starts_with("Hi"));
    assert_eq!(b.describe(), starts_with("Hi").describe());
    assert!(b.eval("Hi there"));
    assert!(!b.eval("hi there"));
    let list: Vec<BoxPredicate<&str>> =
        vec![BoxPredicate::new(is_empty()), BoxPredicate::new(contains("x").name("has x"))];
    assert!(list[0].eval(""));
    assert!(list[1].eval("xyz"));
    assert_eq!(list[1].describe(), "has x");
}

#[test]
fn is_empty_checks_length() {
    assert!(is_empty().eval(""));
    assert!(!is_empty().eval("a"));
    assert_eq!(is_empty().describe(), "var.is_empty()");
}

#[test]
fn starts_with_is_case_sensitive() {
    assert!(starts_with("").eval("anything"));
    assert!(starts_with("").eval(""));
    assert!(starts_with("Hi").eval("Hi there"));
    assert!(!starts_with("Hi").eval("hi there"));
    assert!(!starts_with("Hi there!").eval("Hi"));
    assert_eq!(starts_with("Hi").describe(), "var.starts_with(\"Hi\")");
}

#[test]
fn ends_with_checks_suffix() {
    assert!(ends_with("World").eval("Hello World"));
    assert!(!ends_with("World").eval("Hello Moon"));
    assert!(ends_with("").eval("abc"));
    assert!(!ends_with("abcd").eval("bcd"));
    assert_eq!(ends_with("a\"b").describe(), "var.ends_with(\"a\\\"b\")");
}

#[test]
fn contains_finds_substrings() {
    assert!(contains("Two").eval("One Two Three"));
    assert!(!contains("Two").eval("Four Five Six"));
    assert!(contains("").eval(""));
    assert!(contains("é").eval("café"));
    assert_eq!(contains("Two").describe(), "var.contains(\"Two\")");
}

#[test]
fn count_is_exact() {
    assert!(contains("Two").count(2).eval("One Two Three Two One"));
    assert!(!contains("Two").count(1).eval("One Two Three Two One"));
    assert!(!contains("Two").count(2).eval("One Two Three"));
    assert_eq!(contains("Two").count(2).describe(), "var.contains(\"Two\", 2)");
    assert_eq!(contains("a").count(120).describe(), "var.contains(\"a\", 120)");
}

#[test]
fn count_is_non_overlapping() {
    assert!(contains("aa").count(1).eval("aaa"));
    assert!(!contains("aa").count(2).eval("aaa"));
    assert!(contains("aa").count(2).eval("aaaa"));
}

#[test]
fn count_zero_means_absent() {
    assert!(contains("x").count(0).eval("abc"));
    assert!(!contains("x").count(0).eval("axc"));
}

#[test]
fn count_of_empty_pattern_is_positions() {
    assert!(contains("").count(3).eval("ab"));
    assert!(contains("").count(1).eval(""));
    assert!(!contains("").count(0).eval(""));
    assert!(contains("").count(2).eval("é"));
}

#[test]
fn trim_then_is_empty() {
    let p = is_empty().trim();
    assert!(p.eval("   "));
    assert!(!p.eval("  x "));
    assert!(p.eval(""));
    assert!(p.eval("\t\n\u{3000}\u{a0}"));
    assert_eq!(p.describe(), "var.is_empty()");
}

#[test]
fn trim_strips_both_ends() {
    assert_eq!(trim("  Hello  "), "Hello");
    assert_eq!(trim("\u{2003}a b\r\n"), "a b");
    assert_eq!(trim("x"), "x");
    assert!(starts_with("H").trim().eval("   Hello"));
    assert!(ends_with("o").trim().eval("Hello \t"));
}

#[test]
fn utf8_adapter_delegates_on_valid_text() {
    let p = is_empty().not().from_utf8();
    let hello: &[u8] = b"Hello";
    let empty: &[u8] = b"";
    assert!(p.eval(hello));
    assert!(!p.eval(empty));
    let q = starts_with("caf").from_utf8();
    let cafe: &[u8] = "café".as_bytes();
    assert!(q.eval(cafe));
    assert_eq!(q.describe(), "var.starts_with(\"caf\")");
}

#[test]
fn utf8_adapter_rejects_invalid_bytes() {
    let invalid: &[u8] = &[0x66, 0xff, 0x6f];
    assert!(!is_empty().not().from_utf8().eval(invalid));
    assert!(!is_empty().from_utf8().eval(invalid));
    assert!(!is_empty().not().not().from_utf8().eval(invalid));
    let truncated: &[u8] = &[0xc3];
    assert!(!contains("").from_utf8().eval(truncated));
}

#[test]
fn leaf_predicates_clone_and_debug() {
    let p = starts_with("ab");
    let q = p.clone();
    assert!(q.eval("abc"));
    assert!(p.eval("ab"));
    let e = is_empty();
    let f = e;
    assert!(e.eval("") && f.eval(""));
    assert!(!format!("{:?}", contains("x").count(2)).is_empty());
    assert!(!format!("{:?}", is_empty().and(is_empty())).is_empty());
    let t = is_empty().trim();
    assert!(t.clone().eval("  "));
}

#[test]
fn count_description_renders_large_numbers() {
    assert_eq!(contains("a").count(0).describe(), "var.contains(\"a\", 0)");
    assert_eq!(contains("a").count(10).describe(), "var.contains(\"a\", 10)");
    assert_eq!(
        contains("a").count(usize::MAX).describe(),
        format!("var.contains(\"a\", {})", usize::MAX)
    );
}
