use github_backup::filter::{FilterValue, Number, Order};
use github_backup::text::{contains_text, ends_with_text, eq_ignore_ascii_case, split, starts_with_text, trim_end_matches};

fn num(text: &str) -> FilterValue {
    FilterValue::Number(Number::parse(text).expect("a decimal number"))
}

fn of_float(value: f64) -> FilterValue {
    num(&format!("{}", value))
}

fn text(s: &str) -> FilterValue {
    FilterValue::String(s.to_string())
}

#[test]
fn test_bool_comparison() {
    assert!(FilterValue::Bool(false) < FilterValue::Bool(true));
    assert!(FilterValue::Bool(true) > FilterValue::Bool(false));
    assert_eq!(FilterValue::Bool(true), FilterValue::Bool(true));
    assert_eq!(FilterValue::Bool(false), FilterValue::Bool(false));
}

#[test]
fn test_number_comparison() {
    assert!(of_float(1.0) < of_float(2.0));
    assert!(of_float(2.0) > of_float(1.0));
    assert_eq!(of_float(2.0), of_float(2.0));
}

#[test]
fn test_string_comparison() {
    assert!(FilterValue::String(String::from("abc")) < FilterValue::String(String::from("xyz")));
    assert!(FilterValue::String(String::from("xyz")) > FilterValue::String(String::from("abc")));
    assert_eq!(FilterValue::String(String::from("abc")), FilterValue::String(String::from("abc")));
}

#[test]
fn test_truthy() {
    assert!(!FilterValue::Null.is_truthy());
    assert!(!FilterValue::Bool(false).is_truthy());
    assert!(FilterValue::Bool(true).is_truthy());
    assert!(!of_float(0.0).is_truthy());
    assert!(!num("0.000").is_truthy());
    assert!(of_float(1.0).is_truthy());
    assert!(num("0.001").is_truthy());
    assert!(!text("").is_truthy());
    assert!(text("hello").is_truthy());
    assert!(!FilterValue::Tuple(vec![]).is_truthy());
    assert!(FilterValue::Tuple(vec![FilterValue::Bool(true)]).is_truthy());
    assert!(FilterValue::Tuple(vec![FilterValue::Null]).is_truthy());
}

#[test]
fn test_equality_by_shape() {
    assert_eq!(FilterValue::Null, FilterValue::Null);
    assert_ne!(FilterValue::Null, FilterValue::Bool(false));
    assert_ne!(FilterValue::Bool(true), of_float(1.0));
    assert_ne!(text("1"), of_float(1.0));
    assert_eq!(text("Alice"), text("aLICE"));
    assert_ne!(text("Alice"), text("Alic"));
    assert_ne!(text("straße"), text("STRASSE"));
    assert_eq!(
        FilterValue::Tuple(vec![text("a"), FilterValue::Bool(true)]),
        FilterValue::Tuple(vec![text("A"), FilterValue::Bool(true)])
    );
    assert_ne!(
        FilterValue::Tuple(vec![text("a"), FilterValue::Bool(true)]),
        FilterValue::Tuple(vec![FilterValue::Bool(true), text("a")])
    );
    assert_ne!(FilterValue::Tuple(vec![text("a")]), FilterValue::Tuple(vec![]));
}

#[test]
fn test_numbers_are_exact_decimals() {
    assert_eq!(num("1.50"), num("1.5"));
    assert_eq!(num("007"), num("7"));
    assert_eq!(num("0"), num("0.0"));
    assert_eq!(num("10"), FilterValue::from(10u64));
    assert_eq!(FilterValue::from(-3i64), FilterValue::from(-3i32));
    assert!(num("1.25") < num("1.3"));
    assert!(num("12") > num("9.999"));
    assert!(num("0.1") > num("0.09"));
    assert!(FilterValue::from(-2i64) < FilterValue::from(-1i64));
    assert!(FilterValue::from(-1i64) < num("0"));
    assert!(FilterValue::from(i64::MIN) < FilterValue::from(i64::MAX));
    assert!(FilterValue::from(u64::MAX) > FilterValue::from(i64::MAX));
    assert!(num("18446744073709551616") > FilterValue::from(u64::MAX));
    assert!(num("0.30000000000000000001") > num("0.3"));
    let a = Number::parse("2.50").unwrap();
    let b = Number::parse("2.5").unwrap();
    assert_eq!(a.compare(&b), Order::Equal);
    assert_eq!(Number::from_u64(3).compare(&Number::from_i64(-3)), Order::Greater);
    assert_eq!(Number::from_i64(-4).compare(&Number::from_i64(-3)), Order::Less);
    assert!(Number::from_u64(0).is_zero());
    assert!(!Number::from_i64(-1).is_zero());
}

#[test]
fn test_number_texts() {
    for good in ["0", "12", "12.5", "0.001", "123.456"] {
        assert!(Number::parse(good).is_some(), "{}", good);
    }
    for bad in ["", ".", "1.", ".5", "1.2.3", "1e5", "-1", "+1", "abc", "1 ", "NaN", "inf"] {
        assert!(Number::parse(bad).is_none(), "{}", bad);
    }
}

#[test]
fn test_order_between_shapes() {
    assert_eq!(FilterValue::Null.compare(&FilterValue::Null), Some(Order::Equal));
    assert_eq!(FilterValue::Null.compare(&FilterValue::Bool(true)), None);
    assert_eq!(text("a").compare(&of_float(3.0)), None);
    assert!(!(text("a") > of_float(3.0)));
    assert!(!(text("a") < of_float(3.0)));
    assert_eq!(text("abc").compare(&text("abd")), Some(Order::Less));
    assert_eq!(text("abc").compare(&text("ab")), Some(Order::Greater));
    assert_eq!(text("B").compare(&text("a")), Some(Order::Less));
    let short = FilterValue::Tuple(vec![of_float(9.0)]);
    let long = FilterValue::Tuple(vec![of_float(1.0), of_float(1.0)]);
    assert_eq!(short.compare(&long), Some(Order::Less));
    let x = FilterValue::Tuple(vec![of_float(1.0), of_float(2.0)]);
    let y = FilterValue::Tuple(vec![of_float(1.0), of_float(3.0)]);
    assert_eq!(x.compare(&y), Some(Order::Less));
    assert_eq!(y.compare(&x), Some(Order::Greater));
    assert_eq!(x.compare(&x), Some(Order::Equal));
    let mixed = FilterValue::Tuple(vec![of_float(1.0), text("a")]);
    assert_eq!(x.compare(&mixed), None);
}

#[test]
fn test_contains() {
    let tuple = FilterValue::Tuple(vec![FilterValue::Bool(true), text("Red")]);
    assert!(tuple.contains(&FilterValue::Bool(true)));
    assert!(tuple.contains(&text("RED")));
    assert!(!tuple.contains(&FilterValue::Null));
    assert!(text("Alice").contains(&text("LIC")));
    assert!(text("Alice").contains(&text("")));
    assert!(!text("Alice").contains(&text("Bob")));
    assert!(text("STRASSE ÄÖ").contains(&text("äö")));
    assert!(!text("Alice").contains(&FilterValue::Null));
    assert!(!FilterValue::Null.contains(&FilterValue::Null));
    assert!(!of_float(1.0).contains(&of_float(1.0)));
}

#[test]
fn test_startswith_endswith() {
    assert!(text("Alice").startswith(&text("al")));
    assert!(!text("Alice").startswith(&text("li")));
    assert!(text("Alice").endswith(&text("CE")));
    assert!(!text("Alice").endswith(&text("ic")));
    assert!(!text("ce").endswith(&text("Alice")));
    assert!(!text("Alice").startswith(&FilterValue::Null));
    assert!(!FilterValue::Null.endswith(&FilterValue::Null));
    let tuple = FilterValue::Tuple(vec![text("a")]);
    assert!(!tuple.startswith(&text("a")));
    assert!(!tuple.endswith(&text("a")));
}

#[test]
fn test_conversions() {
    assert_eq!(FilterValue::from(true), FilterValue::Bool(true));
    assert_eq!(FilterValue::from("abc"), text("abc"));
    assert_eq!(FilterValue::from("abc".to_string()), text("abc"));
    assert_eq!(FilterValue::from(7u32), num("7"));
    assert_eq!(FilterValue::from(vec![FilterValue::Null]), FilterValue::Tuple(vec![FilterValue::Null]));
    assert_eq!(FilterValue::from_option(None), FilterValue::Null);
    assert_eq!(FilterValue::from_option(Some(FilterValue::Bool(false))), FilterValue::Bool(false));
    let copy = FilterValue::Tuple(vec![text("a"), num("1.5")]).clone();
    assert_eq!(copy, FilterValue::Tuple(vec![text("a"), num("1.5")]));
}

#[test]
fn test_text_helpers() {
    assert!(eq_ignore_ascii_case("Hello", "hELLO"));
    assert!(!eq_ignore_ascii_case("Hello", "Hell"));
    assert!(!eq_ignore_ascii_case("a[", "A{"));
    assert!(contains_text("hello", "ell"));
    assert!(contains_text("hello", "hello"));
    assert!(!contains_text("hello", "hello!"));
    assert!(starts_with_text("hello", ""));
    assert!(ends_with_text("hello", "lo"));
    assert_eq!(split("a/b//c", '/'), vec!["a", "b", "", "c"]);
    assert_eq!(split("", '/'), vec![""]);
    assert_eq!(split("abc", '/'), vec!["abc"]);
    assert_eq!(split("/", '/'), vec!["", ""]);
    assert_eq!(trim_end_matches("a??", '?'), "a");
    assert_eq!(trim_end_matches("a?b", '?'), "a?b");
    assert_eq!(trim_end_matches("???", '?'), "");
}

#[test]
fn test_display() {
    assert_eq!(FilterValue::Null.to_string(), "null");
    assert_eq!(FilterValue::Bool(true).to_string(), "true");
    assert_eq!(FilterValue::Bool(false).to_string(), "false");
    assert_eq!(num("1").to_string(), "1");
    assert_eq!(num("007.500").to_string(), "7.5");
    assert_eq!(num("0.0").to_string(), "0");
    assert_eq!(num("000").to_string(), "0");
    assert_eq!(num("0.050").to_string(), "0.05");
    assert_eq!(num("123.456").to_string(), "123.456");
    assert_eq!(FilterValue::from(-12i64).to_string(), "-12");
    assert_eq!(FilterValue::from(u64::MAX).to_string(), "18446744073709551615");
    assert_eq!(text("value").to_string(), "\"value\"");
    assert_eq!(text("say \"hi\" \\ bye").to_string(), "\"say \\\"hi\\\" \\\\ bye\"");
    assert_eq!(FilterValue::Tuple(vec![]).to_string(), "[]");
    assert_eq!(FilterValue::Tuple(vec![text("a")]).to_string(), "[\"a\"]");
    assert_eq!(
        FilterValue::Tuple(vec![FilterValue::Bool(true), num("2.50"), FilterValue::Null, text("x")]).to_string(),
        "[true, 2.5, null, \"x\"]"
    );
}
