use std::cell::Cell;

use github_backup::filter::{Filter, FilterContext, FilterValue, Filterable, Number, Parser, Scanner};

struct TestFilterable;

impl Filterable for TestFilterable {
    fn get(&self, property: &str) -> FilterValue {
        match property {
            "boolean" => true.into(),
            "string" => "Alice".into(),
            "number" => 1u32.into(),
            "null" => FilterValue::Null,
            "tuple" => vec![true.into(), false.into()].into(),
            _ => FilterValue::Null,
        }
    }
}

fn matches(filter: &str) -> bool {
    let tokens = Scanner::new(filter).tokens();
    let expr = Parser::parse(tokens).expect("parse the filter");
    let context = FilterContext::new(&TestFilterable);
    context.visit_expr(&expr).is_truthy()
}

fn check(cases: &[(&str, bool)]) {
    for (filter, expected) in cases {
        assert_eq!(matches(filter), *expected, "{}", filter);
    }
}

#[test]
fn filter_evaluates_literals_and_properties() {
    check(&[
        ("true", true),
        ("\"Alice\" == \"alice\"", true),
        ("number > 0", true),
        ("tuple contains false", true),
        ("\"bob\" in string", false),
        ("!null", true),
        ("string startswith \"Al\"", true),
    ]);
}

#[test]
fn literals() {
    check(&[
        ("true", true),
        ("false", false),
        ("null", false),
        ("1", true),
        ("0", false),
        ("\"\"", false),
        ("\"Alice\"", true),
    ]);
}

#[test]
fn properties() {
    check(&[
        ("boolean", true),
        ("string", true),
        ("number", true),
        ("tuple", true),
        ("null", false),
        ("unknown", false),
    ]);
}

#[test]
fn equals() {
    check(&[
        ("boolean == true", true),
        ("boolean == false", false),
        ("string == \"Alice\"", true),
        ("string == \"Bob\"", false),
        ("number == 1", true),
        ("number == 2", false),
        ("tuple == [true, false]", true),
        ("tuple == [false, true]", false),
        ("tuple == []", false),
        ("null == null", true),
    ]);
}

#[test]
fn greater_than() {
    check(&[("2 > 1", true), ("1 > 2", false), ("2 >= 1", true), ("2 >= 2", true)]);
}

#[test]
fn smaller() {
    check(&[("1 < 2", true), ("2 < 1", false), ("1 <= 2", true), ("1 <= 1", true), ("2 <= 1", false)]);
}

#[test]
fn mixed_shapes_compare_false() {
    check(&[
        ("\"a\" > 3", false),
        ("\"a\" < 3", false),
        ("\"a\" >= 3", false),
        ("\"a\" <= 3", false),
        ("null < 1", false),
        ("null > null", false),
        ("null >= null", true),
        ("null == false", false),
        ("null != false", true),
    ]);
}

#[test]
fn not_equals() {
    check(&[
        ("boolean != true", false),
        ("boolean != false", true),
        ("string != \"Alice\"", false),
        ("string != \"Bob\"", true),
        ("number != 1", false),
        ("number != 2", true),
        ("tuple != [true, false]", false),
        ("tuple != [false, true]", true),
        ("tuple != []", true),
        ("null != null", false),
    ]);
}

#[test]
fn contains() {
    check(&[
        ("string contains \"Ali\"", true),
        ("string contains \"Bob\"", false),
        ("tuple contains true", true),
        ("tuple contains false", true),
        ("tuple contains null", false),
        ("null contains null", false),
    ]);
}

#[test]
fn in_() {
    check(&[
        ("string in \"Alice\"", true),
        ("\"Ali\" in string", true),
        ("string in \"Bob\"", false),
        ("\"Bob\" in string", false),
        ("true in tuple", true),
        ("false in tuple", true),
        ("null in tuple", false),
        ("number in 1", false),
        ("null in null", false),
    ]);
}

#[test]
fn startswith() {
    check(&[
        ("string startswith \"Ali\"", true),
        ("string startswith \"Bob\"", false),
        ("string startswith null", false),
        ("null startswith null", false),
    ]);
}

#[test]
fn endswith() {
    check(&[
        ("string endswith \"ce\"", true),
        ("string endswith \"ob\"", false),
        ("string endswith null", false),
        ("null endswith null", false),
    ]);
}

#[test]
fn not() {
    check(&[("!boolean", false), ("!string", false), ("!number", false), ("!tuple", false), ("!null", true)]);
}

#[test]
fn and() {
    check(&[
        ("true && true", true),
        ("true && false", false),
        ("false && true", false),
        ("false && false", false),
        ("string && number", true),
        ("string && null", false),
    ]);
}

#[test]
fn or() {
    check(&[
        ("true || true", true),
        ("true || false", true),
        ("false || true", true),
        ("false || false", false),
        ("string || number", true),
        ("string || null", true),
        ("null || null", false),
    ]);
}

#[test]
fn grouping() {
    check(&[
        ("true && (false || true)", true),
        ("true && (false || false)", false),
        ("true && (string || null)", true),
        ("false && (string || null)", false),
    ]);
}

#[test]
fn precedence() {
    check(&[
        ("true && false || true", true),
        ("true && false || false", false),
        ("false && true || false", false),
        ("false && false || true", true),
    ]);
}

#[test]
fn logical_operators_yield_their_operands() {
    let value = |filter: &str| {
        let expr = Parser::parse(Scanner::new(filter).tokens()).unwrap();
        FilterContext::new(&TestFilterable).visit_expr(&expr)
    };
    assert_eq!(value("string && number"), FilterValue::Number(Number::from_u64(1)));
    assert_eq!(value("null && number"), FilterValue::Null);
    assert_eq!(value("string || number"), FilterValue::from("Alice"));
    assert_eq!(value("\"\" || 0"), FilterValue::Number(Number::from_u64(0)));
    assert_eq!(value("!string"), FilterValue::Bool(false));
}

#[test]
fn boolean_algebra() {
    for x in ["true", "false", "null", "string", "number", "\"\"", "0", "tuple", "[]"] {
        assert_eq!(matches(&format!("!!{}", x)), matches(x), "{}", x);
        assert_eq!(matches(&format!("{} && true", x)), matches(x), "{}", x);
        assert_eq!(matches(&format!("{} || false", x)), matches(x), "{}", x);
        for y in ["true", "false", "null", "string"] {
            assert_eq!(
                matches(&format!("!({} && {})", x, y)),
                matches(&format!("!{} || !{}", x, y))
            );
            assert_eq!(
                matches(&format!("!({} || {})", x, y)),
                matches(&format!("!{} && !{}", x, y))
            );
        }
    }
}

struct Counting {
    lookups: Cell<usize>,
}

impl Filterable for Counting {
    fn get(&self, key: &str) -> FilterValue {
        self.lookups.set(self.lookups.get() + 1);
        match key {
            "yes" => true.into(),
            _ => FilterValue::Null,
        }
    }
}

#[test]
fn short_circuit() {
    let lookups = |filter: &str| {
        let target = Counting { lookups: Cell::new(0) };
        let result = Filter::new(filter).unwrap().matches(&target).unwrap();
        (result, target.lookups.get())
    };
    assert_eq!(lookups("false && yes"), (false, 0));
    assert_eq!(lookups("no && yes"), (false, 1));
    assert_eq!(lookups("yes && yes"), (true, 2));
    assert_eq!(lookups("true || yes"), (true, 0));
    assert_eq!(lookups("yes || no"), (true, 1));
    assert_eq!(lookups("no || yes"), (true, 2));
}

struct TestObject {
    name: String,
    age: i32,
    alive: bool,
    tags: Vec<&'static str>,
}

impl Filterable for TestObject {
    fn get(&self, property: &str) -> FilterValue {
        match property {
            "name" => self.name.clone().into(),
            "age" => self.age.into(),
            "alive" => self.alive.into(),
            "tags" => self.tags.iter().cloned().map(|v| v.into()).collect::<Vec<FilterValue>>().into(),
            _ => FilterValue::Null,
        }
    }
}

fn object_matches(cases: &[(&str, bool)]) {
    let obj = TestObject { name: "John Doe".to_string(), age: 30, alive: true, tags: vec!["red"] };
    for (filter, expected) in cases {
        assert_eq!(
            Filter::new(filter).expect("parse filter").matches(&obj).expect("run filter"),
            *expected,
            "{}",
            filter
        );
    }
}

#[test]
fn case_sensitive_filtering() {
    object_matches(&[
        ("name == \"John Doe\"", true),
        ("name != \"John Doe\"", false),
        ("name == \"Jane Doe\"", false),
        ("name != \"Jane Doe\"", true),
        ("name startswith \"John\"", true),
        ("name startswith \"Jane\"", false),
        ("name endswith \"Doe\"", true),
        ("name endswith \"Smith\"", false),
        ("age == 30", true),
        ("age != 30", false),
        ("age == 31", false),
        ("age != 31", true),
        ("age > 31", false),
        ("age < 31", true),
        ("age >= 30", true),
        ("age <= 30", true),
        ("tags == [\"red\"]", true),
        ("tags != [\"red\"]", false),
        ("tags == [\"blue\"]", false),
        ("tags contains \"red\"", true),
        ("tags contains \"blue\"", false),
        ("\"red\" in tags", true),
        ("\"blue\" in tags", false),
    ]);
}

#[test]
fn case_insensitive_filtering() {
    object_matches(&[
        ("name == \"john doe\"", true),
        ("name != \"john doe\"", false),
        ("name == \"jane doe\"", false),
        ("name != \"jane doe\"", true),
        ("name startswith \"john\"", true),
        ("name startswith \"jane\"", false),
        ("name endswith \"doe\"", true),
        ("name endswith \"smith\"", false),
        ("\"RED\" in tags", true),
        ("\"BLUE\" in tags", false),
    ]);
}

#[test]
fn binary_operator_filtering() {
    object_matches(&[
        ("name == \"John Doe\" && age == 30", true),
        ("name == \"John Doe\" && age == 31", false),
        ("name == \"Jane Doe\" && age == 30", false),
        ("name == \"John Doe\" || age == 30", true),
        ("name == \"John Doe\" || age == 31", true),
        ("name == \"Jane Doe\" || age == 30", true),
        ("name == \"Jane Doe\" || age == 31", false),
    ]);
}

#[test]
fn logical_operator_filtering() {
    object_matches(&[("alive", true), ("!alive", false), ("name && age", true), ("name && !age", false)]);
}
