//! Filter values from the plain values of the language.
use vstd::prelude::*;
use vstd::std_specs::cmp::PartialEqSpecImpl;
use vstd::std_specs::convert::FromSpecImpl;
use super::number::{Number, NumberView};
use super::value::{value_eq, views_of, FilterValue, ValueView};

verus! {

impl PartialEq for FilterValue {
    fn eq(&self, other: &FilterValue) -> (same: bool) {
        self.equals(other)
    }
}

impl PartialEqSpecImpl for FilterValue {
    open spec fn obeys_eq_spec() -> bool {
        true
    }

    open spec fn eq_spec(&self, other: &FilterValue) -> bool {
        value_eq(self@, other@)
    }
}

impl From<bool> for FilterValue {
    fn from(b: bool) -> (v: FilterValue)
        ensures
            v@ == ValueView::Bool(b),
    {
        FilterValue::Bool(b)
    }
}

impl FromSpecImpl<bool> for FilterValue {
    open spec fn obeys_from_spec() -> bool {
        true
    }

    open spec fn from_spec(b: bool) -> FilterValue {
        FilterValue::Bool(b)
    }
}

impl From<&str> for FilterValue {
    fn from(s: &str) -> (v: FilterValue)
        ensures
            v@ == ValueView::String(s@),
    {
        FilterValue::String(String::from_str(s))
    }
}

impl FromSpecImpl<&str> for FilterValue {
    open spec fn obeys_from_spec() -> bool {
        false
    }

    open spec fn from_spec(s: &str) -> FilterValue {
        FilterValue::Null
    }
}

impl From<String> for FilterValue {
    fn from(s: String) -> (v: FilterValue)
        ensures
            v@ == ValueView::String(s@),
    {
        FilterValue::String(s)
    }
}

impl FromSpecImpl<String> for FilterValue {
    open spec fn obeys_from_spec() -> bool {
        true
    }

    open spec fn from_spec(s: String) -> FilterValue {
        FilterValue::String(s)
    }
}

impl From<Number> for FilterValue {
    fn from(n: Number) -> (v: FilterValue)
        ensures
            v@ == ValueView::Number(n@),
    {
        FilterValue::Number(n)
    }
}

impl FromSpecImpl<Number> for FilterValue {
    open spec fn obeys_from_spec() -> bool {
        true
    }

    open spec fn from_spec(n: Number) -> FilterValue {
        FilterValue::Number(n)
    }
}

impl From<u64> for FilterValue {
    fn from(n: u64) -> (v: FilterValue)
        ensures
            v@ == ValueView::Number(NumberView { mantissa: n as int, scale: 0 }),
    {
        FilterValue::Number(Number::from_u64(n))
    }
}

impl FromSpecImpl<u64> for FilterValue {
    open spec fn obeys_from_spec() -> bool {
        false
    }

    open spec fn from_spec(n: u64) -> FilterValue {
        FilterValue::Null
    }
}

impl From<u32> for FilterValue {
    fn from(n: u32) -> (v: FilterValue)
        ensures
            v@ == ValueView::Number(NumberView { mantissa: n as int, scale: 0 }),
    {
        FilterValue::Number(Number::from_u64(n as u64))
    }
}

impl FromSpecImpl<u32> for FilterValue {
    open spec fn obeys_from_spec() -> bool {
        false
    }

    open spec fn from_spec(n: u32) -> FilterValue {
        FilterValue::Null
    }
}

impl From<i64> for FilterValue {
    fn from(n: i64) -> (v: FilterValue)
        ensures
            v@ == ValueView::Number(NumberView { mantissa: n as int, scale: 0 }),
    {
        FilterValue::Number(Number::from_i64(n))
    }
}

impl FromSpecImpl<i64> for FilterValue {
    open spec fn obeys_from_spec() -> bool {
        false
    }

    open spec fn from_spec(n: i64) -> FilterValue {
        FilterValue::Null
    }
}

impl From<i32> for FilterValue {
    fn from(n: i32) -> (v: FilterValue)
        ensures
            v@ == ValueView::Number(NumberView { mantissa: n as int, scale: 0 }),
    {
        FilterValue::Number(Number::from_i64(n as i64))
    }
}

impl FromSpecImpl<i32> for FilterValue {
    open spec fn obeys_from_spec() -> bool {
        false
    }

    open spec fn from_spec(n: i32) -> FilterValue {
        FilterValue::Null
    }
}

impl From<Vec<FilterValue>> for FilterValue {
    fn from(items: Vec<FilterValue>) -> (v: FilterValue)
        ensures
            v@ == ValueView::Tuple(views_of(items@)),
    {
        let v = FilterValue::Tuple(items);
        proof {
            assert(v@->Tuple_0 =~= views_of(items@));
        }
        v
    }
}

impl FromSpecImpl<Vec<FilterValue>> for FilterValue {
    open spec fn obeys_from_spec() -> bool {
        true
    }

    open spec fn from_spec(items: Vec<FilterValue>) -> FilterValue {
        FilterValue::Tuple(items)
    }
}

impl FilterValue {
    /// The value that is there, or null.
    pub fn from_option(value: Option<FilterValue>) -> (v: FilterValue)
        ensures
            v@ == match value {
                Some(inner) => inner@,
                None => ValueView::Null,
            },
    {
        match value {
            Some(inner) => inner,
            None => FilterValue::Null,
        }
    }
}

} // verus!
