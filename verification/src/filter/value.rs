//! The values that filters compute with.
use vstd::prelude::*;
use super::number::{number_text, Number, NumberView, Order};
use super::parser::{escape, escaped};
use crate::text::{
    chars_of, contains_text, ends_with_text, eq_ignore_ascii_case, lowercase, occurs_at, occurs_in,
    same_ignoring_ascii_case, starts_with_text, text_order_from, to_lowercase,
};

verus! {

/// A value of the filter language.
#[derive(Debug)]
pub enum FilterValue {
    Null,
    Bool(bool),
    Number(Number),
    String(String),
    Tuple(Vec<FilterValue>),
}

/// A filter value as a mathematical object.
pub enum ValueView {
    Null,
    Bool(bool),
    Number(NumberView),
    String(Seq<char>),
    Tuple(Seq<ValueView>),
}

/// The mathematical content of a value.
pub open spec fn value_view(v: FilterValue) -> ValueView
    decreases v,
{
    match v {
        FilterValue::Null => ValueView::Null,
        FilterValue::Bool(b) => ValueView::Bool(b),
        FilterValue::Number(n) => ValueView::Number(n@),
        FilterValue::String(s) => ValueView::String(s@),
        FilterValue::Tuple(items) => ValueView::Tuple(
            Seq::new(
                items@.len(),
                |i: int|
                    if 0 <= i < items@.len() {
                        value_view(items@[i])
                    } else {
                        ValueView::Null
                    },
            ),
        ),
    }
}

impl View for FilterValue {
    type V = ValueView;

    open spec fn view(&self) -> ValueView {
        value_view(*self)
    }
}

/// The views of a run of values.
pub open spec fn views_of(items: Seq<FilterValue>) -> Seq<ValueView> {
    Seq::new(items.len(), |i: int| items[i]@)
}

/// How a value is written: as the literal that the filter language reads
/// it from.
pub open spec fn value_text(v: FilterValue) -> Seq<char>
    decreases v, 0nat,
{
    match v {
        FilterValue::Null => "null"@,
        FilterValue::Bool(b) => if b {
            "true"@
        } else {
            "false"@
        },
        FilterValue::Number(n) => number_text(n.negative(), n.digits(), n.places()),
        FilterValue::String(s) => "\""@ + escape(s@) + "\""@,
        FilterValue::Tuple(items) => "["@ + items_text(items, items@.len() as int) + "]"@,
    }
}

/// How the first `n` of `items` are written: with `, ` between them.
pub open spec fn items_text(items: Vec<FilterValue>, n: int) -> Seq<char>
    decreases items, n,
{
    if n <= 0 || n > items@.len() {
        Seq::empty()
    } else if n == 1 {
        value_text(items[0])
    } else {
        items_text(items, n - 1) + ", "@ + value_text(items[n - 1])
    }
}

/// Whether a value counts as true: null never, a boolean as itself, a number
/// unless it is zero, a string or a tuple unless it is empty.
pub open spec fn truthy(v: ValueView) -> bool {
    match v {
        ValueView::Null => false,
        ValueView::Bool(b) => b,
        ValueView::Number(n) => n.mantissa != 0,
        ValueView::String(s) => s.len() > 0,
        ValueView::Tuple(items) => items.len() > 0,
    }
}

/// Whether two values are equal: values of one shape are compared by what
/// they hold, strings without regard to the case of ASCII letters and tuples
/// item by item; values of different shapes are never equal.
pub open spec fn value_eq(a: ValueView, b: ValueView) -> bool
    decreases a,
{
    match (a, b) {
        (ValueView::Null, ValueView::Null) => true,
        (ValueView::Bool(x), ValueView::Bool(y)) => x == y,
        (ValueView::Number(x), ValueView::Number(y)) => x.same(y),
        (ValueView::String(x), ValueView::String(y)) => same_ignoring_ascii_case(x, y),
        (ValueView::Tuple(x), ValueView::Tuple(y)) => x.len() == y.len() && forall|i: int|
            0 <= i < x.len() ==> value_eq(x[i], y[i]),
        _ => false,
    }
}

/// How the text `a` stands to `b` in the order of the dictionary.
pub open spec fn text_order(a: Seq<char>, b: Seq<char>) -> Order {
    let o = text_order_from(a, b, 0);
    if o < 0 {
        Order::Less
    } else if o == 0 {
        Order::Equal
    } else {
        Order::Greater
    }
}

/// How `a` stands to `b`, where an order between them is defined: between
/// values of one shape only. Null equals null, false is below true, numbers
/// go by value, strings by the dictionary, and tuples by length first and
/// then by the first pair of items that is not equal.
pub open spec fn value_order(a: ValueView, b: ValueView) -> Option<Order>
    decreases a, 0nat,
{
    match (a, b) {
        (ValueView::Null, ValueView::Null) => Some(Order::Equal),
        (ValueView::Bool(x), ValueView::Bool(y)) => Some(
            if x == y {
                Order::Equal
            } else if y {
                Order::Less
            } else {
                Order::Greater
            },
        ),
        (ValueView::Number(x), ValueView::Number(y)) => Some(x.order(y)),
        (ValueView::String(x), ValueView::String(y)) => Some(text_order(x, y)),
        (ValueView::Tuple(x), ValueView::Tuple(y)) => if x.len() < y.len() {
            Some(Order::Less)
        } else if x.len() > y.len() {
            Some(Order::Greater)
        } else {
            items_order(x, y, 0)
        },
        _ => None,
    }
}

/// How the items of `a` from index `i` on stand to those of `b`: as the
/// first pair that is not equal does.
pub open spec fn items_order(a: Seq<ValueView>, b: Seq<ValueView>, i: int) -> Option<Order>
    decreases a, a.len() - i,
{
    if i < 0 || i >= a.len() {
        Some(Order::Equal)
    } else {
        let o = value_order(a[i], b[i]);
        if o == Some(Order::Equal) {
            items_order(a, b, i + 1)
        } else {
            o
        }
    }
}

/// Whether `a` holds `b`: a tuple holds a value that equals one of its
/// items, a string holds a string that stands in it once both are put in
/// lower case; nothing else holds anything.
pub open spec fn value_contains(a: ValueView, b: ValueView) -> bool {
    match (a, b) {
        (ValueView::Tuple(items), _) => exists|i: int|
            0 <= i < items.len() && value_eq(#[trigger] items[i], b),
        (ValueView::String(x), ValueView::String(y)) => occurs_in(lowercase(y), lowercase(x)),
        _ => false,
    }
}

/// Whether the string `a` starts with the string `b`, both put in lower
/// case; false for any other pair of shapes.
pub open spec fn value_startswith(a: ValueView, b: ValueView) -> bool {
    match (a, b) {
        (ValueView::String(x), ValueView::String(y)) => occurs_at(lowercase(y), lowercase(x), 0),
        _ => false,
    }
}

/// Whether the string `a` ends with the string `b`, both put in lower case;
/// false for any other pair of shapes.
pub open spec fn value_endswith(a: ValueView, b: ValueView) -> bool {
    match (a, b) {
        (ValueView::String(x), ValueView::String(y)) => occurs_at(
            lowercase(y),
            lowercase(x),
            lowercase(x).len() - lowercase(y).len(),
        ),
        _ => false,
    }
}

/// How the text `a` stands to `b` in the order of the dictionary.
pub fn compare_text(a: &str, b: &str) -> (order: Order)
    ensures
        order == text_order(a@, b@),
{
    let x = chars_of(a);
    let y = chars_of(b);
    let mut i: usize = 0;
    while i < x.len() && i < y.len()
        invariant
            x@ == a@,
            y@ == b@,
            i <= x@.len(),
            i <= y@.len(),
            text_order_from(x@, y@, i as int) == text_order_from(x@, y@, 0),
        decreases x@.len() - i,
    {
        if x[i] < y[i] {
            return Order::Less;
        }
        if x[i] > y[i] {
            return Order::Greater;
        }
        i += 1;
    }
    if x.len() < y.len() {
        Order::Less
    } else if x.len() == y.len() {
        Order::Equal
    } else {
        Order::Greater
    }
}

impl Clone for FilterValue {
    fn clone(&self) -> (out: FilterValue)
        ensures
            out@ == self@,
    {
        self.duplicate()
    }
}

impl FilterValue {
    /// A copy of this value.
    pub fn duplicate(&self) -> (out: FilterValue)
        ensures
            out@ == self@,
        decreases self,
    {
        match self {
            FilterValue::Null => FilterValue::Null,
            FilterValue::Bool(b) => FilterValue::Bool(*b),
            FilterValue::Number(n) => FilterValue::Number(n.clone()),
            FilterValue::String(s) => FilterValue::String(s.clone()),
            FilterValue::Tuple(items) => {
                let mut out: Vec<FilterValue> = Vec::new();
                let mut i: usize = 0;
                while i < items.len()
                    invariant
                        self == FilterValue::Tuple(*items),
                        i <= items@.len(),
                        out@.len() == i,
                        forall|j: int| 0 <= j < i ==> out@[j]@ == items@[j]@,
                    decreases items@.len() - i,
                {
                    proof {
                        assert(*items == self->Tuple_0);
                        assert(decreases_to!(*self => self->Tuple_0));
                    }
                    out.push(items[i].duplicate());
                    i += 1;
                }
                let copy = FilterValue::Tuple(out);
                proof {
                    assert(copy@->Tuple_0 =~= self@->Tuple_0);
                }
                copy
            },
        }
    }
}

impl FilterValue {
    /// The value as it is written.
    pub fn to_string(&self) -> (out: String)
        ensures
            out@ == value_text(*self),
        decreases self,
    {
        match self {
            FilterValue::Null => String::from_str("null"),
            FilterValue::Bool(b) => if *b {
                String::from_str("true")
            } else {
                String::from_str("false")
            },
            FilterValue::Number(n) => n.to_string(),
            FilterValue::String(s) => {
                let mut out = String::from_str("\"");
                out.append(escaped(s.as_str()).as_str());
                out.append("\"");
                out
            },
            FilterValue::Tuple(items) => {
                let mut out = String::from_str("[");
                let mut i: usize = 0;
                proof {
                    assert(out@ =~= "["@ + items_text(*items, 0));
                }
                while i < items.len()
                    invariant
                        self == FilterValue::Tuple(*items),
                        i <= items@.len(),
                        out@ == "["@ + items_text(*items, i as int),
                    decreases items@.len() - i,
                {
                    proof {
                        assert(*items == self->Tuple_0);
                        assert(decreases_to!(*self => self->Tuple_0));
                    }
                    if i > 0 {
                        out.append(", ");
                    }
                    let item = items[i].to_string();
                    out.append(item.as_str());
                    proof {
                        if i == 0 {
                            assert(out@ =~= "["@ + items_text(*items, 1));
                        } else {
                            assert(out@ =~= "["@ + items_text(*items, i as int + 1));
                        }
                    }
                    i += 1;
                }
                out.append("]");
                out
            },
        }
    }

    /// Whether this value counts as true.
    pub fn is_truthy(&self) -> (b: bool)
        ensures
            b == truthy(self@),
    {
        match self {
            FilterValue::Null => false,
            FilterValue::Bool(b) => *b,
            FilterValue::Number(n) => !n.is_zero(),
            FilterValue::String(s) => !s.as_str().is_empty(),
            FilterValue::Tuple(items) => items.len() > 0,
        }
    }

    /// Whether this value equals `other`.
    pub fn equals(&self, other: &FilterValue) -> (same: bool)
        ensures
            same == value_eq(self@, other@),
        decreases self,
    {
        match self {
            FilterValue::Null => match other {
                FilterValue::Null => true,
                _ => false,
            },
            FilterValue::Bool(x) => match other {
                FilterValue::Bool(y) => *x == *y,
                _ => false,
            },
            FilterValue::Number(x) => match other {
                FilterValue::Number(y) => match x.compare(y) {
                    Order::Equal => true,
                    _ => false,
                },
                _ => false,
            },
            FilterValue::String(x) => match other {
                FilterValue::String(y) => eq_ignore_ascii_case(x.as_str(), y.as_str()),
                _ => false,
            },
            FilterValue::Tuple(x) => match other {
                FilterValue::Tuple(y) => {
                    if x.len() != y.len() {
                        return false;
                    }
                    let mut i: usize = 0;
                    while i < x.len()
                        invariant
                            self == FilterValue::Tuple(*x),
                            other == FilterValue::Tuple(*y),
                            x@.len() == y@.len(),
                            i <= x@.len(),
                            forall|j: int| 0 <= j < i ==> value_eq(x@[j]@, y@[j]@),
                        decreases x@.len() - i,
                    {
                        if !x[i].equals(&y[i]) {
                            proof {
                                assert(self@->Tuple_0[i as int] == x@[i as int]@);
                                assert(other@->Tuple_0[i as int] == y@[i as int]@);
                            }
                            return false;
                        }
                        i += 1;
                    }
                    proof {
                        assert forall|j: int| 0 <= j < self@->Tuple_0.len() implies value_eq(
                            self@->Tuple_0[j],
                            other@->Tuple_0[j],
                        ) by {
                            assert(self@->Tuple_0[j] == x@[j]@);
                            assert(other@->Tuple_0[j] == y@[j]@);
                        }
                    }
                    true
                },
                _ => false,
            },
        }
    }

    /// How this value stands to `other`, where an order between them is
    /// defined.
    pub fn compare(&self, other: &FilterValue) -> (order: Option<Order>)
        ensures
            order == value_order(self@, other@),
        decreases self,
    {
        match self {
            FilterValue::Null => match other {
                FilterValue::Null => Some(Order::Equal),
                _ => None,
            },
            FilterValue::Bool(x) => match other {
                FilterValue::Bool(y) => Some(
                    if *x == *y {
                        Order::Equal
                    } else if *y {
                        Order::Less
                    } else {
                        Order::Greater
                    },
                ),
                _ => None,
            },
            FilterValue::Number(x) => match other {
                FilterValue::Number(y) => Some(x.compare(y)),
                _ => None,
            },
            FilterValue::String(x) => match other {
                FilterValue::String(y) => Some(compare_text(x.as_str(), y.as_str())),
                _ => None,
            },
            FilterValue::Tuple(x) => match other {
                FilterValue::Tuple(y) => {
                    if x.len() < y.len() {
                        return Some(Order::Less);
                    }
                    if x.len() > y.len() {
                        return Some(Order::Greater);
                    }
                    let ghost xs = self@->Tuple_0;
                    let ghost ys = other@->Tuple_0;
                    let mut i: usize = 0;
                    while i < x.len()
                        invariant
                            self == FilterValue::Tuple(*x),
                            other == FilterValue::Tuple(*y),
                            xs == self@->Tuple_0,
                            ys == other@->Tuple_0,
                            x@.len() == y@.len(),
                            i <= x@.len(),
                            items_order(xs, ys, i as int) == items_order(xs, ys, 0),
                        decreases x@.len() - i,
                    {
                        let o = x[i].compare(&y[i]);
                        proof {
                            assert(xs[i as int] == x@[i as int]@);
                            assert(ys[i as int] == y@[i as int]@);
                        }
                        match o {
                            Some(Order::Equal) => {},
                            _ => {
                                return o;
                            },
                        }
                        i += 1;
                    }
                    Some(Order::Equal)
                },
                _ => None,
            },
        }
    }

    /// Whether this value holds `other`.
    pub fn contains(&self, other: &FilterValue) -> (found: bool)
        ensures
            found == value_contains(self@, other@),
    {
        match self {
            FilterValue::Tuple(items) => {
                let ghost xs = self@->Tuple_0;
                let mut i: usize = 0;
                while i < items.len()
                    invariant
                        self == FilterValue::Tuple(*items),
                        xs == self@->Tuple_0,
                        i <= items@.len(),
                        forall|j: int| 0 <= j < i ==> !value_eq(xs[j], other@),
                    decreases items@.len() - i,
                {
                    if items[i].equals(other) {
                        proof {
                            assert(xs[i as int] == items@[i as int]@);
                        }
                        return true;
                    }
                    proof {
                        assert(xs[i as int] == items@[i as int]@);
                    }
                    i += 1;
                }
                false
            },
            FilterValue::String(x) => match other {
                FilterValue::String(y) => {
                    let hay = to_lowercase(x.as_str());
                    let needle = to_lowercase(y.as_str());
                    contains_text(hay.as_str(), needle.as_str())
                },
                _ => false,
            },
            _ => false,
        }
    }

    /// Whether this value is a string that starts with the string `other`.
    pub fn startswith(&self, other: &FilterValue) -> (found: bool)
        ensures
            found == value_startswith(self@, other@),
    {
        match self {
            FilterValue::String(x) => match other {
                FilterValue::String(y) => {
                    let hay = to_lowercase(x.as_str());
                    let needle = to_lowercase(y.as_str());
                    starts_with_text(hay.as_str(), needle.as_str())
                },
                _ => false,
            },
            _ => false,
        }
    }

    /// Whether this value is a string that ends with the string `other`.
    pub fn endswith(&self, other: &FilterValue) -> (found: bool)
        ensures
            found == value_endswith(self@, other@),
    {
        match self {
            FilterValue::String(x) => match other {
                FilterValue::String(y) => {
                    let hay = to_lowercase(x.as_str());
                    let needle = to_lowercase(y.as_str());
                    ends_with_text(hay.as_str(), needle.as_str())
                },
                _ => false,
            },
            _ => false,
        }
    }
}

/// What a filter can ask an object for.
pub trait Filterable {
    /// The properties of the object: a value for every key, null for the
    /// keys it does not know. An implementation states here what `get`
    /// answers; one that states nothing leaves its answers unknown.
    open spec fn property(&self, key: Seq<char>) -> ValueView {
        arbitrary()
    }

    /// The value of the property `key`.
    fn get(&self, key: &str) -> (value: FilterValue)
        ensures
            value@ == self.property(key@),
    ;
}

} // verus!
