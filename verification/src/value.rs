//! The runtime values that errors report and that the expectation helpers
//! classify.

use vstd::prelude::*;

verus! {

/// The integer payload of a value or token.
pub type IntType = i64;

/// The payload of a float value: the bit pattern of an IEEE 754 binary64
/// number.
pub type FloatBits = u64;

/// The payload of a tuple value.
pub type TupleType = Vec<Value>;

/// A runtime value of the expression language.
#[derive(Debug, PartialEq)]
pub enum Value {
    /// A string value.
    String(String),
    /// A float value, held as its bit pattern.
    Float(FloatBits),
    /// An integer value.
    Int(IntType),
    /// A boolean value.
    Boolean(bool),
    /// A tuple of values.
    Tuple(TupleType),
    /// The empty value.
    Empty,
}

/// The mathematical content of a [`Value`].
pub enum ValueView {
    String(Seq<char>),
    Float(FloatBits),
    Int(IntType),
    Boolean(bool),
    Tuple(Seq<ValueView>),
    Empty,
}

/// The kind of a value, without its payload.
#[derive(Clone, Copy, Debug, PartialEq, Eq, Structural)]
pub enum ValueType {
    String,
    Float,
    Int,
    Boolean,
    Tuple,
    Empty,
}

/// The views of the items of a tuple, in order.
pub open spec fn tuple_view(items: Seq<Value>) -> Seq<ValueView>
    decreases items,
{
    Seq::new(
        items.len(),
        |i: int|
            if 0 <= i < items.len() {
                items[i]@
            } else {
                ValueView::Empty
            },
    )
}

impl View for Value {
    type V = ValueView;

    open spec fn view(&self) -> ValueView
        decreases self,
    {
        match self {
            Value::String(text) => ValueView::String(text@),
            Value::Float(bits) => ValueView::Float(*bits),
            Value::Int(number) => ValueView::Int(*number),
            Value::Boolean(flag) => ValueView::Boolean(*flag),
            Value::Tuple(items) => ValueView::Tuple(tuple_view(items@)),
            Value::Empty => ValueView::Empty,
        }
    }
}

impl ValueView {
    /// Whether the value is numeric: an integer or a float.
    pub open spec fn is_number(self) -> bool {
        self is Int || self is Float
    }

    /// The kind of the value.
    pub open spec fn kind(self) -> ValueType {
        match self {
            ValueView::String(_) => ValueType::String,
            ValueView::Float(_) => ValueType::Float,
            ValueView::Int(_) => ValueType::Int,
            ValueView::Boolean(_) => ValueType::Boolean,
            ValueView::Tuple(_) => ValueType::Tuple,
            ValueView::Empty => ValueType::Empty,
        }
    }
}

impl Value {
    /// The kind of this value.
    pub fn value_type(&self) -> (kind: ValueType)
        ensures
            kind == self@.kind(),
    {
        match self {
            Value::String(_) => ValueType::String,
            Value::Float(_) => ValueType::Float,
            Value::Int(_) => ValueType::Int,
            Value::Boolean(_) => ValueType::Boolean,
            Value::Tuple(_) => ValueType::Tuple,
            Value::Empty => ValueType::Empty,
        }
    }
}

impl Clone for Value {
    /// A deep copy: the result has the same view.
    fn clone(&self) -> (copy: Self)
        ensures
            copy@ == self@,
        decreases self,
    {
        match self {
            Value::String(text) => Value::String(text.clone()),
            Value::Float(bits) => Value::Float(*bits),
            Value::Int(number) => Value::Int(*number),
            Value::Boolean(flag) => Value::Boolean(*flag),
            Value::Tuple(items) => {
                let mut copies: Vec<Value> = Vec::new();
                let mut i: usize = 0;
                while i < items.len()
                    invariant
                        decreases_to!(self => items),
                        i <= items.len(),
                        copies.len() == i,
                        forall|j: int| 0 <= j < i ==> copies@[j]@ == items@[j]@,
                    decreases items.len() - i,
                {
                    proof {
                        vstd::std_specs::vec::axiom_vec_index_decreases(*items, i as int);
                    }
                    let item = items[i].clone();
                    copies.push(item);
                    i += 1;
                }
                assert(tuple_view(copies@) =~= tuple_view(items@));
                Value::Tuple(copies)
            },
            Value::Empty => Value::Empty,
        }
    }
}

} // verus!
