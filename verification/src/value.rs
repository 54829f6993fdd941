use crate::object::Object;
use vstd::prelude::*;

verus! {

/// A dynamically typed value as a query hands it back.
#[derive(Debug, PartialEq)]
pub enum Value {
    /// The absence of a value.
    Null,
    /// An explicit truth value.
    Bool(bool),
    /// A number, held as its 64-bit integer value.
    Number(i64),
    /// A string.
    Strand(String),
    /// A record identifier, held as its canonical text.
    Thing(String),
    /// A mapping from field names to values.
    Object(Object),
    /// A sequence of values.
    Array(Array),
}

/// The first row of a result: the first element of a value that is an array
/// with at least one element, else nothing.
pub open spec fn first_row(v: Value) -> Option<Value> {
    match v {
        Value::Array(a) => if a@.len() > 0 {
            Some(a@[0])
        } else {
            None
        },
        _ => None,
    }
}

impl Value {
    /// Hands out the first element of an array; nothing for an empty array
    /// and for every value that is no array.
    pub fn first(self) -> (r: Option<Value>)
        ensures
            r == first_row(self),
    {
        match self {
            Value::Array(arr) => {
                let mut items = arr.0;
                if items.len() > 0 {
                    Some(items.swap_remove(0))
                } else {
                    None
                }
            },
            _ => None,
        }
    }
}

/// A sequence of dynamic values.
#[derive(Debug, PartialEq)]
pub struct Array(pub Vec<Value>);

impl View for Array {
    type V = Seq<Value>;

    open spec fn view(&self) -> Seq<Value> {
        self.0@
    }
}

} // verus!
