use crate::error::StoreError;
use crate::object::Object;
use crate::value::{Array, Value};
use crate::W;
use vstd::prelude::*;
use vstd::std_specs::convert::TryFromSpec;

verus! {

impl TryFrom<W<Value>> for Object {
    type Error = StoreError;

    /// An object value gives its object; every other value is refused.
    fn try_from(val: W<Value>) -> (r: Result<Object, StoreError>)
        ensures
            val.0 matches Value::Object(o) ==> r == Ok::<Object, StoreError>(o),
            !(val.0 is Object) ==> r == Err::<Object, StoreError>(
                StoreError::XValueNotOfType("Object"),
            ),
    {
        match val.0 {
            Value::Object(obj) => Ok(obj),
            _ => Err(StoreError::XValueNotOfType("Object")),
        }
    }
}

impl vstd::std_specs::convert::TryFromSpecImpl<W<Value>> for Object {
    open spec fn obeys_try_from_spec() -> bool {
        true
    }

    open spec fn try_from_spec(val: W<Value>) -> Result<Object, StoreError> {
        match val.0 {
            Value::Object(obj) => Ok(obj),
            _ => Err(StoreError::XValueNotOfType("Object")),
        }
    }
}

impl TryFrom<W<Value>> for Array {
    type Error = StoreError;

    /// An array value gives its array; every other value is refused.
    fn try_from(val: W<Value>) -> (r: Result<Array, StoreError>)
        ensures
            val.0 matches Value::Array(a) ==> r == Ok::<Array, StoreError>(a),
            !(val.0 is Array) ==> r == Err::<Array, StoreError>(
                StoreError::XValueNotOfType("Array"),
            ),
    {
        match val.0 {
            Value::Array(arr) => Ok(arr),
            _ => Err(StoreError::XValueNotOfType("Array")),
        }
    }
}

impl vstd::std_specs::convert::TryFromSpecImpl<W<Value>> for Array {
    open spec fn obeys_try_from_spec() -> bool {
        true
    }

    open spec fn try_from_spec(val: W<Value>) -> Result<Array, StoreError> {
        match val.0 {
            Value::Array(arr) => Ok(arr),
            _ => Err(StoreError::XValueNotOfType("Array")),
        }
    }
}

impl TryFrom<W<Value>> for i64 {
    type Error = StoreError;

    /// A number gives its integer value; every other value is refused.
    fn try_from(val: W<Value>) -> (r: Result<i64, StoreError>)
        ensures
            val.0 matches Value::Number(n) ==> r == Ok::<i64, StoreError>(n),
            !(val.0 is Number) ==> r == Err::<i64, StoreError>(StoreError::XValueNotOfType("i64")),
    {
        match val.0 {
            Value::Number(n) => Ok(n),
            _ => Err(StoreError::XValueNotOfType("i64")),
        }
    }
}

impl vstd::std_specs::convert::TryFromSpecImpl<W<Value>> for i64 {
    open spec fn obeys_try_from_spec() -> bool {
        true
    }

    open spec fn try_from_spec(val: W<Value>) -> Result<i64, StoreError> {
        match val.0 {
            Value::Number(n) => Ok(n),
            _ => Err(StoreError::XValueNotOfType("i64")),
        }
    }
}

impl TryFrom<W<Value>> for bool {
    type Error = StoreError;

    /// An explicit truth value gives itself; every other value is refused.
    fn try_from(val: W<Value>) -> (r: Result<bool, StoreError>)
        ensures
            val.0 matches Value::Bool(b) ==> r == Ok::<bool, StoreError>(b),
            !(val.0 is Bool) ==> r == Err::<bool, StoreError>(StoreError::XValueNotOfType("bool")),
    {
        match val.0 {
            Value::Bool(b) => Ok(b),
            _ => Err(StoreError::XValueNotOfType("bool")),
        }
    }
}

impl vstd::std_specs::convert::TryFromSpecImpl<W<Value>> for bool {
    open spec fn obeys_try_from_spec() -> bool {
        true
    }

    open spec fn try_from_spec(val: W<Value>) -> Result<bool, StoreError> {
        match val.0 {
            Value::Bool(b) => Ok(b),
            _ => Err(StoreError::XValueNotOfType("bool")),
        }
    }
}

impl TryFrom<W<Value>> for String {
    type Error = StoreError;

    /// A string gives its text verbatim and a record identifier gives its
    /// canonical text; every other value is refused.
    fn try_from(val: W<Value>) -> (r: Result<String, StoreError>)
        ensures
            val.0 matches Value::Strand(s) ==> r == Ok::<String, StoreError>(s),
            val.0 matches Value::Thing(t) ==> r == Ok::<String, StoreError>(t),
            !(val.0 is Strand) && !(val.0 is Thing) ==> r == Err::<String, StoreError>(
                StoreError::XValueNotOfType("String"),
            ),
    {
        match val.0 {
            Value::Strand(strand) => Ok(strand),
            Value::Thing(thing) => Ok(thing),
            _ => Err(StoreError::XValueNotOfType("String")),
        }
    }
}

impl vstd::std_specs::convert::TryFromSpecImpl<W<Value>> for String {
    open spec fn obeys_try_from_spec() -> bool {
        true
    }

    open spec fn try_from_spec(val: W<Value>) -> Result<String, StoreError> {
        match val.0 {
            Value::Strand(strand) => Ok(strand),
            Value::Thing(thing) => Ok(thing),
            _ => Err(StoreError::XValueNotOfType("String")),
        }
    }
}

/// A value of a variant that a target type does not accept converts to the
/// wrong-type error that names the target, for each of the five targets.
pub proof fn lemma_mismatch_is_wrong_type(v: Value)
    ensures
        !(v is Object) ==> <Object as TryFromSpec<W<Value>>>::try_from_spec(W(v)) == Err::<
            Object,
            StoreError,
        >(StoreError::XValueNotOfType("Object")),
        !(v is Array) ==> <Array as TryFromSpec<W<Value>>>::try_from_spec(W(v)) == Err::<
            Array,
            StoreError,
        >(StoreError::XValueNotOfType("Array")),
        !(v is Number) ==> <i64 as TryFromSpec<W<Value>>>::try_from_spec(W(v)) == Err::<
            i64,
            StoreError,
        >(StoreError::XValueNotOfType("i64")),
        !(v is Bool) ==> <bool as TryFromSpec<W<Value>>>::try_from_spec(W(v)) == Err::<
            bool,
            StoreError,
        >(StoreError::XValueNotOfType("bool")),
        !(v is Strand) && !(v is Thing) ==> <String as TryFromSpec<W<Value>>>::try_from_spec(W(v))
            == Err::<String, StoreError>(StoreError::XValueNotOfType("String")),
{
}

} // verus!
