use crate::error::StoreError;
use crate::object::Object;
use crate::value::{Array, Value};
use crate::W;
use vstd::prelude::*;
use vstd::std_specs::convert::TryFromSpec;

verus! {

/// What taking a field as a `T` yields, given what the object held under the
/// field's name: nothing where the field is absent, else the outcome of
/// converting its value.
pub open spec fn taken<T: TryFrom<W<Value>, Error = StoreError>>(field: Option<Value>) -> Result<
    Option<T>,
    StoreError,
> {
    match field {
        None => Ok(None),
        Some(v) => match T::try_from_spec(W(v)) {
            Ok(t) => Ok(Some(t)),
            Err(e) => Err(e),
        },
    }
}

/// Whether `after` is `before` with the field `k` removed, if it was there,
/// and every other field in its place.
pub open spec fn leaves(before: &Object, k: Seq<char>, after: &Object) -> bool {
    &&& after@ == before@.remove(k)
    &&& before@.contains_key(k) ==> {
        let i = before.keys().index_of(k);
        &&& after.keys() == before.keys().remove(i)
        &&& after.values() == before.values().remove(i)
    }
    &&& !before@.contains_key(k) ==> {
        &&& after.keys() == before.keys()
        &&& after.values() == before.values()
    }
}

/// Whether `out` is what a required take makes of the optional take's result
/// `got` for the field `k`: the value where there is one, the error where the
/// conversion failed, and the missing-property error naming `k` where the
/// field was absent.
pub open spec fn required<T>(
    got: Result<Option<T>, StoreError>,
    k: Seq<char>,
    out: Result<T, StoreError>,
) -> bool {
    match got {
        Ok(Some(t)) => out == Ok::<T, StoreError>(t),
        Ok(None) => out matches Err(StoreError::XPropertyNotFound(name)) && name@ == k,
        Err(e) => out == Err::<T, StoreError>(e),
    }
}

/// Removes the field `k` from `obj` and converts its value to a `T`.
fn take_as<T: TryFrom<W<Value>, Error = StoreError>>(obj: &mut Object, k: &str) -> (r: Result<
    Option<T>,
    StoreError,
>)
    requires
        T::obeys_try_from_spec(),
    ensures
        r == taken::<T>(old(obj)@.get(k@)),
        leaves(old(obj), k@, final(obj)),
{
    match obj.remove(k) {
        None => Ok(None),
        Some(v) => match T::try_from(W(v)) {
            Ok(val) => Ok(Some(val)),
            Err(ex) => Err(ex),
        },
    }
}

/// Destructive, typed read of one field of a container of dynamic values.
pub trait XTakeImpl<T>: Sized {
    /// What taking the field `k` out of `before` returns.
    spec fn x_take_result(before: &Self, k: Seq<char>) -> Result<Option<T>, StoreError>;

    /// Whether `after` is `before` without the field `k`.
    spec fn x_take_leaves(before: &Self, k: Seq<char>, after: &Self) -> bool;

    /// Removes the field `k`, whatever it holds, and converts its value:
    /// `Ok(None)` where there was no such field, the converted value where
    /// the conversion accepts, its error where it refuses.
    fn x_take_impl(&mut self, k: &str) -> (r: Result<Option<T>, StoreError>)
        ensures
            r == Self::x_take_result(old(self), k@),
            Self::x_take_leaves(old(self), k@, final(self)),
    ;
}

impl XTakeImpl<String> for Object {
    open spec fn x_take_result(before: &Self, k: Seq<char>) -> Result<Option<String>, StoreError> {
        taken::<String>(before@.get(k))
    }

    open spec fn x_take_leaves(before: &Self, k: Seq<char>, after: &Self) -> bool {
        leaves(before, k, after)
    }

    fn x_take_impl(&mut self, k: &str) -> (r: Result<Option<String>, StoreError>) {
        take_as::<String>(self, k)
    }
}

impl XTakeImpl<i64> for Object {
    open spec fn x_take_result(before: &Self, k: Seq<char>) -> Result<Option<i64>, StoreError> {
        taken::<i64>(before@.get(k))
    }

    open spec fn x_take_leaves(before: &Self, k: Seq<char>, after: &Self) -> bool {
        leaves(before, k, after)
    }

    fn x_take_impl(&mut self, k: &str) -> (r: Result<Option<i64>, StoreError>) {
        take_as::<i64>(self, k)
    }
}

impl XTakeImpl<bool> for Object {
    open spec fn x_take_result(before: &Self, k: Seq<char>) -> Result<Option<bool>, StoreError> {
        taken::<bool>(before@.get(k))
    }

    open spec fn x_take_leaves(before: &Self, k: Seq<char>, after: &Self) -> bool {
        leaves(before, k, after)
    }

    fn x_take_impl(&mut self, k: &str) -> (r: Result<Option<bool>, StoreError>) {
        take_as::<bool>(self, k)
    }
}

impl XTakeImpl<Object> for Object {
    open spec fn x_take_result(before: &Self, k: Seq<char>) -> Result<Option<Object>, StoreError> {
        taken::<Object>(before@.get(k))
    }

    open spec fn x_take_leaves(before: &Self, k: Seq<char>, after: &Self) -> bool {
        leaves(before, k, after)
    }

    fn x_take_impl(&mut self, k: &str) -> (r: Result<Option<Object>, StoreError>) {
        take_as::<Object>(self, k)
    }
}

impl XTakeImpl<Array> for Object {
    open spec fn x_take_result(before: &Self, k: Seq<char>) -> Result<Option<Array>, StoreError> {
        taken::<Array>(before@.get(k))
    }

    open spec fn x_take_leaves(before: &Self, k: Seq<char>, after: &Self) -> bool {
        leaves(before, k, after)
    }

    fn x_take_impl(&mut self, k: &str) -> (r: Result<Option<Array>, StoreError>) {
        take_as::<Array>(self, k)
    }
}

/// Takes a field by name, the target type chosen at the call. Every
/// container with an `XTakeImpl` has it.
pub trait XTake: Sized {
    /// Removes the field `k` and converts its value, as `x_take_impl` does.
    fn x_take<T>(&mut self, k: &str) -> (r: Result<Option<T>, StoreError>) where Self: XTakeImpl<T>
        ensures
            r == <Self as XTakeImpl<T>>::x_take_result(old(self), k@),
            <Self as XTakeImpl<T>>::x_take_leaves(old(self), k@, final(self)),
    ;
}

impl<S> XTake for S {
    fn x_take<T>(&mut self, k: &str) -> (r: Result<Option<T>, StoreError>) where
        Self: XTakeImpl<T>,
     {
        XTakeImpl::x_take_impl(self, k)
    }
}

/// Takes a field that must be there. Every container with an `XTakeImpl`
/// has it.
pub trait XTakeVal: Sized {
    /// Removes the field `k` and converts its value; an absent field is the
    /// missing-property error that names `k`.
    fn x_take_val<T>(&mut self, k: &str) -> (r: Result<T, StoreError>) where Self: XTakeImpl<T>
        ensures
            required(<Self as XTakeImpl<T>>::x_take_result(old(self), k@), k@, r),
            <Self as XTakeImpl<T>>::x_take_leaves(old(self), k@, final(self)),
    ;
}

impl<S> XTakeVal for S {
    fn x_take_val<T>(&mut self, k: &str) -> (r: Result<T, StoreError>) where Self: XTakeImpl<T> {
        match XTakeImpl::x_take_impl(self, k) {
            Ok(Some(val)) => Ok(val),
            Ok(None) => Err(StoreError::XPropertyNotFound(k.to_owned())),
            Err(ex) => Err(ex),
        }
    }
}

/// Taking a field that the object does not have yields nothing, for each of
/// the five target types.
pub proof fn lemma_take_absent(o: Object, f: Seq<char>)
    requires
        !o@.contains_key(f),
    ensures
        <Object as XTakeImpl<String>>::x_take_result(&o, f) == Ok::<Option<String>, StoreError>(
            None,
        ),
        <Object as XTakeImpl<i64>>::x_take_result(&o, f) == Ok::<Option<i64>, StoreError>(None),
        <Object as XTakeImpl<bool>>::x_take_result(&o, f) == Ok::<Option<bool>, StoreError>(None),
        <Object as XTakeImpl<Object>>::x_take_result(&o, f) == Ok::<Option<Object>, StoreError>(
            None,
        ),
        <Object as XTakeImpl<Array>>::x_take_result(&o, f) == Ok::<Option<Array>, StoreError>(
            None,
        ),
{
}

/// Where the optional take of `f` yields nothing, every outcome `out` of the
/// required take is the missing-property error that names `f`.
pub proof fn lemma_take_val_absent<T>(f: Seq<char>, out: Result<T, StoreError>)
    requires
        required(Ok::<Option<T>, StoreError>(None), f, out),
    ensures
        out matches Err(StoreError::XPropertyNotFound(name)) && name@ == f,
{
}

/// A take is a destructive read: in the object `after` that a take of `f`
/// leaves behind, `f` is absent, so a second take of `f` yields nothing, for
/// each of the five target types.
pub proof fn lemma_take_twice(before: Object, f: Seq<char>, after: Object)
    requires
        leaves(&before, f, &after),
    ensures
        !after@.contains_key(f),
        <Object as XTakeImpl<String>>::x_take_result(&after, f) == Ok::<Option<String>, StoreError>(
            None,
        ),
        <Object as XTakeImpl<i64>>::x_take_result(&after, f) == Ok::<Option<i64>, StoreError>(
            None,
        ),
        <Object as XTakeImpl<bool>>::x_take_result(&after, f) == Ok::<Option<bool>, StoreError>(
            None,
        ),
        <Object as XTakeImpl<Object>>::x_take_result(&after, f) == Ok::<Option<Object>, StoreError>(
            None,
        ),
        <Object as XTakeImpl<Array>>::x_take_result(&after, f) == Ok::<Option<Array>, StoreError>(
            None,
        ),
{
}

} // verus!
