//! A value tagged with the chain it belongs to.

use core::marker::PhantomData;
use vstd::prelude::*;

verus! {

/// A value of type `Value` that belongs to the chain named by the marker type
/// `Tag`.
///
/// The marker exists only in the type and takes no room in the value. Two
/// tagged values with different markers have different types, so a function
/// that asks for a value of one chain does not compile when it is handed a
/// value of another. No operation below but [`retag`](MonoTagged::retag)
/// gives a value another marker.
pub struct MonoTagged<Tag, Value>(pub Value, pub PhantomData<Tag>);

impl<Tag, Value> View for MonoTagged<Tag, Value> {
    type V = Value;

    /// The value without its marker.
    open spec fn view(&self) -> Value {
        self.0
    }
}

impl<Tag, Value> MonoTagged<Tag, Value> {
    /// The marker that the value carries. Its type is the statement: an
    /// equation between the markers of two tagged values is well typed only
    /// where both carry the same `Tag`.
    pub open spec fn marker(&self) -> PhantomData<Tag> {
        self.1
    }

    /// Tags `value` with `Tag`. Every value can be tagged, with any marker.
    pub fn new(value: Value) -> (tagged: Self)
        ensures
            tagged@ == value,
    {
        MonoTagged(value, PhantomData)
    }

    /// The tagged value, borrowed.
    pub fn value(&self) -> (value: &Value)
        ensures
            *value == self@,
    {
        &self.0
    }

    /// The tagged value, owned.
    pub fn into_value(self) -> (value: Value)
        ensures
            value == self@,
    {
        self.0
    }

    /// A tagged reference to the value, with the same marker.
    pub fn as_ref(&self) -> (tagged: MonoTagged<Tag, &Value>)
        ensures
            *tagged@ == self@,
            tagged.marker() == self.marker(),
    {
        MonoTagged(&self.0, PhantomData)
    }

    /// Applies `mapper` to the value and tags what it returns with the same
    /// marker.
    pub fn map<T>(&self, mapper: impl FnOnce(&Value) -> T) -> (mapped: MonoTagged<Tag, T>)
        requires
            call_requires(mapper, (&self@,)),
        ensures
            call_ensures(mapper, (&self@,), mapped@),
            mapped.marker() == self.marker(),
    {
        MonoTagged(mapper(&self.0), PhantomData)
    }

    /// Applies `mapper` to the value and tags the reference it returns, to a
    /// field of the value for one, with the same marker.
    pub fn map_ref<'a, T: ?Sized>(&'a self, mapper: impl FnOnce(&'a Value) -> &'a T) -> (mapped:
        MonoTagged<Tag, &'a T>)
        requires
            call_requires(mapper, (&self@,)),
        ensures
            call_ensures(mapper, (&self@,), mapped@),
            mapped.marker() == self.marker(),
    {
        MonoTagged(mapper(&self.0), PhantomData)
    }

    /// Consumes the tagged value, applies `mapper` to it and tags what it
    /// returns with the same marker.
    pub fn map_into<T>(self, mapper: impl FnOnce(Value) -> T) -> (mapped: MonoTagged<Tag, T>)
        requires
            call_requires(mapper, (self@,)),
        ensures
            call_ensures(mapper, (self@,), mapped@),
            mapped.marker() == self.marker(),
    {
        MonoTagged(mapper(self.0), PhantomData)
    }

    /// Gives the value the marker `Tag2` in place of `Tag`.
    ///
    /// This is the one operation that changes a marker, and a caller has to
    /// write it out.
    pub fn retag<Tag2>(self) -> (tagged: MonoTagged<Tag2, Value>)
        ensures
            tagged@ == self@,
    {
        MonoTagged(self.0, PhantomData)
    }
}

} // verus!
