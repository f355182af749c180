//! Values stored in a form of their own: a `Transformer` turns a value into
//! the data that is stored and back, and a `DataHolder` holds that data.
use std::cmp::Ordering;
use std::marker::PhantomData;
use vstd::prelude::*;
use vstd::std_specs::cmp::{PartialEqSpec, PartialOrdSpec};

verus! {

/// A value that is stored as data of another type.
pub trait Transformer: Sized {
    type DataType;

    /// Whether `transform` and `revert` compute `transformed` and
    /// `reverted`. An implementation that does not say so promises nothing
    /// of them.
    open spec fn obeys_transform_spec() -> bool {
        false
    }

    /// The data that the value is stored as; it means something only where
    /// `obeys_transform_spec` holds.
    open spec fn transformed(&self) -> Self::DataType {
        vstd::pervasive::arbitrary()
    }

    /// The value that stored data stands for; it means something only where
    /// `obeys_transform_spec` holds.
    open spec fn reverted(value: Self::DataType) -> Self {
        vstd::pervasive::arbitrary()
    }

    fn transform(&self) -> (r: Self::DataType)
        ensures
            Self::obeys_transform_spec() ==> r == self.transformed(),
    ;

    fn revert(value: &Self::DataType) -> (r: Self)
        ensures
            Self::obeys_transform_spec() ==> r == Self::reverted(*value),
    ;
}

/// Holds the stored form of a value of type `T`.
#[derive(Debug)]
pub struct DataHolder<V, T> {
    inner: V,
    _marker: PhantomData<T>,
}

impl<V, T> View for DataHolder<V, T> {
    type V = V;

    /// The stored data.
    closed spec fn view(&self) -> V {
        self.inner
    }
}

impl<V, T> DataHolder<V, T> where T: Transformer<DataType = V> {
    pub fn from_value(value: &T) -> (r: Self)
        ensures
            call_ensures(T::transform, (value,), r@),
            T::obeys_transform_spec() ==> r@ == value.transformed(),
    {
        DataHolder { inner: value.transform(), _marker: PhantomData }
    }

    pub fn into_value(&self) -> (r: T)
        ensures
            call_ensures(T::revert, (&self@,), r),
            T::obeys_transform_spec() ==> r == T::reverted(self@),
    {
        T::revert(&self.inner)
    }
}

impl<V, T> DataHolder<V, T> {
    /// A holder of data as it was read from storage.
    pub fn from_stored(inner: V) -> (r: Self)
        ensures
            r@ == inner,
    {
        DataHolder { inner, _marker: PhantomData }
    }

    /// The stored data, to be written to storage.
    pub fn stored(&self) -> (r: &V)
        ensures
            *r == self@,
    {
        &self.inner
    }
}

impl<V, T> From<T> for DataHolder<V, T> where T: Transformer<DataType = V> {
    fn from(value: T) -> (r: Self)
        ensures
            call_ensures(T::transform, (&value,), r@),
            T::obeys_transform_spec() ==> r@ == value.transformed(),
    {
        let inner = value.transform();
        DataHolder { inner, _marker: PhantomData }
    }
}

impl<V, T> vstd::std_specs::convert::FromSpecImpl<T> for DataHolder<V, T> where T: Transformer<DataType = V> {
    open spec fn obeys_from_spec() -> bool {
        T::obeys_transform_spec()
    }

    closed spec fn from_spec(value: T) -> Self {
        DataHolder { inner: value.transformed(), _marker: PhantomData }
    }
}

impl<V, T> Default for DataHolder<V, T> where T: Transformer<DataType = V> + Default {
    fn default() -> (r: Self)
        ensures
            exists|d: T| call_ensures(T::default, (), d) && call_ensures(T::transform, (&d,), r@),
    {
        let d = T::default();
        let inner = d.transform();
        let r = DataHolder { inner, _marker: PhantomData };
        assert(call_ensures(T::default, (), d) && call_ensures(T::transform, (&d,), r@));
        r
    }
}

impl<V: Clone, T> Clone for DataHolder<V, T> {
    fn clone(&self) -> (r: Self)
        ensures
            cloned(self@, r@),
    {
        DataHolder { inner: self.inner.clone(), _marker: PhantomData }
    }
}

impl<V: Copy, T> Copy for DataHolder<V, T> {

}

impl<V: PartialEq, T> PartialEq<V> for DataHolder<V, T> {
    fn eq(&self, other: &V) -> (r: bool) {
        self.inner.eq(other)
    }
}

impl<V: PartialEq, T> vstd::std_specs::cmp::PartialEqSpecImpl<V> for DataHolder<V, T> {
    open spec fn obeys_eq_spec() -> bool {
        V::obeys_eq_spec()
    }

    open spec fn eq_spec(&self, other: &V) -> bool {
        self@.eq_spec(other)
    }
}

impl<V: PartialOrd, T> PartialOrd<V> for DataHolder<V, T> {
    fn partial_cmp(&self, other: &V) -> (r: Option<Ordering>) {
        self.inner.partial_cmp(other)
    }
}

impl<V: PartialOrd, T> vstd::std_specs::cmp::PartialOrdSpecImpl<V> for DataHolder<V, T> {
    open spec fn obeys_partial_cmp_spec() -> bool {
        V::obeys_partial_cmp_spec()
    }

    open spec fn partial_cmp_spec(&self, other: &V) -> Option<Ordering> {
        self@.partial_cmp_spec(other)
    }
}

/// A value comes back unchanged from its stored form.
pub open spec fn round_trips<T: Transformer>(value: T) -> bool {
    T::obeys_transform_spec() && T::reverted(value.transformed()) == value
}

/// A value put into a holder comes back out unchanged wherever its type's
/// stored form gives it back: `into_value` after `from_value` (or `from`)
/// is the identity on such values.
pub proof fn lemma_holder_round_trip<V, T: Transformer<DataType = V>>(value: T, holder: DataHolder<V, T>)
    requires
        holder@ == value.transformed(),
        round_trips(value),
    ensures
        T::reverted(holder@) == value,
{
}

} // verus!
