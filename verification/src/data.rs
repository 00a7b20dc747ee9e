//! Shared application state handed to method handlers.

use fxhash::FxHashMap;
use std::any::{Any, TypeId};
use std::sync::Arc;
use vstd::prelude::*;

verus! {

/// A reference-counted handle to one piece of shared application state.
///
/// Every clone of a handle points at the same value; the handle never
/// arbitrates mutation, so state that changes carries its own lock.
pub struct Data<T>(Arc<T>);

impl<T> View for Data<T> {
    type V = T;

    closed spec fn view(&self) -> T {
        *self.0
    }
}

/// `Arc::clone`: the new pointer shares the allocation of `a`, so it
/// dereferences to the same value.
#[verifier::external_body]
fn share<T>(a: &Arc<T>) -> (r: Arc<T>)
    ensures
        r == *a,
{
    Arc::clone(a)
}

impl<T> Data<T> {
    /// Wraps `d` in a fresh shared handle.
    pub fn new(d: T) -> (r: Self)
        ensures
            r@ == d,
    {
        Data(Arc::new(d))
    }

    /// Borrows the shared value.
    pub fn get_ref(&self) -> (r: &T)
        ensures
            *r == self@,
    {
        &*self.0
    }
}

impl<T> Clone for Data<T> {
    fn clone(&self) -> (r: Data<T>)
        ensures
            r == *self,
    {
        Data(share(&self.0))
    }
}

/// `std::any::TypeId`, taken as it is: a key that stands for a type.
#[verifier::external_type_specification]
#[verifier::external_body]
pub struct ExTypeId(std::any::TypeId);

/// The registry of shared application state: at most one value of each
/// type, found again by its type.
///
/// The registry is filled while the method table is built and only read
/// afterwards. It is kept in an `FxHashMap` from `TypeId` to a boxed
/// `dyn Any`, which the verifier cannot look into. Contracts speak of the
/// types that have a value in it, by [`registered`]; of the values
/// themselves nothing is proved.
#[verifier::external_body]
pub struct DataExtensions(FxHashMap<TypeId, Box<dyn Any>>);

/// The types that have a value in the registry: the keys of its map.
pub uninterp spec fn registered(registry: DataExtensions) -> Set<TypeId>;

/// The types that have a value in `after` are those of `before` and one
/// more, which `before` may have had already.
pub open spec fn one_put_in(before: DataExtensions, after: DataExtensions) -> bool {
    exists|key: TypeId| registered(after) == #[trigger] registered(before).insert(key)
}

impl DataExtensions {
    /// `FxHashMap::default`: a map without entries.
    #[verifier::external_body]
    fn empty() -> (r: Self)
        ensures
            registered(r) == Set::<TypeId>::empty(),
    {
        DataExtensions(FxHashMap::default())
    }

    /// `FxHashMap::get` under `TypeId::of::<D>()`, then
    /// `<dyn Any>::downcast_ref` on what was found: nothing is found
    /// under a key that the map does not have.
    #[verifier::external_body]
    fn lookup<D: 'static>(&self) -> (r: Option<&D>)
        ensures
            r is Some ==> exists|key: TypeId| #[trigger] registered(*self).contains(key),
    {
        self.0.get(&TypeId::of::<D>()).and_then(|boxed| boxed.downcast_ref())
    }

    /// Puts `t` into the registry, by `FxHashMap::insert` under
    /// `TypeId::of::<T>()`. A value of the same type that was there before
    /// is replaced: the last one counts. The values of other types stay.
    /// Only values that may be shared between threads are taken.
    #[verifier::external_body]
    pub fn insert<T: Clone + Send + Sync + 'static>(&mut self, t: T)
        ensures
            one_put_in(*old(self), *final(self)),
    {
        self.0.insert(TypeId::of::<T>(), Box::new(t));
    }

    /// The value of type `D`, if one was put in. A registry without
    /// values gives `None`.
    pub fn get<D: Clone + Send + Sync + 'static>(&self) -> (r: Option<&D>)
        ensures
            r is Some ==> exists|key: TypeId| #[trigger] registered(*self).contains(key),
    {
        self.lookup::<D>()
    }
}

impl Default for DataExtensions {
    /// A registry that holds nothing.
    fn default() -> (r: Self)
        ensures
            registered(r) == Set::<TypeId>::empty(),
    {
        DataExtensions::empty()
    }
}

} // verus!
