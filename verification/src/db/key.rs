use core::marker::PhantomData;
use vstd::prelude::*;

verus! {

/// A typed identifier for one row of the persistence layer's store. The type
/// parameter names the record kind the key belongs to, so keys of different
/// kinds can never be interchanged; equality compares the wrapped row
/// identifiers.
pub struct Key<T> {
    key: i64,
    marker: PhantomData<T>,
}

impl<T> Key<T> {
    /// The row identifier this key wraps.
    pub closed spec fn spec_id(self) -> int {
        self.key as int
    }

    /// Wraps a row identifier the store assigned.
    pub fn new(key: i64) -> (r: Self)
        ensures
            r.spec_id() == key,
    {
        Key { key, marker: PhantomData }
    }

    /// The row identifier, for handing back to the store.
    pub fn id(&self) -> (r: i64)
        ensures
            r == self.spec_id(),
    {
        self.key
    }
}

impl<T> Clone for Key<T> {
    fn clone(&self) -> (r: Key<T>)
        ensures
            r == *self,
    {
        Key { key: self.key, marker: self.marker }
    }
}

impl<T> Copy for Key<T> {}

impl<T> PartialEq for Key<T> {
    fn eq(&self, other: &Key<T>) -> bool {
        self.key == other.key
    }
}

impl<T> vstd::std_specs::cmp::PartialEqSpecImpl for Key<T> {
    open spec fn obeys_eq_spec() -> bool {
        true
    }

    open spec fn eq_spec(&self, other: &Key<T>) -> bool {
        self.spec_id() == other.spec_id()
    }
}

} // verus!
