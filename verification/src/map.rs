use crate::index::Index;
use vstd::prelude::*;

verus! {

/// Verus knows `vec_map::VecMap` by declaration only; values of it are opaque.
#[verifier::external_type_specification]
#[verifier::external_body]
#[verifier::reject_recursive_types(V)]
pub struct ExVecMap<V>(vec_map::VecMap<V>);

/// Append-only dense store: maps the keys 0, 1, 2, ... — in allocation
/// order — to values of one entity kind. Entities are only ever added, so a
/// key, once handed out, is never reused.
///
/// The store is backed by `vec_map::VecMap`. The map's occupied keys are
/// exactly `0 .. n` for some `n`, and the ghost sequence `entries` mirrors
/// its contents in key order; the trusted methods below are the only code
/// that touches either field, and each keeps the two in step.
#[verifier::reject_recursive_types(T)]
pub(crate) struct IndexMap<T> {
    map: vec_map::VecMap<T>,
    entries: Ghost<Seq<T>>,
}

impl<T> View for IndexMap<T> {
    type V = Seq<T>;

    closed spec fn view(&self) -> Seq<T> {
        self.entries@
    }
}

impl<T> IndexMap<T> {
    /// Relies on `vec_map::VecMap::new`: the new map holds no entries.
    #[verifier::external_body]
    pub(crate) fn new() -> (r: Self)
        ensures
            r@ == Seq::<T>::empty(),
    {
        IndexMap { map: vec_map::VecMap::new(), entries: Ghost(Seq::empty()) }
    }

    /// Relies on `vec_map::VecMap::len`: the number of entries in the map.
    #[verifier::external_body]
    pub(crate) fn len(&self) -> (n: usize)
        ensures
            n == self@.len(),
    {
        self.map.len()
    }

    /// Relies on `vec_map::VecMap::insert`: inserting at the lowest key never
    /// yet used appends the value there and displaces nothing.
    #[verifier::external_body]
    fn store(&mut self, key: usize, data: T)
        requires
            key == old(self)@.len(),
            old(self)@.len() < usize::MAX,
        ensures
            final(self)@ == old(self)@.push(data),
    {
        self.map.insert(key, data);
    }

    pub(crate) fn insert(&mut self, data: T) -> (r: Index<T>)
        requires
            old(self)@.len() < usize::MAX,
        ensures
            final(self)@ == old(self)@.push(data),
            r.offset() == old(self)@.len(),
    {
        let key = self.len();
        let r = Index::new(key);
        self.store(key, data);
        r
    }

    /// Relies on `vec_map::VecMap::get`: the value at the key, if the key is
    /// occupied.
    #[verifier::external_body]
    pub(crate) fn get(&self, idx: Index<T>) -> (r: Option<&T>)
        ensures
            idx.offset() < self@.len() ==> r.is_some() && *r.unwrap() == self@[idx.offset() as int],
            idx.offset() >= self@.len() ==> r.is_none(),
    {
        self.map.get(idx.idx)
    }

    /// Relies on `vec_map::VecMap::get_mut`: the value at the key, if the key
    /// is occupied.
    #[verifier::external_body]
    pub(crate) fn get_mut(&mut self, idx: Index<T>) -> (r: Option<&mut T>)
        ensures
            idx.offset() < old(self)@.len() ==> r.is_some() && *r.unwrap() == old(self)@[idx.offset() as int]
                && final(self)@ == old(self)@.update(idx.offset() as int, *final(r.unwrap())),
            idx.offset() >= old(self)@.len() ==> r.is_none() && *final(self) == *old(self),
    {
        self.map.get_mut(idx.idx)
    }
}

} // verus!
