use std::cmp::Ordering;
use vstd::prelude::*;
use vstd::std_specs::cmp::PartialEqSpec;
use vstd::std_specs::cmp::PartialOrdSpec;

verus! {

/// A cell for one value of type `T` that is expected to keep some invariant
/// which the cell itself neither knows nor checks.
///
/// Two operations can break such an invariant: putting a value into a cell
/// ([`UnsafeStorage::new_unsafe`]) and handing out mutable access to the value
/// inside ([`UnsafeStorage::as_ref_mut`]). Both carry the obligation in their
/// names, so that every call site is visibly a point of trust; the reason why
/// the value is valid belongs next to each call. Reading a copy of the value
/// ([`UnsafeStorage::inner`]) carries no obligation.
///
/// The cell adds nothing to the value. Its view is the value itself, and
/// comparison, hashing, cloning and the default value are those of `T`. The
/// total order and the hash are derived, so `cmp` and `hash` hand the value to
/// `T`'s own; the other operations are written out below with what they
/// promise.
///
/// This is meant for generated code that needs storage of its own without
/// wrapping every expansion in a module.
#[derive(Ord, Hash)]
pub struct UnsafeStorage<T>(T);

impl<T> View for UnsafeStorage<T> {
    type V = T;

    /// The value that the cell holds.
    closed spec fn view(&self) -> T {
        self.0
    }
}

impl<T> UnsafeStorage<T> {
    /// The cell that holds `inner`.
    pub closed spec fn spec_new_unsafe(inner: T) -> Self {
        UnsafeStorage(inner)
    }

    /// Puts `inner` into a new cell, as it is and without any check.
    ///
    /// The caller vouches that `inner` satisfies whatever invariant the cell
    /// is used for.
    #[verifier::when_used_as_spec(spec_new_unsafe)]
    pub fn new_unsafe(inner: T) -> (cell: Self)
        ensures
            cell == Self::spec_new_unsafe(inner),
            cell@ == inner,
    {
        UnsafeStorage(inner)
    }

    /// Gives exclusive access to the value inside the cell.
    ///
    /// The access starts at the value that the cell holds now. When it ends,
    /// the cell holds the value that was left behind, and is the cell that
    /// `new_unsafe` would have built from that value. The caller vouches for
    /// that value as for an argument of `new_unsafe`.
    pub fn as_ref_mut(&mut self) -> (interior: &mut T)
        ensures
            *interior == old(self)@,
            final(self)@ == *final(interior),
            *final(self) == Self::new_unsafe(*final(interior)),
    {
        &mut self.0
    }
}

impl<T: Copy> UnsafeStorage<T> {
    /// The value that `inner` reads.
    pub open spec fn spec_inner(&self) -> T {
        self@
    }

    /// Get the inner value.
    #[verifier::when_used_as_spec(spec_inner)]
    pub fn inner(&self) -> (value: T)
        ensures
            value == self@,
    {
        self.0
    }
}

impl<T: Clone> Clone for UnsafeStorage<T> {
    /// Clones the value with `T`'s own `clone` and holds the result.
    fn clone(&self) -> (copy: Self)
        ensures
            cloned::<T>(self@, copy@),
    {
        UnsafeStorage(self.0.clone())
    }
}

impl<T: Copy> Copy for UnsafeStorage<T> {}

impl<T: Default> Default for UnsafeStorage<T> {
    /// Holds a value that `T`'s own `default` returned.
    fn default() -> (cell: Self)
        ensures
            call_ensures(T::default, (), cell@),
    {
        UnsafeStorage(T::default())
    }
}

impl<T: PartialEq> PartialEq for UnsafeStorage<T> {
    /// Answers what `T`'s own `==` answers on the two values.
    fn eq(&self, other: &Self) -> (equal: bool)
        ensures
            call_ensures(T::eq, (&self@, &other@), equal),
    {
        self.0 == other.0
    }
}

impl<T: PartialEq> vstd::std_specs::cmp::PartialEqSpecImpl for UnsafeStorage<T> {
    open spec fn obeys_eq_spec() -> bool {
        T::obeys_eq_spec()
    }

    open spec fn eq_spec(&self, other: &Self) -> bool {
        self@.eq_spec(&other@)
    }
}

impl<T: Eq> Eq for UnsafeStorage<T> {}

impl<T: PartialOrd> PartialOrd for UnsafeStorage<T> {
    /// Answers what `T`'s own `partial_cmp` answers on the two values.
    fn partial_cmp(&self, other: &Self) -> (order: Option<Ordering>)
        ensures
            call_ensures(T::partial_cmp, (&self@, &other@), order),
    {
        self.0.partial_cmp(&other.0)
    }
}

impl<T: PartialOrd> vstd::std_specs::cmp::PartialOrdSpecImpl for UnsafeStorage<T> {
    open spec fn obeys_partial_cmp_spec() -> bool {
        T::obeys_partial_cmp_spec()
    }

    open spec fn partial_cmp_spec(&self, other: &Self) -> Option<Ordering> {
        self@.partial_cmp_spec(&other@)
    }
}

/// A cell is no more and no less than the value it holds: the cell built from
/// `value` holds `value`, and building a cell from what `cell` holds gives
/// `cell` again.
pub proof fn lemma_cell_is_its_value<T>(cell: UnsafeStorage<T>, value: T)
    ensures
        UnsafeStorage::new_unsafe(value)@ == value,
        UnsafeStorage::new_unsafe(cell@) == cell,
{
}

} // verus!
