use vstd::prelude::*;
use vstd::std_specs::cmp::PartialEqSpec;
use vstd::std_specs::cmp::PartialOrdSpec;

use crate::storage::lemma_cell_is_its_value;
use crate::storage::UnsafeStorage;

verus! {

/// Reading a cell that was built from `value` gives `value` back.
pub proof fn lemma_read_after_new<T: Copy>(value: T)
    ensures
        UnsafeStorage::new_unsafe(value).inner() == value,
{
    lemma_cell_is_its_value(UnsafeStorage::new_unsafe(value), value);
}

/// What is written through the exclusive access is what the cell holds once
/// the access has ended: if `as_ref_mut` on `cell` gave `interior`, the access
/// ended with `written` in it, and `inner` then read `read` from the cell,
/// then `read` is `written`, and the cell is the one that `new_unsafe` builds
/// from `written`, whatever it held before.
pub proof fn lemma_read_after_overwrite<T: Copy>(
    cell: &mut UnsafeStorage<T>,
    interior: &mut T,
    written: T,
    read: T,
)
    requires
        call_ensures(UnsafeStorage::<T>::as_ref_mut, (cell,), interior),
        *final(interior) == written,
        call_ensures(UnsafeStorage::<T>::inner, (&*final(cell),), read),
    ensures
        read == written,
        *final(cell) == UnsafeStorage::new_unsafe(written),
{
}

/// `==` on cells is `T`'s `==` on the values: the cells built from `a` and
/// from `b` are equal exactly when `a` and `b` are, and the cell's `==` obeys
/// its `eq_spec` exactly where `T`'s does.
pub proof fn lemma_eq_is_eq_of_values<T: PartialEq>(a: T, b: T)
    ensures
        UnsafeStorage::new_unsafe(a).eq_spec(&UnsafeStorage::new_unsafe(b)) == a.eq_spec(&b),
        UnsafeStorage::<T>::obeys_eq_spec() == T::obeys_eq_spec(),
{
    lemma_cell_is_its_value(UnsafeStorage::new_unsafe(a), a);
    lemma_cell_is_its_value(UnsafeStorage::new_unsafe(b), b);
}

/// The order of cells is `T`'s order of the values: comparing the cells built
/// from `a` and from `b` gives what comparing `a` with `b` gives, be it less,
/// equal, greater or no answer, and the cell's comparison obeys its
/// `partial_cmp_spec` exactly where `T`'s does.
pub proof fn lemma_order_is_order_of_values<T: PartialOrd>(a: T, b: T)
    ensures
        UnsafeStorage::new_unsafe(a).partial_cmp_spec(&UnsafeStorage::new_unsafe(b))
            == a.partial_cmp_spec(&b),
        UnsafeStorage::<T>::obeys_partial_cmp_spec() == T::obeys_partial_cmp_spec(),
{
    lemma_cell_is_its_value(UnsafeStorage::new_unsafe(a), a);
    lemma_cell_is_its_value(UnsafeStorage::new_unsafe(b), b);
}

} // verus!
