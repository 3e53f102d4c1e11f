//! What holds of a cell across several operations, proved from the contracts
//! of [`crate::cell`]. Each statement follows a cell through the states that
//! those contracts give it.

use crate::cell::{read_gives, stored, StaticRefCell};
use vstd::prelude::*;

verus! {

/// `func` hands back the value it is shown, and nothing else.
pub open spec fn is_identity<T, F: FnOnce(&T) -> T>(func: F) -> bool {
    forall|v: T, out: T| #[trigger] func.ensures((&v,), out) ==> out == v
}

/// A cell that was created and never initialised gives every read the
/// fallback's result, whatever the accessor is.
pub proof fn lemma_fresh_cell_reads_fallback<T, R, F: FnOnce(&T) -> R, N: FnOnce() -> R>(
    cell: StaticRefCell<T>,
    func: F,
    none_func: N,
    out: R,
)
    requires
        cell@ == None::<T>,
    ensures
        read_gives(cell@, func, none_func, out) <==> none_func.ensures((), out),
{
}

/// After `value` has been stored, on a cell in any state, a read with an
/// identity accessor returns `value`.
pub proof fn lemma_init_then_read<T, F: FnOnce(&T) -> T, N: FnOnce() -> T>(
    before: Option<T>,
    value: T,
    func: F,
    none_func: N,
    out: T,
)
    requires
        is_identity(func),
        read_gives(stored(before, value), func, none_func, out),
    ensures
        out == value,
{
}

/// A change made through a read-write access is seen by the next read.
///
/// The cell is initialised with `value`; a read-write access with `mutate`,
/// which turns `value` into `changed`, returns `seen` and leaves the cell
/// holding `after`. Then `after` is `changed`, and a read returns a result of
/// its accessor on `changed`.
pub proof fn lemma_mutation_is_visible<
    T,
    R,
    S,
    M: FnOnce(&mut T) -> R,
    E: FnOnce() -> R,
    F: FnOnce(&T) -> S,
    N: FnOnce() -> S,
>(
    before: Option<T>,
    value: T,
    changed: T,
    mutate: M,
    none_mutate: E,
    seen: R,
    after: Option<T>,
    func: F,
    none_func: N,
    out: S,
)
    requires
        forall|r: &mut T, o: R|
            *r == value && #[trigger] mutate.ensures((r,), o) ==> *final(r) == changed,
        match stored(before, value) {
            Some(v) => exists|r: &mut T|
                *r == v && #[trigger] mutate.ensures((r,), seen) && after == Some(*final(r)),
            None => none_mutate.ensures((), seen) && after == None::<T>,
        },
        read_gives(after, func, none_func, out),
    ensures
        after == Some(changed),
        func.ensures((&changed,), out),
{
}

/// Storing a second value discards the first: the cell is as if `first` had
/// never been stored, and a read with an identity accessor returns `second`.
pub proof fn lemma_reinit_overwrites<T, F: FnOnce(&T) -> T, N: FnOnce() -> T>(
    before: Option<T>,
    first: T,
    second: T,
    func: F,
    none_func: N,
    out: T,
)
    requires
        is_identity(func),
        read_gives(stored(stored(before, first), second), func, none_func, out),
    ensures
        stored(stored(before, first), second) == stored(before, second),
        out == second,
{
}

/// A held value is always read through the accessor. The fallback has no part
/// in the result, not even where it would have returned the held value
/// itself: what a read of an initialised cell returns is a result of the
/// accessor on that value, and a result that the accessor cannot give is
/// never returned.
pub proof fn lemma_held_value_read_by_accessor<T, R, F: FnOnce(&T) -> R, N: FnOnce() -> R>(
    value: T,
    func: F,
    none_func: N,
    out: R,
)
    ensures
        read_gives(Some(value), func, none_func, out) <==> func.ensures((&value,), out),
{
}

} // verus!
