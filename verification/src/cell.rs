//! The cell itself: an optional value, empty until [`StaticRefCell::init`] is
//! called, read and updated only by callers that present a critical-section
//! token.

use critical_section::CriticalSection;
use vstd::prelude::*;

verus! {

/// A lazily initialised cell for state shared between a main loop and
/// interrupt handlers.
///
/// The cell starts out empty. Every operation takes a [`CriticalSection`]
/// token, so it can only run while interrupts are held off. The operations
/// that change the cell take it by `&mut`: that is what lets their contracts
/// say exactly what the cell holds afterwards.
pub struct StaticRefCell<T> {
    slot: Option<T>,
}

impl<T> View for StaticRefCell<T> {
    type V = Option<T>;

    /// What the cell holds: `None` until it is initialised, `Some(v)` after.
    closed spec fn view(&self) -> Option<T> {
        self.slot
    }
}

/// What a cell holds once `value` has been stored in it: `value`, and nothing
/// of what it held `before`.
pub open spec fn stored<T>(before: Option<T>, value: T) -> Option<T> {
    Some(value)
}

/// `out` is a result that reading a cell which holds `held` can give: a result
/// of `func` on the held value where there is one, a result of `none_func`
/// where there is none.
pub open spec fn read_gives<T, R, F: FnOnce(&T) -> R, N: FnOnce() -> R>(
    held: Option<T>,
    func: F,
    none_func: N,
    out: R,
) -> bool {
    match held {
        Some(v) => func.ensures((&v,), out),
        None => none_func.ensures((), out),
    }
}

impl<T> StaticRefCell<T> {
    /// Creates an empty cell.
    pub fn new() -> (cell: Self)
        ensures
            cell@ == None::<T>,
    {
        StaticRefCell { slot: None }
    }

    /// Stores `value`, dropping whatever the cell held before.
    pub fn init(&mut self, _cs: CriticalSection<'_>, value: T)
        ensures
            final(self)@ == stored(old(self)@, value),
    {
        self.slot = Some(value);
    }

    /// Hands the held value to `func` and returns what it returns; on an empty
    /// cell, returns what `none_func` returns instead.
    ///
    /// Only the function that is called has to accept its argument, so a
    /// caller that knows the cell to be initialised may pass any fallback.
    pub fn borrow<R, F: FnOnce(&T) -> R, N: FnOnce() -> R>(
        &self,
        _cs: CriticalSection<'_>,
        func: F,
        none_func: N,
    ) -> (out: R)
        requires
            match self@ {
                Some(v) => func.requires((&v,)),
                None => none_func.requires(()),
            },
        ensures
            read_gives(self@, func, none_func, out),
    {
        match self.slot.as_ref() {
            Some(value) => func(value),
            None => none_func(),
        }
    }

    /// Hands a mutable reference to the held value to `func`, which may change
    /// it in place, and returns what `func` returns. The cell then holds what
    /// `func` left behind the reference. On an empty cell, returns what
    /// `none_func` returns instead, and the cell stays empty.
    pub fn borrow_mut<R, F: FnOnce(&mut T) -> R, N: FnOnce() -> R>(
        &mut self,
        _cs: CriticalSection<'_>,
        func: F,
        none_func: N,
    ) -> (out: R)
        requires
            match old(self)@ {
                Some(v) => forall|r: &mut T| *r == v ==> #[trigger] func.requires((r,)),
                None => none_func.requires(()),
            },
        ensures
            match old(self)@ {
                Some(v) => exists|r: &mut T|
                    *r == v && #[trigger] func.ensures((r,), out) && final(self)@ == Some(
                        *final(r),
                    ),
                None => none_func.ensures((), out) && final(self)@ == None::<T>,
            },
            final(self)@ is Some <==> old(self)@ is Some,
    {
        match self.slot.as_mut() {
            Some(value) => func(value),
            None => none_func(),
        }
    }
}

} // verus!
