//! A cell that is filled once, by the first caller that needs its value.

use vstd::prelude::*;

verus! {

/// A cell that is filled once.
pub struct OnceCell<T> {
    value: Option<T>,
}

impl<T> OnceCell<T> {
    /// The value, once filled.
    pub closed spec fn value(&self) -> Option<T> {
        self.value
    }

    /// An empty cell.
    pub fn new() -> (cell: Self)
        ensures
            cell.value() is None,
    {
        OnceCell { value: None }
    }

    /// A cell filled with `value`.
    pub fn from_value(value: T) -> (cell: Self)
        ensures
            cell.value() == Some(value),
    {
        OnceCell { value: Some(value) }
    }

    /// The value; an empty cell is first filled with what `f` makes. `f` is
    /// called only for an empty cell.
    pub fn get_or_init<F: FnOnce() -> T>(&mut self, f: F) -> (value: &T)
        requires
            old(self).value() is None ==> f.requires(()),
        ensures
            final(self).value() == Some(*value),
            old(self).value() is Some ==> *value == old(self).value()->0,
            old(self).value() is None ==> f.ensures((), *value),
    {
        if self.value.is_none() {
            let v = f();
            self.value = Some(v);
        }
        self.value.as_ref().unwrap()
    }
}

} // verus!
