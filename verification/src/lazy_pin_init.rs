use vstd::prelude::*;

verus! {

/// A once-only, in-place construction slot for an address-sensitive value:
/// it starts uninitialized, runs a supplied constructor no earlier than the
/// first access, and is never reset, so the value it holds never moves
/// between construction and destruction of the slot. Access is
/// single-threaded-cooperative; reading the value before initialization is a
/// precondition violation, not a runtime error.
pub struct LazyPinInit<T> {
    value: Option<T>,
}

impl<T> LazyPinInit<T> {
    /// Whether the slot has been initialized.
    pub closed spec fn is_init(&self) -> bool {
        self.value is Some
    }

    /// The value the slot holds, once initialized.
    pub closed spec fn value(&self) -> T
        recommends
            self.is_init(),
    {
        self.value->Some_0
    }

    /// A fresh, uninitialized slot.
    pub fn uninit() -> (slot: LazyPinInit<T>)
        ensures
            !slot.is_init(),
    {
        LazyPinInit { value: None }
    }

    /// Runs the constructor and stores its result if the slot is still
    /// uninitialized; otherwise leaves the stored value exactly as it is.
    /// Either way, hands out the stored value. The constructor therefore runs
    /// at most once over the slot's whole lifetime.
    pub fn get_or_init<F: FnOnce() -> T>(&mut self, constructor: F) -> (value: &mut T)
        requires
            !old(self).is_init() ==> call_requires(constructor, ()),
        ensures
            !old(self).is_init() ==> call_ensures(constructor, (), *value),
            old(self).is_init() ==> *value == old(self).value(),
            final(self).is_init(),
            final(self).value() == *final(value),
    {
        if self.value.is_none() {
            self.value = Some(constructor());
        }
        match &mut self.value {
            Some(v) => v,
            None => vstd::pervasive::unreached(),
        }
    }

    /// Whether the slot has been initialized, for inspection.
    pub fn initialized(&self) -> (r: bool)
        ensures
            r == self.is_init(),
    {
        self.value.is_some()
    }

    /// The stored value; calling this before initialization is a precondition
    /// violation.
    pub fn borrow(&self) -> (value: &T)
        requires
            self.is_init(),
        ensures
            *value == self.value(),
    {
        match &self.value {
            Some(v) => v,
            None => vstd::pervasive::unreached(),
        }
    }

    /// The stored value, mutably; calling this before initialization is a
    /// precondition violation.
    pub fn borrow_mut(&mut self) -> (value: &mut T)
        requires
            old(self).is_init(),
        ensures
            *value == old(self).value(),
            final(self).is_init(),
            final(self).value() == *final(value),
    {
        match &mut self.value {
            Some(v) => v,
            None => vstd::pervasive::unreached(),
        }
    }

    /// Consumes the slot, handing back the value if one was ever constructed.
    pub fn into_value(self) -> (value: Option<T>)
        ensures
            value is Some <==> self.is_init(),
            self.is_init() ==> value->Some_0 == self.value(),
    {
        self.value
    }
}

} // verus!
