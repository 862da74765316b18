use vstd::prelude::*;

verus! {

/// An operating-system window reference. It is never owned and only compared by value;
/// the raw value zero stands for "no window".
#[derive(Clone, Copy, Debug, PartialEq, Eq, Structural)]
pub struct WindowHandle {
    pub raw: isize,
}

impl WindowHandle {
    /// The handle that refers to no window.
    pub fn none() -> (r: WindowHandle)
        ensures
            r.raw == 0,
    {
        WindowHandle { raw: 0 }
    }

    pub fn from_raw(raw: isize) -> (r: WindowHandle)
        ensures
            r.raw == raw,
    {
        WindowHandle { raw }
    }

    pub open spec fn is_none_spec(&self) -> bool {
        self.raw == 0
    }

    #[verifier::when_used_as_spec(is_none_spec)]
    pub fn is_none(&self) -> (r: bool)
        ensures
            r == self.is_none_spec(),
    {
        self.raw == 0
    }
}

} // verus!
