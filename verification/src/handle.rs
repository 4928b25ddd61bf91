use vstd::prelude::*;

verus! {

/// A kernel object handle, held as its raw value.
///
/// A value of zero is the null handle.
#[derive(Debug, Clone, Copy, PartialEq, Eq)]
pub struct Handle {
    inner: usize,
}

impl View for Handle {
    type V = usize;

    closed spec fn view(&self) -> usize {
        self.inner
    }
}

impl Handle {
    /// Wraps a raw handle value.
    pub fn new(handle: usize) -> (h: Handle)
        ensures
            h@ == handle,
    {
        Handle { inner: handle }
    }

    /// The raw handle value.
    pub fn get(&self) -> (raw: usize)
        ensures
            raw == self@,
    {
        self.inner
    }

    /// Whether this is the null handle.
    pub fn is_null(&self) -> (b: bool)
        ensures
            b == (self@ == 0),
    {
        self.inner == 0
    }
}

} // verus!
