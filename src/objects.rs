use core::marker::PhantomData;

use vstd::prelude::*;

verus! {

/// The raw value of a null handle.
pub const NULL: u64 = 0;

/// An opaque handle to a runtime object: the address-sized token that the
/// foreign interface hands out. The token `0` is the null handle.
///
/// The lifetime `'a` is that of whatever the handle was had from: the
/// context that created a local reference, or the global reference it was
/// borrowed from. The handle cannot outlive it.
#[derive(Clone, Copy, Debug, PartialEq, Eq)]
pub struct JObject<'a> {
    raw: u64,
    lifetime: PhantomData<&'a ()>,
}

impl<'a> View for JObject<'a> {
    type V = u64;

    closed spec fn view(&self) -> u64 {
        self.raw
    }
}

impl<'a> JObject<'a> {
    /// The null handle.
    pub fn null() -> (r: JObject<'a>)
        ensures
            r@ == NULL,
    {
        JObject { raw: NULL, lifetime: PhantomData }
    }

    /// Wraps a raw token.
    pub fn from_raw(raw: u64) -> (r: JObject<'a>)
        ensures
            r@ == raw,
    {
        JObject { raw, lifetime: PhantomData }
    }

    /// The raw token of this handle.
    pub fn into_raw(self) -> (r: u64)
        ensures
            r == self@,
    {
        self.raw
    }

    /// Whether this is the null handle.
    pub fn is_null(&self) -> (r: bool)
        ensures
            r == (self@ == NULL),
    {
        self.raw == NULL
    }
}

} // verus!
