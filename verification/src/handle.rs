//! The opaque handle used by the type-erased adapter.
//!
//! Some callers use curve types the accelerator does not know even
//! generically.  For those, each buffer is passed as a pointer-sized handle
//! with no type information; the accelerator walks `npoints` contiguous
//! elements of the declared size starting at the address the handle stands
//! for.  A handle carries no ownership: it stands for a borrow that is valid
//! exactly until the call it was made for returns, and is never retained.
//! This layer only threads handles through unchanged; it never dereferences
//! one.

use vstd::prelude::*;

verus! {

/// A pointer-sized stand-in for a borrowed, caller-typed object.  The
/// address is opaque to this layer: it is recorded when the handle is made
/// and handed to the accelerator untouched.
#[derive(Clone, Copy, Debug, PartialEq, Eq, Structural)]
pub struct FFITraitObject {
    ptr: usize,
}

impl FFITraitObject {
    /// The address this handle stands for.
    pub closed spec fn addr_spec(&self) -> usize {
        self.ptr
    }

    /// Wraps an address.  The caller is responsible for the address staying
    /// valid until the call the handle is made for returns.
    pub fn new(addr: usize) -> (r: FFITraitObject)
        ensures
            r.addr_spec() == addr,
    {
        FFITraitObject { ptr: addr }
    }

    /// The address this handle stands for, for the shell that makes the
    /// foreign call.
    pub fn addr(&self) -> (a: usize)
        ensures
            a == self.addr_spec(),
    {
        self.ptr
    }
}

} // verus!
