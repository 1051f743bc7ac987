//! The context handle of the earlier, context-centred API surface.
//!
//! [`Context`](crate::Context) names the same native top-level object as
//! [`Udev`](crate::Udev): the binding grew a second generation of its API
//! around `Udev`, and this type carries the older one. Devices of that
//! surface are constructed through a `Context`, which then outlives them.

use vstd::prelude::*;

use crate::raw::AsRaw;
use crate::raw::FromRaw;

verus! {

/// A handle to the native top-level context object, under the name the
/// older API surface gives it.
///
/// The native object is reference-counted: cloning takes one more native
/// reference, dropping releases one, and the object is freed only when the
/// last reference goes.
pub struct Context {
    /// The address of the native context object; never null.
    pub addr: usize,
}

impl Context {
    /// A well-formed handle points at a native object.
    pub open spec fn wf(&self) -> bool {
        self.addr != 0
    }
}

impl Clone for Context {
    /// The clone is a handle to the same native object; one more native
    /// reference backs it.
    fn clone(&self) -> (r: Self)
        ensures
            r == *self,
    {
        Context { addr: self.addr }
    }
}

impl AsRaw for Context {
    open spec fn raw_addr(&self) -> usize {
        self.addr
    }

    fn as_raw(&self) -> usize {
        self.addr
    }

    fn into_raw(self) -> usize {
        self.addr
    }
}

impl FromRaw for Context {
    fn from_raw(addr: usize) -> Self {
        Context { addr }
    }
}

} // verus!
