//! The top-level library context.
//!
//! Every other handle is created under a context and holds its own counted
//! reference to it, so the context cannot be freed while any of them is
//! alive. The context exposes no operations of its own: it is a capability
//! token.

use vstd::prelude::*;

use crate::raw::AsRaw;
use crate::raw::FromRaw;

verus! {

/// A handle to the native top-level context object.
///
/// The native object is reference-counted: cloning a `Udev` takes one more
/// native reference to the same object, dropping one releases it, and the
/// object is freed only when the last reference goes.
pub struct Udev {
    /// The address of the native context object; never null.
    pub addr: usize,
}

impl Udev {
    /// A well-formed handle points at a native object.
    pub open spec fn wf(&self) -> bool {
        self.addr != 0
    }
}

impl Clone for Udev {
    /// The clone is a handle to the same native object; one more native
    /// reference backs it.
    fn clone(&self) -> (r: Self)
        ensures
            r == *self,
    {
        Udev { addr: self.addr }
    }
}

impl AsRaw for Udev {
    open spec fn raw_addr(&self) -> usize {
        self.addr
    }

    fn as_raw(&self) -> usize {
        self.addr
    }

    fn into_raw(self) -> usize {
        self.addr
    }
}

impl FromRaw for Udev {
    fn from_raw(addr: usize) -> Self {
        Udev { addr }
    }
}

} // verus!
