//! The raw-handle contract.
//!
//! Every wrapper type owns one reference to a native, reference-counted
//! object and exposes the same three conversions: read the address without
//! giving up ownership, surrender the handle for the bare address, and
//! rebuild a handle from an address the caller already owns a reference to.
//! The contracts here pin down what each conversion does to the address and
//! — through [`RefCount`] — to the native object's reference count.

use vstd::prelude::*;

use crate::error;
use crate::error::Error;
use crate::error::ErrorKind;
use crate::udev::Udev;

verus! {

/// Access to the address of the native object a handle owns.
pub trait AsRaw: Sized {
    /// The address of the native object, as the contracts see it.
    spec fn raw_addr(&self) -> usize;

    /// The address of the underlying native object.
    ///
    /// The native reference count is not increased; the handle keeps its
    /// ownership.
    fn as_raw(&self) -> (r: usize)
        ensures
            r == self.raw_addr(),
    ;

    /// Gives the handle up for the bare address of the native object.
    ///
    /// Ownership of one native reference moves to the caller, who must
    /// release it through the matching native release call. Since the
    /// handle's own teardown still releases the reference it held, the
    /// implementation takes one extra native reference before surrendering
    /// the address.
    fn into_raw(self) -> (r: usize)
        ensures
            r == self.raw_addr(),
    ;
}

/// Building a handle from a bare native address.
pub trait FromRaw: AsRaw {
    /// Builds a handle from the address of a native object the caller
    /// already owns one reference to; the count is not increased.
    ///
    /// A null address is forbidden by contract: every handle points at a
    /// native object.
    fn from_raw(addr: usize) -> (r: Self)
        requires
            addr != 0,
        ensures
            r.raw_addr() == addr,
    ;
}

/// Access to the native address of a handle that also keeps its owning
/// context alive.
pub trait AsRawWithContext: Sized {
    /// The address of the native object, as the contracts see it.
    spec fn raw_addr(&self) -> usize;

    /// The address of the owning context, as the contracts see it.
    spec fn context_addr(&self) -> usize;

    /// The address of the underlying native object.
    ///
    /// The native reference count is not increased.
    fn as_raw(&self) -> (r: usize)
        ensures
            r == self.raw_addr(),
    ;

    /// The context this handle was created from and keeps alive.
    fn udev(&self) -> (r: &Udev)
        ensures
            r.addr == self.context_addr(),
    ;

    /// Gives the handle up for the addresses of its context and its own
    /// native object, in that order.
    ///
    /// The caller becomes responsible for releasing both, the context last.
    /// As in [`AsRaw::into_raw`], the implementation takes one extra native
    /// reference to each object before surrendering the addresses.
    fn into_raw_with_context(self) -> (r: (usize, usize))
        ensures
            r.0 == self.context_addr(),
            r.1 == self.raw_addr(),
    ;
}

/// Building a context-owning handle from bare native addresses.
pub trait FromRawWithContext: AsRawWithContext {
    /// Builds a handle from the address of a native object and of the
    /// context it was created under, taking over one reference to each.
    ///
    /// Null addresses are forbidden by contract, and the context address
    /// must be the one the object was created under.
    fn from_raw_with_context(udev_addr: usize, addr: usize) -> (r: Self)
        requires
            udev_addr != 0,
            addr != 0,
        ensures
            r.raw_addr() == addr,
            r.context_addr() == udev_addr,
    ;
}

/// The null test every native constructor's result goes through: a null
/// handle means the native layer could not allocate the object.
pub fn check_alloc(addr: usize) -> (r: Result<usize, Error>)
    ensures
        match r {
            Ok(a) => a == addr && addr != 0,
            Err(e) => addr == 0 && e.kind == ErrorKind::NoMem,
        },
{
    if addr == 0 {
        Err(error::new(ErrorKind::NoMem))
    } else {
        Ok(addr)
    }
}

/// The reference count of one native object, as the native library keeps
/// it. The handles of this crate never read the count; this type states
/// what the discipline they follow does to it.
pub struct RefCount {
    /// How many references are outstanding.
    pub count: u64,
}

/// The count after taking one more reference.
pub open spec fn acquired(c: RefCount) -> RefCount {
    RefCount { count: (c.count + 1) as u64 }
}

/// The count after releasing one reference.
pub open spec fn released(c: RefCount) -> RefCount {
    RefCount { count: (c.count - 1) as u64 }
}

/// Whether releasing one reference from this count frees the object.
pub open spec fn frees(c: RefCount) -> bool {
    c.count == 1
}

impl RefCount {
    /// A live object: at least one reference is outstanding.
    pub open spec fn live(&self) -> bool {
        self.count >= 1
    }

    /// What the native acquire call does: one more reference is
    /// outstanding. Cloning a handle, and converting one into a raw
    /// address, each do this once.
    pub fn acquire(&mut self)
        requires
            old(self).live(),
            old(self).count < u64::MAX,
        ensures
            *final(self) == acquired(*old(self)),
            final(self).live(),
    {
        self.count = self.count + 1;
    }

    /// What the native release call does: one reference fewer is
    /// outstanding, and the object is freed exactly when none is left.
    /// Dropping a handle does this once.
    pub fn release(&mut self) -> (freed: bool)
        requires
            old(self).live(),
        ensures
            *final(self) == released(*old(self)),
            freed == frees(*old(self)),
            freed == (final(self).count == 0),
    {
        self.count = self.count - 1;
        self.count == 0
    }
}

/// Law: cloning a handle and dropping the clone is balanced. The clone takes
/// one reference and the drop releases it: the count returns to what it was,
/// the drop never frees the object, and the object stays live, so the
/// original handle is still valid.
pub proof fn lemma_clone_drop_balanced(c: RefCount)
    requires
        c.live(),
        c.count < u64::MAX,
    ensures
        released(acquired(c)) == c,
        !frees(acquired(c)),
        released(acquired(c)).live(),
{
}

/// Law: converting a handle into a raw address and building a handle back
/// from it is balanced. The conversion takes one extra reference and the
/// consumed handle's own teardown still releases one, so the count is
/// unchanged and that release never frees; rebuilding takes no reference;
/// and dropping the rebuilt handle does to the count exactly what dropping
/// the original would have done — one release, never two, so the round trip
/// cannot double-free.
pub proof fn lemma_raw_round_trip_balanced(c: RefCount)
    requires
        c.live(),
        c.count < u64::MAX,
    ensures
        released(acquired(c)) == c,
        !frees(acquired(c)),
        released(released(acquired(c))) == released(c),
        frees(released(acquired(c))) == frees(c),
{
}

} // verus!
