//! The hardware database.
//!
//! The database maps modalias strings to property records. A query hands
//! back its matching records as a list of name/value entries, scoped to the
//! query string; walking them is the same list-entry protocol every other
//! list of the binding uses. The matching itself — pattern lookup inside
//! the database — is the native library's own work.

use vstd::prelude::*;

use crate::list::found_value;
use crate::list::EntryList;
use crate::raw::AsRaw;
use crate::raw::FromRaw;

verus! {

/// A handle to the native hardware-database object.
///
/// Like the context, the native object is reference-counted: cloning takes
/// one more native reference, dropping releases one.
pub struct Hwdb {
    addr: usize,
}

impl Hwdb {
    /// A well-formed handle points at a native object.
    pub open spec fn wf(&self) -> bool {
        self.raw_addr() != 0
    }

    /// The first value the query's records carry under the given name, a
    /// missing value read as the empty string; nothing when no record has
    /// the name. The caller runs the native query and hands in its record
    /// list.
    pub fn query_one(&self, records: &EntryList, name: &str) -> (r: Option<String>)
        requires
            records.wf(),
        ensures
            match r {
                Some(v) => found_value(records.remaining(), name@) == Some(v@),
                None => found_value(records.remaining(), name@) is None,
            },
    {
        records.find_value(name)
    }
}

impl Clone for Hwdb {
    /// The clone is a handle to the same native object; one more native
    /// reference backs it.
    fn clone(&self) -> (r: Self)
        ensures
            r == *self,
    {
        Hwdb { addr: self.addr }
    }
}

impl AsRaw for Hwdb {
    closed spec fn raw_addr(&self) -> usize {
        self.addr
    }

    fn as_raw(&self) -> usize {
        self.addr
    }

    fn into_raw(self) -> usize {
        self.addr
    }
}

impl FromRaw for Hwdb {
    fn from_raw(addr: usize) -> Hwdb {
        Hwdb { addr }
    }
}

} // verus!
