//! List-entry iteration.
//!
//! The native library hands back name/value lists — device properties,
//! attribute names, hardware-database records — as linked lists walked one
//! node at a time. The binding copies each node's strings at the boundary
//! and walks the copy with a forward-only, single-pass cursor: one entry per
//! step, exhaustion exactly at the end, restartable only by asking the
//! producing call again.

use vstd::prelude::*;

use crate::util;

verus! {

/// One name/value pair of a native list, its strings copied into owned
/// values at the boundary so that the entry stays valid on its own.
pub struct Entry {
    /// The entry name.
    pub name: String,
    /// The entry value; a list that carries names only has none.
    pub value: Option<String>,
}

/// What an entry holds, for contracts: its name and value as character
/// sequences.
pub struct EntryModel {
    /// The entry name.
    pub name: Seq<char>,
    /// The entry value, where the list carries one.
    pub value: Option<Seq<char>>,
}

impl View for Entry {
    type V = EntryModel;

    open spec fn view(&self) -> EntryModel {
        EntryModel {
            name: self.name@,
            value: match self.value {
                Some(v) => Some(v@),
                None => None,
            },
        }
    }
}

impl Clone for Entry {
    /// The clone holds equal strings.
    fn clone(&self) -> (r: Self)
        ensures
            r == *self,
    {
        Entry {
            name: self.name.clone(),
            value: match &self.value {
                Some(v) => Some(v.clone()),
                None => None,
            },
        }
    }
}

impl Entry {
    /// Returns the entry name.
    pub fn name(&self) -> (r: &str)
        ensures
            r@ == self@.name,
    {
        self.name.as_str()
    }

    /// Returns the entry value, or the empty string where the list carries
    /// none.
    pub fn value(&self) -> (r: &str)
        ensures
            match self@.value {
                Some(v) => r@ == v,
                None => r@.len() == 0,
            },
    {
        match &self.value {
            Some(v) => v.as_str(),
            None => {
                proof {
                    reveal_strlit("");
                }
                ""
            },
        }
    }
}

/// Copies a vector of entries, entry by entry.
pub(crate) fn clone_entries(v: &Vec<Entry>) -> (r: Vec<Entry>)
    ensures
        r@ == v@,
{
    let n = v.len();
    let mut r: Vec<Entry> = Vec::new();
    let mut i: usize = 0;
    while i < n
        invariant
            i <= n,
            n == v@.len(),
            r@ == v@.subrange(0, i as int),
        decreases n - i,
    {
        r.push(v[i].clone());
        i += 1;
    }
    proof {
        assert(r@ =~= v@);
    }
    r
}

/// The value the first entry of the given name carries, with a missing
/// value read as the empty string; nothing when no entry has the name.
pub open spec fn found_value(s: Seq<EntryModel>, name: Seq<char>) -> Option<Seq<char>>
    decreases s.len(),
{
    if s.len() == 0 {
        None
    } else if s[0].name == name {
        Some(
            match s[0].value {
                Some(v) => v,
                None => Seq::empty(),
            },
        )
    } else {
        found_value(s.drop_first(), name)
    }
}

/// The value of the first entry of the given name in the vector, with a
/// missing value read as the empty string; nothing when no entry has the
/// name.
pub(crate) fn find_value_in(entries: &Vec<Entry>, name: &str) -> (r: Option<String>)
    ensures
        match r {
            Some(v) => found_value(entries@.map_values(|e: Entry| e@), name@) == Some(v@),
            None => found_value(entries@.map_values(|e: Entry| e@), name@) is None,
        },
{
    let ghost all = entries@.map_values(|e: Entry| e@);
    proof {
        assert(all.skip(0) =~= all);
    }
    let n = entries.len();
    let mut i: usize = 0;
    while i < n
        invariant
            i <= n,
            n == entries@.len(),
            all == entries@.map_values(|e: Entry| e@),
            found_value(all, name@) == found_value(all.skip(i as int), name@),
        decreases n - i,
    {
        proof {
            assert(all.skip(i as int)[0] == all[i as int]);
            assert(all.skip(i as int).drop_first() =~= all.skip(i as int + 1));
        }
        let e = &entries[i];
        proof {
            assert(all[i as int] == e@);
        }
        if util::str_eq(e.name.as_str(), name) {
            let v: String = match &e.value {
                Some(v) => v.clone(),
                None => String::new(),
            };
            return Some(v);
        }
        i += 1;
    }
    proof {
        assert(all.skip(n as int) =~= Seq::<EntryModel>::empty());
    }
    None
}

/// The entries with the named one set to the value: the first entry of the
/// name carries the value; where none has the name, an entry is added at
/// the end.
pub open spec fn with_value(s: Seq<EntryModel>, name: Seq<char>, value: Seq<char>) -> Seq<
    EntryModel,
>
    decreases s.len(),
{
    if s.len() == 0 {
        seq![EntryModel { name: name, value: Some(value) }]
    } else if s[0].name == name {
        seq![EntryModel { name: name, value: Some(value) }] + s.drop_first()
    } else {
        seq![s[0]] + with_value(s.drop_first(), name, value)
    }
}

/// Setting a value replaces the first entry of the name in place.
proof fn lemma_with_value_at_first_match(
    s: Seq<EntryModel>,
    name: Seq<char>,
    value: Seq<char>,
    idx: int,
)
    requires
        0 <= idx < s.len(),
        s[idx].name == name,
        forall|j: int| 0 <= j < idx ==> s[j].name != name,
    ensures
        with_value(s, name, value) == s.update(
            idx,
            EntryModel { name: name, value: Some(value) },
        ),
    decreases s.len(),
{
    let new_entry = EntryModel { name: name, value: Some(value) };
    if idx == 0 {
        assert(seq![new_entry] + s.drop_first() =~= s.update(0, new_entry));
    } else {
        assert(s.drop_first()[idx - 1] == s[idx]);
        assert(forall|j: int| 0 <= j < idx - 1 ==> s.drop_first()[j] == s[j + 1]);
        lemma_with_value_at_first_match(s.drop_first(), name, value, idx - 1);
        assert(seq![s[0]] + s.drop_first().update(idx - 1, new_entry) =~= s.update(idx, new_entry));
    }
}

/// Setting a value that no entry carries appends a new entry.
proof fn lemma_with_value_no_match(s: Seq<EntryModel>, name: Seq<char>, value: Seq<char>)
    requires
        forall|j: int| 0 <= j < s.len() ==> s[j].name != name,
    ensures
        with_value(s, name, value) == s.push(EntryModel { name: name, value: Some(value) }),
    decreases s.len(),
{
    let new_entry = EntryModel { name: name, value: Some(value) };
    if s.len() == 0 {
        assert(seq![new_entry] =~= s.push(new_entry));
    } else {
        assert(forall|j: int| 0 <= j < s.drop_first().len() ==> s.drop_first()[j] == s[j + 1]);
        lemma_with_value_no_match(s.drop_first(), name, value);
        assert(seq![s[0]] + s.drop_first().push(new_entry) =~= s.push(new_entry));
    }
}

/// Sets the value of the named entry: the first entry of the name takes the
/// value, and where none has the name, an entry is added at the end.
pub(crate) fn set_entry_value(entries: &mut Vec<Entry>, name: &str, value: &str)
    ensures
        final(entries)@.map_values(|e: Entry| e@) == with_value(
            old(entries)@.map_values(|e: Entry| e@),
            name@,
            value@,
        ),
{
    let ghost all = entries@.map_values(|e: Entry| e@);
    let n = entries.len();
    let mut i: usize = 0;
    while i < n
        invariant
            i <= n,
            n == entries@.len(),
            entries@ == old(entries)@,
            all == entries@.map_values(|e: Entry| e@),
            forall|j: int| 0 <= j < i ==> all[j].name != name@,
        decreases n - i,
    {
        proof {
            assert(all[i as int] == entries@[i as int]@);
        }
        if util::str_eq(entries[i].name.as_str(), name) {
            let new_entry = Entry { name: util::copy_str(name), value: Some(util::copy_str(value)) };
            let ghost new_model = new_entry@;
            let slot = &mut entries[i];
            *slot = new_entry;
            proof {
                lemma_with_value_at_first_match(all, name@, value@, i as int);
                assert(entries@.map_values(|e: Entry| e@) =~= all.update(i as int, new_model));
            }
            return;
        }
        i += 1;
    }
    let new_entry = Entry { name: util::copy_str(name), value: Some(util::copy_str(value)) };
    let ghost new_model = new_entry@;
    proof {
        lemma_with_value_no_match(all, name@, value@);
    }
    entries.push(new_entry);
    proof {
        assert(entries@.map_values(|e: Entry| e@) =~= all.push(new_model));
    }
}

/// The list cursor under the name the earlier API surface gives it.
pub type List = EntryList;

/// A forward-only cursor over the entries of one native list.
///
/// The sequence it produces is finite and is walked a single time: each
/// `next` yields one entry and the cursor exhausts exactly when the entries
/// end, as the native walk ends at the list's null terminator. Iterating
/// anew takes a new `EntryList` from the producing call.
pub struct EntryList {
    entries: Vec<Entry>,
    pos: usize,
}

impl EntryList {
    /// All entries of the list, in order, as the contracts see them.
    pub closed spec fn all_entries(&self) -> Seq<EntryModel> {
        self.entries@.map_values(|e: Entry| e@)
    }

    /// How many entries the cursor has already yielded.
    pub closed spec fn cursor(&self) -> int {
        self.pos as int
    }

    /// The cursor never passes the end of the entries.
    pub open spec fn wf(&self) -> bool {
        0 <= self.cursor() <= self.all_entries().len()
    }

    /// The entries not yet yielded.
    pub open spec fn remaining(&self) -> Seq<EntryModel> {
        self.all_entries().skip(self.cursor())
    }

    /// Makes a cursor over the given entries, standing before the first.
    pub fn new(entries: Vec<Entry>) -> (r: Self)
        ensures
            r.all_entries() == entries@.map_values(|e: Entry| e@),
            r.cursor() == 0,
            r.wf(),
    {
        EntryList { entries, pos: 0 }
    }

    /// Yields the entry under the cursor and moves past it; yields nothing
    /// — and stands still — once the entries are exhausted.
    pub fn next(&mut self) -> (r: Option<Entry>)
        requires
            old(self).wf(),
        ensures
            final(self).wf(),
            final(self).all_entries() == old(self).all_entries(),
            old(self).cursor() < old(self).all_entries().len() ==> {
                &&& r is Some
                &&& r->0@ == old(self).all_entries()[old(self).cursor()]
                &&& final(self).cursor() == old(self).cursor() + 1
            },
            old(self).cursor() >= old(self).all_entries().len() ==> {
                &&& r is None
                &&& final(self).cursor() == old(self).cursor()
            },
    {
        if self.pos < self.entries.len() {
            let e = self.entries[self.pos].clone();
            self.pos = self.pos + 1;
            Some(e)
        } else {
            None
        }
    }

    /// The value of the first not-yet-yielded entry of the given name, with
    /// a missing value read as the empty string; nothing when no such entry
    /// remains.
    pub fn find_value(&self, name: &str) -> (r: Option<String>)
        requires
            self.wf(),
        ensures
            match r {
                Some(v) => found_value(self.remaining(), name@) == Some(v@),
                None => found_value(self.remaining(), name@) is None,
            },
    {
        let n = self.entries.len();
        let mut i: usize = self.pos;
        while i < n
            invariant
                self.wf(),
                self.pos <= i <= n,
                n == self.all_entries().len(),
                found_value(self.remaining(), name@) == found_value(
                    self.all_entries().skip(i as int),
                    name@,
                ),
            decreases n - i,
        {
            proof {
                assert(self.all_entries().skip(i as int)[0] == self.all_entries()[i as int]);
                assert(self.all_entries().skip(i as int).drop_first() =~= self.all_entries().skip(
                    i as int + 1,
                ));
            }
            let e = &self.entries[i];
            proof {
                assert(self.all_entries()[i as int] == e@);
            }
            if util::str_eq(e.name.as_str(), name) {
                let v: String = match &e.value {
                    Some(v) => v.clone(),
                    None => String::new(),
                };
                return Some(v);
            }
            i += 1;
        }
        proof {
            assert(self.all_entries().skip(n as int) =~= Seq::<EntryModel>::empty());
        }
        None
    }
}

/// Law: the sequence an entry cursor produces is finite and exhausts
/// exactly at the end of the entries, where the native list's null
/// terminator stands: nothing remains precisely when the cursor has reached
/// the end, which is where `next` begins to yield nothing.
pub proof fn lemma_entry_list_exhausts(l: EntryList)
    requires
        l.wf(),
    ensures
        (l.remaining().len() == 0) <==> (l.cursor() == l.all_entries().len()),
{
}

/// Law: two cursors taken by two independent calls of a producing method
/// walk equal sequences and share no state. Each is a value of its own:
/// `next` takes only the cursor it is called on, so stepping one cannot
/// move the other, and cursors standing over equal entries at equal
/// positions have equal remainders.
pub proof fn lemma_entry_list_independent(a: EntryList, b: EntryList)
    requires
        a.wf(),
        b.wf(),
        a.all_entries() == b.all_entries(),
        a.cursor() == b.cursor(),
    ensures
        a.remaining() == b.remaining(),
{
}

} // verus!
