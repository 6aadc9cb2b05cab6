//! Metadata, the annotation alphabet, and the owned name list.

use vstd::prelude::*;

verus! {

use crate::errors::Error;
use crate::marshal::{contains_nul, marshal, marshaled};

/// Owns the engine's metadata record: the class count and the handle of the
/// engine-side name-string array.  Read-only after load.
pub struct Metadata {
    classes: i32,
    names_handle: u64,
}

impl Metadata {
    /// The number of classes the loaded model distinguishes.
    pub closed spec fn classes(self) -> i32 {
        self.classes
    }

    /// The engine handle of the metadata's name-string array.
    pub closed spec fn names_id(self) -> u64 {
        self.names_handle
    }

    /// Loaded metadata never reports a negative class count.
    pub open spec fn wf(self) -> bool {
        self.classes() >= 0
    }

    /// The class count, for planning detection calls.
    pub fn class_count(&self) -> (n: i32)
        ensures
            n == self.classes(),
    {
        self.classes
    }

    /// The raw name-array handle, for the driver.
    pub fn names_raw(&self) -> (h: u64)
        ensures
            h == self.names_id(),
    {
        self.names_handle
    }
}

/// Describes one native metadata-load call.
pub struct LoadMetadataCall {
    /// Nul-terminated metadata file path.
    pub path: Vec<u8>,
}

/// Plans a metadata load; a path with an embedded zero byte fails with
/// `MarshalError` before any native call is planned.
pub fn load_metadata(metadata_file_path: &Vec<u8>) -> (r: Result<LoadMetadataCall, Error>)
    ensures
        r is Ok <==> !contains_nul(metadata_file_path@),
        r matches Ok(c) ==> c.path@ == marshaled(metadata_file_path@),
        r matches Err(e) ==> e == Error::MarshalError,
{
    let path = match marshal(metadata_file_path) {
        Ok(p) => p,
        Err(e) => {
            return Err(e);
        },
    };
    Ok(LoadMetadataCall { path })
}

/// Interprets the metadata record the engine returned: a negative class
/// count is malformed and becomes `LoadError`.
pub fn metadata_from_raw(classes: i32, names_handle: u64) -> (r: Result<Metadata, Error>)
    ensures
        r is Ok <==> classes >= 0,
        r matches Ok(m) ==> m.classes() == classes && m.names_id() == names_handle && m.wf(),
        r matches Err(e) ==> e == Error::LoadError,
{
    if classes < 0 {
        Err(Error::LoadError)
    } else {
        Ok(Metadata { classes, names_handle })
    }
}

/// Owns the engine's glyph-bitmap array used to label annotations.
/// Read-only after load; the engine either returns a valid handle or aborts,
/// so construction has no failure path.
pub struct Alphabet {
    handle: u64,
}

impl Alphabet {
    /// The engine handle this wrapper owns.
    pub closed spec fn id(self) -> u64 {
        self.handle
    }

    /// A constructed alphabet always carries a non-null handle.
    pub open spec fn wf(self) -> bool {
        self.id() != 0
    }

    /// The raw handle value, for the driver.
    pub fn raw(&self) -> (h: u64)
        ensures
            h == self.id(),
    {
        self.handle
    }
}

/// Wraps the glyph-array handle the engine returned.  The engine's contract
/// is to return a valid handle or abort the process, so the driver hands in
/// a non-null handle and construction cannot fail.
pub fn load_alphabet(handle: u64) -> (a: Alphabet)
    requires
        handle != 0,
    ensures
        a.id() == handle,
        a.wf(),
{
    Alphabet { handle }
}

/// Owns the backing storage of every marshaled label.
///
/// The engine reads labels through an array of pointers; that array must be
/// derived from storage that outlives every use.  `Names` is that storage:
/// it keeps each nul-terminated label for as long as the value lives, and
/// the driver rebuilds the pointer array from it at each call.
pub struct Names {
    entries: Vec<Vec<u8>>,
}

impl View for Names {
    type V = Seq<Seq<u8>>;

    /// The marshaled labels this list owns, in order.
    closed spec fn view(&self) -> Seq<Seq<u8>> {
        self.entries@.map(|i: int, e: Vec<u8>| e@)
    }
}

impl Names {
    /// Every entry is a well-formed nul-terminated string: non-empty, zero
    /// exactly at the end.
    pub open spec fn wf(self) -> bool {
        forall|i: int|
            0 <= i < self@.len() ==> {
                &&& #[trigger] self@[i].len() >= 1
                &&& self@[i].last() == 0
                &&& !contains_nul(self@[i].drop_last())
            }
    }

    /// How many labels the list owns.
    pub fn len(&self) -> (n: usize)
        ensures
            n == self@.len(),
    {
        self.entries.len()
    }

    /// Borrows the `i`th marshaled label; the storage stays owned by the
    /// list, so a pointer derived from it lives as long as the list does.
    pub fn entry(&self, i: usize) -> (e: &Vec<u8>)
        requires
            i < self@.len(),
        ensures
            e@ == self@[i as int],
    {
        &self.entries[i]
    }
}

/// Marshals a list of labels into a `Names` value that owns every backing
/// string.  Fails with `MarshalError` exactly when some label carries an
/// embedded zero byte; on success each owned entry is that label's bytes
/// plus the terminator, in the caller's order.
pub fn load_names(names_arr: &Vec<Vec<u8>>) -> (r: Result<Names, Error>)
    ensures
        r is Ok <==> (forall|i: int|
            0 <= i < names_arr@.len() ==> !contains_nul(#[trigger] names_arr@[i]@)),
        r matches Ok(n) ==> {
            &&& n@.len() == names_arr@.len()
            &&& forall|i: int|
                0 <= i < names_arr@.len() ==> #[trigger] n@[i] == marshaled(names_arr@[i]@)
            &&& n.wf()
        },
        r matches Err(e) ==> e == Error::MarshalError,
{
    let mut entries: Vec<Vec<u8>> = Vec::new();
    let mut i: usize = 0;
    while i < names_arr.len()
        invariant
            i <= names_arr.len(),
            entries@.len() == i,
            forall|k: int|
                0 <= k < i ==> #[trigger] entries@[k]@ == marshaled(names_arr@[k]@),
            forall|k: int| 0 <= k < i ==> !contains_nul(#[trigger] names_arr@[k]@),
        decreases names_arr.len() - i,
    {
        let entry = match marshal(&names_arr[i]) {
            Ok(e) => e,
            Err(e) => {
                return Err(e);
            },
        };
        entries.push(entry);
        i = i + 1;
    }
    let names = Names { entries };
    proof {
        assert forall|k: int| 0 <= k < names@.len() implies {
            &&& #[trigger] names@[k].len() >= 1
            &&& names@[k].last() == 0
            &&& !contains_nul(names@[k].drop_last())
        } by {
            assert(names@[k] == marshaled(names_arr@[k]@));
            assert(names@[k].drop_last() =~= names_arr@[k]@);
        }
    }
    Ok(names)
}

} // verus!
