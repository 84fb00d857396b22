//! The executable clipboard store. Every operation takes the current time as
//! a plain count of seconds, supplied by the caller, and is specified against
//! the model in [`crate::model`]. The surrounding server keeps one store
//! behind one lock over the whole composite state, so each call here is one
//! atomic, linearized step: a reader can never observe a half-applied write.

use crate::model::{FileModel, SnapshotModel, StoreModel, TTL_SECONDS};
use vstd::prelude::*;

verus! {

/// An uploaded file: its name and its full contents.
pub struct StoredFile {
    pub name: String,
    pub bytes: Vec<u8>,
}

impl View for StoredFile {
    type V = FileModel;

    open spec fn view(&self) -> FileModel {
        FileModel { name: self.name@, bytes: self.bytes@ }
    }
}

impl DeepView for StoredFile {
    type V = FileModel;

    open spec fn deep_view(&self) -> FileModel {
        self@
    }
}

impl StoredFile {
    /// An independent copy holding the same name and the same bytes.
    pub fn duplicate(&self) -> (r: StoredFile)
        ensures
            r@ == self@,
    {
        let bytes = copy_bytes(&self.bytes);
        StoredFile { name: self.name.clone(), bytes: bytes }
    }
}

/// A consistent read of the clipboard: the text and the file as one unit.
pub struct Snapshot {
    pub text: String,
    pub file: Option<StoredFile>,
}

impl View for Snapshot {
    type V = SnapshotModel;

    open spec fn view(&self) -> SnapshotModel {
        SnapshotModel { text: self.text@, file: self.file.deep_view() }
    }
}

/// The single shared clipboard slot: the current text, the current uploaded
/// file, and the time of the most recent write to either. The fields are
/// private: the state changes only through whole operations, so the model
/// value advances in single steps.
pub struct SharedStore {
    text: String,
    file: Option<StoredFile>,
    last_modified: u64,
}

impl View for SharedStore {
    type V = StoreModel;

    closed spec fn view(&self) -> StoreModel {
        StoreModel {
            text: self.text@,
            file: self.file.deep_view(),
            last_modified: self.last_modified as int,
        }
    }
}

impl SharedStore {
    /// A fresh store created at time `now`: empty text, no file.
    pub fn new(now: u64) -> (s: SharedStore)
        ensures
            s@ == StoreModel::initial(now as int),
    {
        SharedStore { text: String::new(), file: None, last_modified: now }
    }

    /// Replaces the text and resets the shared clock. The file is untouched,
    /// but its expiry is refreshed too, since both resources share the one
    /// clock.
    pub fn set_text(&mut self, text: String, now: u64)
        ensures
            final(self)@ == old(self)@.with_text(text@, now as int),
    {
        self.text = text;
        self.last_modified = now;
    }

    /// Replaces the uploaded file whole — the previous name and bytes, if
    /// any, are discarded entirely — and resets the shared clock. The text is
    /// untouched.
    pub fn set_file(&mut self, name: String, bytes: Vec<u8>, now: u64)
        ensures
            final(self)@ == old(self)@.with_file(name@, bytes@, now as int),
    {
        self.file = Some(StoredFile { name: name, bytes: bytes });
        self.last_modified = now;
    }

    /// Whether a read at time `now` finds the clipboard expired.
    fn expired_at(&self, now: u64) -> (r: bool)
        ensures
            r == self@.expired(now as int),
    {
        now > self.last_modified && now - self.last_modified > TTL_SECONDS
    }

    /// One atomic, expiry-aware read of the whole clipboard. If more than
    /// [`TTL_SECONDS`] have passed since the last write, the snapshot shows
    /// empty text and no file; the stored fields are not mutated either way,
    /// so a later write still overwrites the expired values and resets the
    /// clock.
    pub fn get_snapshot(&self, now: u64) -> (snap: Snapshot)
        ensures
            snap@ == self@.read_view(now as int),
    {
        if self.expired_at(now) {
            Snapshot { text: String::new(), file: None }
        } else {
            let file = match &self.file {
                Some(f) => Some(f.duplicate()),
                None => None,
            };
            Snapshot { text: self.text.clone(), file: file }
        }
    }

    /// The uploaded file for a download request, or `None` when no file is
    /// stored or the clipboard is expired. The download path honors the same
    /// TTL as the page view, so the two read paths never disagree about
    /// whether the clipboard is empty.
    pub fn get_file_for_download(&self, now: u64) -> (r: Option<StoredFile>)
        ensures
            r.deep_view() == self@.read_view(now as int).file,
    {
        if self.expired_at(now) {
            None
        } else {
            match &self.file {
                Some(f) => Some(f.duplicate()),
                None => None,
            }
        }
    }
}

/// An independent copy of a byte vector with exactly the same contents.
fn copy_bytes(v: &Vec<u8>) -> (r: Vec<u8>)
    ensures
        r@ == v@,
{
    let r = v.clone();
    proof {
        assert(r@ =~= v@);
    }
    r
}

} // verus!
