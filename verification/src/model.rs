//! The mathematical model of the clipboard: what a store holds, what a read
//! observes, and what each write does to the state. The executable store in
//! [`crate::store`] is specified entirely in terms of these values, and the
//! laws in [`crate::laws`] are proved over them.

use vstd::prelude::*;

verus! {

/// Idle time, in seconds, after which a read treats the clipboard as empty.
pub const TTL_SECONDS: u64 = 3600;

/// The value of a stored file: its name and its full contents.
#[verifier::ext_equal]
pub ghost struct FileModel {
    pub name: Seq<char>,
    pub bytes: Seq<u8>,
}

/// The value of the whole clipboard slot: the last text explicitly set, the
/// last file uploaded (if any), and the time of the most recent write to
/// either one.
#[verifier::ext_equal]
pub ghost struct StoreModel {
    pub text: Seq<char>,
    pub file: Option<FileModel>,
    pub last_modified: int,
}

/// What one read observes: the text and the file, after the expiry check.
#[verifier::ext_equal]
pub ghost struct SnapshotModel {
    pub text: Seq<char>,
    pub file: Option<FileModel>,
}

impl SnapshotModel {
    /// The snapshot of an empty or expired clipboard.
    pub open spec fn empty() -> SnapshotModel {
        SnapshotModel { text: Seq::empty(), file: None }
    }
}

impl StoreModel {
    /// The state of a fresh store created at time `now`: empty text, no file.
    pub open spec fn initial(now: int) -> StoreModel {
        StoreModel { text: Seq::empty(), file: None, last_modified: now }
    }

    /// Expiry is a property of a read at time `now`, never of the stored
    /// state itself: more than `TTL_SECONDS` must have passed since the last
    /// write to either the text or the file.
    pub open spec fn expired(self, now: int) -> bool {
        now - self.last_modified > TTL_SECONDS
    }

    /// The snapshot a read at time `now` observes: the stored values while
    /// fresh, empty text and no file once expired. Both resources expire
    /// together, governed by the one shared clock.
    pub open spec fn read_view(self, now: int) -> SnapshotModel {
        if self.expired(now) {
            SnapshotModel::empty()
        } else {
            SnapshotModel { text: self.text, file: self.file }
        }
    }

    /// The state after replacing the text at time `now`: the file is kept,
    /// and the shared clock is reset for both resources.
    pub open spec fn with_text(self, text: Seq<char>, now: int) -> StoreModel {
        StoreModel { text: text, file: self.file, last_modified: now }
    }

    /// The state after replacing the file at time `now`: the previous file,
    /// if any, is discarded whole; the text is kept; the shared clock is
    /// reset for both resources.
    pub open spec fn with_file(self, name: Seq<char>, bytes: Seq<u8>, now: int) -> StoreModel {
        StoreModel {
            text: self.text,
            file: Some(FileModel { name: name, bytes: bytes }),
            last_modified: now,
        }
    }
}

/// One completed write, as the store's lock linearizes them.
pub ghost enum WriteOp {
    SetText { text: Seq<char>, now: int },
    SetFile { name: Seq<char>, bytes: Seq<u8>, now: int },
}

impl WriteOp {
    /// The time at which this write took effect.
    pub open spec fn time(self) -> int {
        match self {
            WriteOp::SetText { text: _, now } => now,
            WriteOp::SetFile { name: _, bytes: _, now } => now,
        }
    }

    /// The state after this write is applied to `s`.
    pub open spec fn apply(self, s: StoreModel) -> StoreModel {
        match self {
            WriteOp::SetText { text, now } => s.with_text(text, now),
            WriteOp::SetFile { name, bytes, now } => s.with_file(name, bytes, now),
        }
    }
}

/// The state after the writes in `ops` are applied to `s`, in order.
pub open spec fn apply_all(s: StoreModel, ops: Seq<WriteOp>) -> StoreModel
    decreases ops.len(),
{
    if ops.len() == 0 {
        s
    } else {
        ops.last().apply(apply_all(s, ops.drop_last()))
    }
}

/// The text the store holds after the writes in `ops`, starting from `t0`:
/// the payload of the last text write, or `t0` if there is none.
pub open spec fn last_text(t0: Seq<char>, ops: Seq<WriteOp>) -> Seq<char>
    decreases ops.len(),
{
    if ops.len() == 0 {
        t0
    } else {
        match ops.last() {
            WriteOp::SetText { text, now: _ } => text,
            WriteOp::SetFile { .. } => last_text(t0, ops.drop_last()),
        }
    }
}

/// The file the store holds after the writes in `ops`, starting from `f0`:
/// the payload of the last file write, or `f0` if there is none.
pub open spec fn last_file(f0: Option<FileModel>, ops: Seq<WriteOp>) -> Option<FileModel>
    decreases ops.len(),
{
    if ops.len() == 0 {
        f0
    } else {
        match ops.last() {
            WriteOp::SetFile { name, bytes, now: _ } => Some(FileModel { name: name, bytes: bytes }),
            WriteOp::SetText { .. } => last_file(f0, ops.drop_last()),
        }
    }
}

} // verus!
