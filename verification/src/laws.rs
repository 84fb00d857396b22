//! The laws of the clipboard, proved over the model in [`crate::model`].
//! Every executable operation's contract is stated with the same model
//! functions, so these laws carry over to any sequence of calls on a
//! [`crate::store::SharedStore`].

use crate::model::{
    apply_all, last_file, last_text, FileModel, SnapshotModel, StoreModel, TTL_SECONDS, WriteOp,
};
use vstd::prelude::*;

verus! {

/// Round trip: setting the text and immediately taking a snapshot yields
/// exactly that text, whatever the store held before.
pub proof fn lemma_set_text_round_trip(s: StoreModel, text: Seq<char>, now: int)
    ensures
        s.with_text(text, now).read_view(now).text == text,
{
}

/// A text write does not clear the file: setting a file, then the text, then
/// reading shows the new text together with the untouched file.
pub proof fn lemma_text_write_keeps_file(
    s: StoreModel,
    name: Seq<char>,
    bytes: Seq<u8>,
    t_file: int,
    text: Seq<char>,
    t_text: int,
)
    ensures
        ({
            let v = s.with_file(name, bytes, t_file).with_text(text, t_text).read_view(t_text);
            v.text == text && v.file == Some(FileModel { name: name, bytes: bytes })
        }),
{
}

/// Expiry: once more than `TTL_SECONDS` have passed since the last write, a
/// read reports empty text and no file — both resources together.
pub proof fn lemma_expiry(s: StoreModel, now: int)
    requires
        now - s.last_modified > TTL_SECONDS,
    ensures
        s.read_view(now) == SnapshotModel::empty(),
{
}

/// The expiry clock is shared: a file write refreshes the text's life too.
/// Even when the text's own write lies more than `TTL_SECONDS` in the past,
/// a read within `TTL_SECONDS` of a later file write still shows the text.
pub proof fn lemma_shared_clock(
    s: StoreModel,
    text: Seq<char>,
    t_text: int,
    name: Seq<char>,
    bytes: Seq<u8>,
    t_file: int,
    now: int,
)
    requires
        now - t_text > TTL_SECONDS,
        now - t_file <= TTL_SECONDS,
    ensures
        ({
            let v = s.with_text(text, t_text).with_file(name, bytes, t_file).read_view(now);
            v.text == text && v.file == Some(FileModel { name: name, bytes: bytes })
        }),
{
}

/// A second upload replaces the first whole — name and bytes both, with no
/// residue of the earlier contents — and a download right after returns
/// exactly the second upload.
pub proof fn lemma_upload_overwrites(
    s: StoreModel,
    n1: Seq<char>,
    b1: Seq<u8>,
    t1: int,
    n2: Seq<char>,
    b2: Seq<u8>,
    t2: int,
)
    ensures
        s.with_file(n1, b1, t1).with_file(n2, b2, t2) == s.with_file(n2, b2, t2),
        s.with_file(n1, b1, t1).with_file(n2, b2, t2).read_view(t2).file == Some(
            FileModel { name: n2, bytes: b2 },
        ),
{
    assert(s.with_file(n1, b1, t1).with_file(n2, b2, t2) =~= s.with_file(n2, b2, t2));
}

/// A read observes one state whole: either the stored text and file
/// together, or the empty snapshot — never a mixture of the two.
pub proof fn lemma_snapshot_unmixed(s: StoreModel, now: int)
    ensures
        s.read_view(now) == (SnapshotModel { text: s.text, file: s.file }) || s.read_view(now)
            == SnapshotModel::empty(),
{
}

/// Writes linearize: after any non-empty run of writes, the store holds the
/// text of the last text write, the file of the last file write, and the
/// clock of the last write of either kind. Each field comes from one single
/// completed write (or from the starting state), so no read can observe a
/// mixture of two writes.
pub proof fn lemma_writes_linearize(s: StoreModel, ops: Seq<WriteOp>)
    requires
        ops.len() > 0,
    ensures
        apply_all(s, ops) == (StoreModel {
            text: last_text(s.text, ops),
            file: last_file(s.file, ops),
            last_modified: ops.last().time(),
        }),
    decreases ops.len(),
{
    let prev = ops.drop_last();
    if ops.len() == 1 {
        assert(apply_all(s, prev) == s);
        assert(last_text(s.text, prev) == s.text);
        assert(last_file(s.file, prev) == s.file);
    } else {
        lemma_writes_linearize(s, prev);
    }
    assert(apply_all(s, ops) =~= (StoreModel {
        text: last_text(s.text, ops),
        file: last_file(s.file, ops),
        last_modified: ops.last().time(),
    }));
}

/// Empty initial state: before any write, a read at any time whatsoever
/// reports empty text and no file.
pub proof fn lemma_initial_empty(t0: int, now: int)
    ensures
        StoreModel::initial(t0).read_view(now) == SnapshotModel::empty(),
{
}

} // verus!
