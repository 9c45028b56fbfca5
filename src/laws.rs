use vstd::prelude::*;
use crate::asset::{FileEntry, WAVEFORM_BARS};
use crate::waveform::{UNIT_PEAK, bar_value};
use crate::catalog::{
    CatalogView, has_id, has_path, id_index, insert_all, insert_model, path_index, remove_model,
    thumbnail_model,
};
use crate::generate::{Artifact, lacks};
use crate::watcher::{
    FsEvent, FsEventKind, WatchAction, actions_for, apply_all, apply_model, ext_kind, media_entry,
    next_pending,
};

verus! {

/// After inserting entries, each of their paths is present, unless ids ran
/// out.
proof fn insert_all_covers(c: CatalogView, es: Seq<FileEntry>)
    ensures
        forall|k: int|
            0 <= k < es.len() ==> has_path(insert_all(c, es).rows, (#[trigger] es[k]).path@)
                || insert_all(c, es).exhausted(),
    decreases es.len(),
{
    if es.len() > 0 {
        let pre = es.drop_last();
        insert_all_covers(c, pre);
        let d = insert_all(c, pre);
        let e = insert_model(d, es.last());
        assert(insert_all(c, es) == e);
        assert forall|k: int| 0 <= k < es.len() implies has_path(e.rows, (#[trigger] es[k]).path@)
            || e.exhausted() by {
            if k < es.len() - 1 {
                assert(es[k] == pre[k]);
                if has_path(d.rows, es[k].path@) {
                    let j = choose|j: int|
                        0 <= j < d.rows.len() && #[trigger] d.rows[j].path == es[k].path@;
                    if e != d {
                        assert(e.rows[j] == d.rows[j]);
                    }
                    assert(e.rows[j].path == es[k].path@);
                } else {
                    assert(d.exhausted());
                    assert(e == d);
                }
            } else {
                if e != d {
                    assert(e.rows[e.rows.len() - 1].path == es.last().path@);
                }
            }
        }
    }
}

/// Entries whose paths are all present (or with ids run out) change nothing.
proof fn insert_all_present(d: CatalogView, es: Seq<FileEntry>)
    requires
        forall|k: int|
            0 <= k < es.len() ==> has_path(d.rows, (#[trigger] es[k]).path@) || d.exhausted(),
    ensures
        insert_all(d, es) == d,
    decreases es.len(),
{
    if es.len() > 0 {
        let pre = es.drop_last();
        assert forall|k: int| 0 <= k < pre.len() implies has_path(d.rows, (#[trigger] pre[k]).path@)
            || d.exhausted() by {
            assert(pre[k] == es[k]);
        }
        insert_all_present(d, pre);
        assert(has_path(d.rows, es[es.len() - 1].path@) || d.exhausted());
    }
}

/// Scanning the same files a second time changes nothing: inserting the
/// same entries again, in the same order, leaves the catalog as the first
/// pass left it.
pub proof fn scan_is_idempotent(c: CatalogView, es: Seq<FileEntry>)
    ensures
        insert_all(insert_all(c, es), es) == insert_all(c, es),
{
    insert_all_covers(c, es);
    insert_all_present(insert_all(c, es), es);
}

/// The catalog after a pair of events, from the state before them.
pub open spec fn after_pair(c: CatalogView, pending: Option<String>, first: FsEvent, second: FsEvent)
    -> CatalogView {
    let mid = apply_all(c, actions_for(pending, first));
    apply_all(mid, actions_for(next_pending(pending, first), second))
}

/// A rename from a path with a row to a path that is still a readable media
/// file, and that no other row holds, moves that row: same number of rows,
/// same id, thumbnail, waveform and metadata, now under the new path.
pub proof fn rename_pair_moves_row(
    c: CatalogView,
    pending: Option<String>,
    from_ev: FsEvent,
    to_ev: FsEvent,
)
    requires
        c.wf(),
        from_ev.kind == FsEventKind::RenameFrom,
        from_ev.paths@.len() > 0,
        to_ev.kind == FsEventKind::RenameTo,
        to_ev.paths@.len() > 0,
        has_path(c.rows, from_ev.paths@[0].path@),
        media_entry(to_ev.paths@[0]) is Some,
        !has_path(c.rows, to_ev.paths@[0].path@) || to_ev.paths@[0].path@
            == from_ev.paths@[0].path@,
    ensures
        ({
            let a = from_ev.paths@[0].path@;
            let b = to_ev.paths@[0].path@;
            let before = c.rows[path_index(c.rows, a)];
            let d = after_pair(c, pending, from_ev, to_ev);
            &&& d.rows.len() == c.rows.len()
            &&& has_path(d.rows, b)
            &&& d.rows[path_index(d.rows, b)].id == before.id
            &&& d.rows[path_index(d.rows, b)].thumbnail == before.thumbnail
            &&& d.rows[path_index(d.rows, b)].waveform == before.waveform
            &&& d.rows[path_index(d.rows, b)].metadata == before.metadata
            &&& (a != b ==> !has_path(d.rows, a))
        }),
{
    let a = from_ev.paths@[0].path@;
    let b = to_ev.paths@[0].path@;
    let e = media_entry(to_ev.paths@[0])->0;
    assert(actions_for(pending, from_ev) =~= Seq::<WatchAction>::empty());
    let mid = apply_all(c, actions_for(pending, from_ev));
    assert(mid == c);
    let p1 = next_pending(pending, from_ev);
    assert(p1 == Some(from_ev.paths@[0].path));
    let acts = actions_for(p1, to_ev);
    assert(acts == seq![WatchAction::Rename { from: from_ev.paths@[0].path, entry: e }]);
    assert(acts.drop_last() =~= Seq::<WatchAction>::empty());
    let d = after_pair(c, pending, from_ev, to_ev);
    assert(d == apply_model(c, acts.last()));
    let i = path_index(c.rows, a);
    assert(0 <= i < c.rows.len() && c.rows[i].path == a);
    assert(d.rows[i].path == b);
    assert(has_path(d.rows, b));
    let j = path_index(d.rows, b);
    assert(0 <= j < d.rows.len() && d.rows[j].path == b);
    if j != i {
        assert(d.rows[j] == c.rows[j]);
        if b == a {
            assert(c.rows[i].path != c.rows[j].path);
        } else {
            assert(has_path(c.rows, b));
        }
    }
    if a != b {
        if has_path(d.rows, a) {
            let k = choose|k: int| 0 <= k < d.rows.len() && #[trigger] d.rows[k].path == a;
            assert(k != i);
            assert(c.rows[k].path == a);
            assert(c.rows[i].path != c.rows[k].path);
        }
    }
}

/// A rename from a path with a row to something that is no media file (an
/// unknown or missing extension, or no longer a file) deletes that row.
pub proof fn rename_to_nonmedia_removes_row(
    c: CatalogView,
    pending: Option<String>,
    from_ev: FsEvent,
    to_ev: FsEvent,
)
    requires
        c.wf(),
        from_ev.kind == FsEventKind::RenameFrom,
        from_ev.paths@.len() > 0,
        to_ev.kind == FsEventKind::RenameTo,
        to_ev.paths@.len() > 0,
        has_path(c.rows, from_ev.paths@[0].path@),
        !to_ev.paths@[0].is_file || ext_kind(to_ev.paths@[0].extension) is None,
    ensures
        ({
            let a = from_ev.paths@[0].path@;
            let d = after_pair(c, pending, from_ev, to_ev);
            &&& d == remove_model(c, a)
            &&& d.rows.len() == c.rows.len() - 1
            &&& !has_path(d.rows, a)
        }),
{
    let a = from_ev.paths@[0].path@;
    assert(actions_for(pending, from_ev) =~= Seq::<WatchAction>::empty());
    let p1 = next_pending(pending, from_ev);
    let acts = actions_for(p1, to_ev);
    assert(acts == seq![WatchAction::Remove(from_ev.paths@[0].path)]);
    assert(acts.drop_last() =~= Seq::<WatchAction>::empty());
    let d = after_pair(c, pending, from_ev, to_ev);
    assert(d == remove_model(c, a));
    let i = path_index(c.rows, a);
    assert(0 <= i < c.rows.len() && c.rows[i].path == a);
    if has_path(d.rows, a) {
        let k = choose|k: int| 0 <= k < d.rows.len() && #[trigger] d.rows[k].path == a;
        let ok = if k < i { k } else { k + 1 };
        assert(c.rows[ok].path == a);
        assert(c.rows[i].path != c.rows[ok].path);
    }
}

/// Every waveform in a well-formed catalog is either not generated (empty)
/// or has exactly one value per bar, each between 0 and 1.0.
pub proof fn stored_waveforms_are_empty_or_complete(c: CatalogView, i: int)
    requires
        c.wf(),
        0 <= i < c.rows.len(),
    ensures
        c.rows[i].waveform.len() == 0 || (c.rows[i].waveform.len() == WAVEFORM_BARS && forall|j: int|
            0 <= j < WAVEFORM_BARS ==> #[trigger] c.rows[i].waveform[j] <= UNIT_PEAK),
{
}

/// A waveform made from any packet peaks has one value per bar, each at
/// most 1.0, so the catalog accepts it.
pub proof fn generated_waveform_is_storable(peaks: Seq<u32>)
    ensures
        crate::asset::waveform_ok(Seq::new(WAVEFORM_BARS as nat, |i: int| bar_value(peaks, WAVEFORM_BARS as int, i))),
{
    let w = Seq::new(WAVEFORM_BARS as nat, |i: int| bar_value(peaks, WAVEFORM_BARS as int, i));
    assert forall|j: int| 0 <= j < w.len() implies #[trigger] w[j] <= UNIT_PEAK by {
        assert(w[j] == bar_value(peaks, WAVEFORM_BARS as int, j));
    }
}

/// The catalog after thumbnails were recorded, one `(id, path)` after the
/// other.
pub open spec fn thumbnails_recorded(c: CatalogView, recs: Seq<(u64, Seq<char>)>) -> CatalogView
    decreases recs.len(),
{
    if recs.len() == 0 {
        c
    } else {
        thumbnail_model(thumbnails_recorded(c, recs.drop_last()), recs.last().0, recs.last().1)
    }
}

proof fn recording_keeps_rows(c: CatalogView, recs: Seq<(u64, Seq<char>)>)
    requires
        c.wf(),
    ensures
        ({
            let d = thumbnails_recorded(c, recs);
            &&& d.rows.len() == c.rows.len()
            &&& forall|i: int| 0 <= i < c.rows.len() ==> {
                &&& (#[trigger] d.rows[i]).id == c.rows[i].id
                &&& d.rows[i].kind == c.rows[i].kind
                &&& (c.rows[i].thumbnail is Some ==> d.rows[i].thumbnail is Some)
                &&& (forall|k: int| 0 <= k < recs.len() && (#[trigger] recs[k]).0 == c.rows[i].id
                    ==> d.rows[i].thumbnail is Some)
            }
        }),
    decreases recs.len(),
{
    if recs.len() > 0 {
        let pre = recs.drop_last();
        recording_keeps_rows(c, pre);
        let d0 = thumbnails_recorded(c, pre);
        let (id, t) = recs.last();
        let d = thumbnails_recorded(c, recs);
        assert(d == thumbnail_model(d0, id, t));
        assert forall|i: int| 0 <= i < c.rows.len() implies {
            &&& (#[trigger] d.rows[i]).id == c.rows[i].id
            &&& d.rows[i].kind == c.rows[i].kind
            &&& (c.rows[i].thumbnail is Some ==> d.rows[i].thumbnail is Some)
            &&& (forall|k: int| 0 <= k < recs.len() && (#[trigger] recs[k]).0 == c.rows[i].id
                ==> d.rows[i].thumbnail is Some)
        } by {
            assert(d0.rows[i].id == c.rows[i].id);
            if has_id(d0.rows, id) {
                let j = id_index(d0.rows, id);
                assert(0 <= j < d0.rows.len() && d0.rows[j].id == id);
                if d0.rows[i].id == id && i != j {
                    assert(d0.rows[j].id == c.rows[j].id);
                    if i < j {
                        assert(c.rows[i].id < c.rows[j].id);
                    } else {
                        assert(c.rows[j].id < c.rows[i].id);
                    }
                }
            }
            assert forall|k: int| 0 <= k < recs.len() && (#[trigger] recs[k]).0 == c.rows[i].id
                implies d.rows[i].thumbnail is Some by {
                if k < recs.len() - 1 {
                    assert(recs[k] == pre[k]);
                } else {
                    assert(d0.rows[i].id == id);
                    assert(has_id(d0.rows, id));
                }
            }
        }
    }
}

/// Once a thumbnail has been recorded for every image that lacked one, no
/// image lacks one: the rows are the same, each with a thumbnail path.
pub proof fn recording_pending_thumbnails_leaves_none(c: CatalogView, recs: Seq<(u64, Seq<char>)>)
    requires
        c.wf(),
        forall|i: int|
            0 <= i < c.rows.len() && lacks(#[trigger] c.rows[i], Artifact::Thumbnail) ==> exists|k: int|
                0 <= k < recs.len() && (#[trigger] recs[k]).0 == c.rows[i].id,
    ensures
        thumbnails_recorded(c, recs).rows.len() == c.rows.len(),
        forall|i: int|
            0 <= i < c.rows.len() ==> !lacks(#[trigger] thumbnails_recorded(c, recs).rows[i], Artifact::Thumbnail),
{
    recording_keeps_rows(c, recs);
    let d = thumbnails_recorded(c, recs);
    assert forall|i: int| 0 <= i < c.rows.len() implies !lacks(#[trigger] d.rows[i], Artifact::Thumbnail) by {
        assert(d.rows[i].id == c.rows[i].id);
        if lacks(c.rows[i], Artifact::Thumbnail) {
            let k = choose|k: int| 0 <= k < recs.len() && (#[trigger] recs[k]).0 == c.rows[i].id;
            assert(recs[k].0 == c.rows[i].id);
        }
    }
}

} // verus!
