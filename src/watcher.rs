use vstd::prelude::*;
use crate::asset::{FileEntry, copy_string};
use crate::catalog::{
    Catalog, CatalogView, has_path, remove_model, rename_applies, rename_model, replace_model,
    upsert_model,
};
use crate::media::{MediaKind, classify_extension, kind_of_lower, lower_of};

verus! {

/// The kinds of filesystem change the watcher tells apart.
#[derive(PartialEq, Eq, Structural, Clone, Copy, Debug)]
pub enum FsEventKind {
    Create,
    /// A change of content or attributes (not a rename).
    Modify,
    /// The first half of a rename: the old name.
    RenameFrom,
    /// The second half of a rename: the new name.
    RenameTo,
    Remove,
    Other,
}

/// What was seen of one path named by an event.
#[derive(Debug)]
pub struct ObservedPath {
    pub path: String,
    /// Whether the path is a regular file now.
    pub is_file: bool,
    /// The last component of the path.
    pub filename: String,
    /// The extension of the last component, if it has one.
    pub extension: Option<String>,
    /// The size in bytes, if it could be read.
    pub size: Option<u64>,
}

/// One filesystem change notification.
#[derive(Debug)]
pub struct FsEvent {
    pub kind: FsEventKind,
    pub paths: Vec<ObservedPath>,
}

/// A change to make to the catalog.
#[derive(Debug)]
pub enum WatchAction {
    /// Insert a new file, or refresh the size of a known one.
    Upsert(FileEntry),
    /// Move the row of `from` to the entry's path.
    Rename { from: String, entry: FileEntry },
    /// Insert a new file, or refresh name, kind and size of a known one.
    Replace(FileEntry),
    /// Delete the row of a path.
    Remove(String),
}

/// The kind of an extension, if there is one and it is known.
pub open spec fn ext_kind(ext: Option<String>) -> Option<MediaKind> {
    match ext {
        Some(x) => kind_of_lower(lower_of(x@)),
        None => None,
    }
}

/// The entry for an observed path that is a readable media file.
pub open spec fn media_entry(o: ObservedPath) -> Option<FileEntry> {
    if o.is_file && ext_kind(o.extension) is Some && o.size is Some {
        Some(
            FileEntry {
                filename: o.filename,
                extension: o.extension->0,
                path: o.path,
                kind: ext_kind(o.extension)->0,
                size: o.size->0,
            },
        )
    } else {
        None
    }
}

/// The upserts for the media files among observed paths.
pub open spec fn upserts(ps: Seq<ObservedPath>) -> Seq<WatchAction>
    decreases ps.len(),
{
    if ps.len() == 0 {
        Seq::empty()
    } else {
        let rest = upserts(ps.drop_last());
        match media_entry(ps.last()) {
            Some(e) => rest.push(WatchAction::Upsert(e)),
            None => rest,
        }
    }
}

/// The removals for the removed paths with a media extension.
pub open spec fn removals(ps: Seq<ObservedPath>) -> Seq<WatchAction>
    decreases ps.len(),
{
    if ps.len() == 0 {
        Seq::empty()
    } else {
        let rest = removals(ps.drop_last());
        if ext_kind(ps.last().extension) is Some {
            rest.push(WatchAction::Remove(ps.last().path))
        } else {
            rest
        }
    }
}

/// The actions for the second half of a rename, to `o`, with `from` the
/// pending first half, if any.
pub open spec fn rename_to_actions(from: Option<String>, o: ObservedPath) -> Seq<WatchAction> {
    match media_entry(o) {
        Some(e) => match from {
            Some(a) => seq![WatchAction::Rename { from: a, entry: e }],
            None => seq![WatchAction::Replace(e)],
        },
        None => if o.is_file && ext_kind(o.extension) is Some {
            // a media file whose size could not be read: left for a later event
            Seq::empty()
        } else {
            match from {
                Some(a) => seq![WatchAction::Remove(a)],
                None => Seq::empty(),
            }
        },
    }
}

/// The pending rename after an event.
pub open spec fn next_pending(pending: Option<String>, ev: FsEvent) -> Option<String> {
    if ev.paths@.len() == 0 {
        pending
    } else {
        match ev.kind {
            FsEventKind::RenameFrom => Some(ev.paths@[0].path),
            FsEventKind::RenameTo => None,
            _ => pending,
        }
    }
}

/// The actions for an event.
pub open spec fn actions_for(pending: Option<String>, ev: FsEvent) -> Seq<WatchAction> {
    match ev.kind {
        FsEventKind::RenameFrom => Seq::empty(),
        FsEventKind::RenameTo => if ev.paths@.len() == 0 {
            Seq::empty()
        } else {
            rename_to_actions(pending, ev.paths@[0])
        },
        FsEventKind::Create | FsEventKind::Modify => upserts(ev.paths@),
        FsEventKind::Remove => removals(ev.paths@),
        FsEventKind::Other => Seq::empty(),
    }
}

/// The catalog after one action.
pub open spec fn apply_model(c: CatalogView, a: WatchAction) -> CatalogView {
    match a {
        WatchAction::Upsert(e) => upsert_model(c, e),
        WatchAction::Rename { from, entry } => rename_model(c, from@, entry),
        WatchAction::Replace(e) => replace_model(c, e),
        WatchAction::Remove(p) => remove_model(c, p@),
    }
}

/// Whether the catalog takes an action.
pub open spec fn action_takes(c: CatalogView, a: WatchAction) -> bool {
    match a {
        WatchAction::Upsert(_) => true,
        WatchAction::Rename { from, entry } => rename_applies(c, from@, entry),
        WatchAction::Replace(_) => true,
        WatchAction::Remove(p) => has_path(c.rows, p@),
    }
}

/// The catalog after actions applied in order.
pub open spec fn apply_all(c: CatalogView, acts: Seq<WatchAction>) -> CatalogView
    decreases acts.len(),
{
    if acts.len() == 0 {
        c
    } else {
        apply_model(apply_all(c, acts.drop_last()), acts.last())
    }
}

/// The state of one watched folder: the first half of a rename waiting for
/// its second half.
#[derive(Debug)]
pub struct WatchSession {
    pub pending_from: Option<String>,
}

/// The entry for an observed path that is a readable media file.
pub fn entry_of(o: &ObservedPath) -> (r: Option<FileEntry>)
    ensures
        r == media_entry(*o),
{
    if !o.is_file {
        return None;
    }
    let kind = match &o.extension {
        Some(x) => classify_extension(x.as_str()),
        None => None,
    };
    match (kind, o.size) {
        (Some(k), Some(size)) => Some(
            FileEntry {
                filename: copy_string(&o.filename),
                extension: copy_string(o.extension.as_ref().unwrap()),
                path: copy_string(&o.path),
                kind: k,
                size,
            },
        ),
        _ => None,
    }
}

/// Whether an observed path has a known media extension.
fn has_media_extension(o: &ObservedPath) -> (r: bool)
    ensures
        r == (ext_kind(o.extension) is Some),
{
    match &o.extension {
        Some(x) => classify_extension(x.as_str()).is_some(),
        None => false,
    }
}

impl WatchSession {
    pub fn new() -> (r: WatchSession)
        ensures
            r.pending_from is None,
    {
        WatchSession { pending_from: None }
    }

    /// Decides what an event does to the catalog. The first half of a
    /// rename is only remembered; the second half is paired with it.
    pub fn decide(&mut self, ev: &FsEvent) -> (r: Vec<WatchAction>)
        ensures
            final(self).pending_from == next_pending(old(self).pending_from, *ev),
            r@ == actions_for(old(self).pending_from, *ev),
    {
        let mut out: Vec<WatchAction> = Vec::new();
        match ev.kind {
            FsEventKind::RenameFrom => {
                if ev.paths.len() > 0 {
                    self.pending_from = Some(copy_string(&ev.paths[0].path));
                }
                assert(out@ =~= Seq::<WatchAction>::empty());
            },
            FsEventKind::RenameTo => {
                if ev.paths.len() > 0 {
                    let from = self.pending_from.take();
                    let o = &ev.paths[0];
                    match entry_of(o) {
                        Some(e) => match from {
                            Some(a) => out.push(WatchAction::Rename { from: a, entry: e }),
                            None => out.push(WatchAction::Replace(e)),
                        },
                        None => {
                            if !(o.is_file && has_media_extension(o)) {
                                match from {
                                    Some(a) => out.push(WatchAction::Remove(a)),
                                    None => {},
                                }
                            }
                        },
                    }
                    assert(out@ =~= rename_to_actions(old(self).pending_from, ev.paths@[0]));
                } else {
                    assert(out@ =~= Seq::<WatchAction>::empty());
                }
            },
            FsEventKind::Create | FsEventKind::Modify => {
                let mut i: usize = 0;
                while i < ev.paths.len()
                    invariant
                        i <= ev.paths@.len(),
                        out@ == upserts(ev.paths@.subrange(0, i as int)),
                    decreases ev.paths@.len() - i,
                {
                    assert(ev.paths@.subrange(0, i + 1).drop_last() =~= ev.paths@.subrange(
                        0,
                        i as int,
                    ));
                    match entry_of(&ev.paths[i]) {
                        Some(e) => out.push(WatchAction::Upsert(e)),
                        None => {},
                    }
                    i = i + 1;
                }
                assert(ev.paths@.subrange(0, ev.paths@.len() as int) =~= ev.paths@);
            },
            FsEventKind::Remove => {
                let mut i: usize = 0;
                while i < ev.paths.len()
                    invariant
                        i <= ev.paths@.len(),
                        out@ == removals(ev.paths@.subrange(0, i as int)),
                    decreases ev.paths@.len() - i,
                {
                    assert(ev.paths@.subrange(0, i + 1).drop_last() =~= ev.paths@.subrange(
                        0,
                        i as int,
                    ));
                    if has_media_extension(&ev.paths[i]) {
                        out.push(WatchAction::Remove(copy_string(&ev.paths[i].path)));
                    }
                    i = i + 1;
                }
                assert(ev.paths@.subrange(0, ev.paths@.len() as int) =~= ev.paths@);
            },
            FsEventKind::Other => {
                assert(out@ =~= Seq::<WatchAction>::empty());
            },
        }
        out
    }
}

impl Catalog {
    /// Makes one change that the watcher decided on. Returns whether the
    /// catalog took it: a removal of a path with no row and a refused rename
    /// return false.
    pub fn apply(&mut self, a: &WatchAction) -> (r: bool)
        requires
            old(self).wf(),
        ensures
            final(self).wf(),
            final(self)@ == apply_model(old(self)@, *a),
            r == action_takes(old(self)@, *a),
    {
        match a {
            WatchAction::Upsert(e) => {
                self.upsert(e);
                true
            },
            WatchAction::Rename { from, entry } => self.rename(from, entry),
            WatchAction::Replace(e) => {
                self.replace(e);
                true
            },
            WatchAction::Remove(p) => self.remove_path(p),
        }
    }
}

} // verus!
