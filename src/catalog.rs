use vstd::prelude::*;
use crate::asset::{Asset, AssetMetadata, AssetView, FileEntry, WAVEFORM_BARS, copy_string, fresh_row, waveform_ok, waveform_valid};

verus! {

/// The asset table: rows in ascending id order, one row per path.
///
/// Ids are handed out in increasing order and never reused until the
/// catalog is cleared.
pub struct Catalog {
    rows: Vec<Asset>,
    next_id: u64,
}

/// The mathematical value of a catalog.
pub struct CatalogView {
    pub rows: Seq<AssetView>,
    pub next_id: u64,
}

/// Whether some row has the path.
pub open spec fn has_path(rows: Seq<AssetView>, p: Seq<char>) -> bool {
    exists|i: int| 0 <= i < rows.len() && #[trigger] rows[i].path == p
}

/// The position of the row with the path (meaningful when there is one).
pub open spec fn path_index(rows: Seq<AssetView>, p: Seq<char>) -> int {
    choose|i: int| 0 <= i < rows.len() && #[trigger] rows[i].path == p
}

/// Whether some row has the id.
pub open spec fn has_id(rows: Seq<AssetView>, id: u64) -> bool {
    exists|i: int| 0 <= i < rows.len() && #[trigger] rows[i].id == id
}

/// The position of the row with the id (meaningful when there is one).
pub open spec fn id_index(rows: Seq<AssetView>, id: u64) -> int {
    choose|i: int| 0 <= i < rows.len() && #[trigger] rows[i].id == id
}

impl CatalogView {
    /// Ids are positive, increasing along the rows and below `next_id`;
    /// paths are unique; every waveform is empty or complete.
    pub open spec fn wf(self) -> bool {
        &&& self.next_id >= 1
        &&& forall|i: int| 0 <= i < self.rows.len() ==> 0 < #[trigger] self.rows[i].id < self.next_id
        &&& forall|i: int, j: int|
            0 <= i < j < self.rows.len() ==> #[trigger] self.rows[i].id < #[trigger] self.rows[j].id
        &&& forall|i: int, j: int|
            0 <= i < self.rows.len() && 0 <= j < self.rows.len() && i != j
                ==> #[trigger] self.rows[i].path != #[trigger] self.rows[j].path
        &&& forall|i: int| 0 <= i < self.rows.len() ==> waveform_ok(#[trigger] self.rows[i].waveform)
    }

    /// Whether new ids have run out.
    pub open spec fn exhausted(self) -> bool {
        self.next_id == u64::MAX
    }
}

/// Insertion that ignores a path already present (and any insertion once ids
/// have run out).
pub open spec fn insert_model(c: CatalogView, e: FileEntry) -> CatalogView {
    if has_path(c.rows, e.path@) || c.exhausted() {
        c
    } else {
        CatalogView { rows: c.rows.push(fresh_row(e, c.next_id)), next_id: (c.next_id + 1) as u64 }
    }
}

/// Insertion of entries one after the other.
pub open spec fn insert_all(c: CatalogView, es: Seq<FileEntry>) -> CatalogView
    decreases es.len(),
{
    if es.len() == 0 {
        c
    } else {
        insert_model(insert_all(c, es.drop_last()), es.last())
    }
}

/// A row with a new size.
pub open spec fn with_size(a: AssetView, size: u64) -> AssetView {
    AssetView { file_size: size, ..a }
}

/// A row whose name, extension, kind and size are taken from an entry.
pub open spec fn with_entry(a: AssetView, e: FileEntry) -> AssetView {
    AssetView {
        filename: e.filename@,
        extension: e.extension@,
        kind: e.kind,
        file_size: e.size,
        ..a
    }
}

/// A row moved to the entry's path; its id and artifacts stay.
pub open spec fn moved(a: AssetView, e: FileEntry) -> AssetView {
    AssetView { path: e.path@, ..with_entry(a, e) }
}

/// Insert a new path; for a path already present, refresh only its size.
pub open spec fn upsert_model(c: CatalogView, e: FileEntry) -> CatalogView {
    if has_path(c.rows, e.path@) {
        let i = path_index(c.rows, e.path@);
        CatalogView { rows: c.rows.update(i, with_size(c.rows[i], e.size)), next_id: c.next_id }
    } else {
        insert_model(c, e)
    }
}

/// Insert a new path; for a path already present, take name, extension,
/// kind and size from the entry.
pub open spec fn replace_model(c: CatalogView, e: FileEntry) -> CatalogView {
    if has_path(c.rows, e.path@) {
        let i = path_index(c.rows, e.path@);
        CatalogView { rows: c.rows.update(i, with_entry(c.rows[i], e)), next_id: c.next_id }
    } else {
        insert_model(c, e)
    }
}

/// Move the row of `from` to the entry's path, unless another row holds
/// that path already; with no row for `from`, insert the entry.
pub open spec fn rename_model(c: CatalogView, from: Seq<char>, e: FileEntry) -> CatalogView {
    if has_path(c.rows, from) {
        if e.path@ != from && has_path(c.rows, e.path@) {
            c
        } else {
            let i = path_index(c.rows, from);
            CatalogView { rows: c.rows.update(i, moved(c.rows[i], e)), next_id: c.next_id }
        }
    } else {
        insert_model(c, e)
    }
}

/// Whether a rename moves a row or inserts one.
pub open spec fn rename_applies(c: CatalogView, from: Seq<char>, e: FileEntry) -> bool {
    if has_path(c.rows, from) {
        e.path@ == from || !has_path(c.rows, e.path@)
    } else {
        !(has_path(c.rows, e.path@) || c.exhausted())
    }
}

/// Delete the row of a path, if there is one.
pub open spec fn remove_model(c: CatalogView, p: Seq<char>) -> CatalogView {
    if has_path(c.rows, p) {
        CatalogView { rows: c.rows.remove(path_index(c.rows, p)), next_id: c.next_id }
    } else {
        c
    }
}

/// Record a thumbnail on the row with the id, if there is one.
pub open spec fn thumbnail_model(c: CatalogView, id: u64, t: Seq<char>) -> CatalogView {
    if has_id(c.rows, id) {
        let i = id_index(c.rows, id);
        CatalogView {
            rows: c.rows.update(i, AssetView { thumbnail: Some(t), ..c.rows[i] }),
            next_id: c.next_id,
        }
    } else {
        c
    }
}

/// Record metadata on the row with the id, if there is one.
pub open spec fn metadata_model(c: CatalogView, id: u64, m: AssetMetadata) -> CatalogView {
    if has_id(c.rows, id) {
        let i = id_index(c.rows, id);
        CatalogView {
            rows: c.rows.update(i, AssetView { metadata: m, ..c.rows[i] }),
            next_id: c.next_id,
        }
    } else {
        c
    }
}

/// Record a complete waveform on the row with the id, if there is one; a
/// waveform of another length, or with a value above 1.0, is refused.
pub open spec fn waveform_model(c: CatalogView, id: u64, w: Seq<u32>) -> CatalogView {
    if has_id(c.rows, id) && w.len() == WAVEFORM_BARS && waveform_ok(w) {
        let i = id_index(c.rows, id);
        CatalogView {
            rows: c.rows.update(i, AssetView { waveform: w, ..c.rows[i] }),
            next_id: c.next_id,
        }
    } else {
        c
    }
}

/// Whether a stored row may follow the rows already loaded: its id is above
/// theirs, its path is new and its waveform is empty or complete.
pub open spec fn restorable(c: CatalogView, a: AssetView) -> bool {
    &&& a.id >= c.next_id
    &&& a.id < u64::MAX
    &&& !has_path(c.rows, a.path)
    &&& waveform_ok(a.waveform)
}

/// Loading a stored row: appended when it may follow, else left out.
pub open spec fn restore_model(c: CatalogView, a: AssetView) -> CatalogView {
    if restorable(c, a) {
        CatalogView { rows: c.rows.push(a), next_id: (a.id + 1) as u64 }
    } else {
        c
    }
}

/// An empty catalog.
pub open spec fn empty_catalog() -> CatalogView {
    CatalogView { rows: Seq::empty(), next_id: 1 }
}

impl View for Catalog {
    type V = CatalogView;

    closed spec fn view(&self) -> CatalogView {
        CatalogView { rows: self.rows@.map_values(|a: Asset| a@), next_id: self.next_id }
    }
}

impl Catalog {
    pub open spec fn wf(&self) -> bool {
        self@.wf()
    }

    /// An empty catalog; the first row gets id 1.
    pub fn new() -> (r: Catalog)
        ensures
            r.wf(),
            r@ == empty_catalog(),
    {
        let r = Catalog { rows: Vec::new(), next_id: 1 };
        assert(r@.rows =~= Seq::<AssetView>::empty());
        r
    }

    /// Removes every row and starts ids again from 1.
    pub fn clear(&mut self)
        ensures
            final(self).wf(),
            final(self)@ == empty_catalog(),
    {
        self.rows = Vec::new();
        self.next_id = 1;
        assert(self@.rows =~= Seq::<AssetView>::empty());
    }

    /// The number of rows.
    pub fn len(&self) -> (r: usize)
        ensures
            r == self@.rows.len(),
    {
        self.rows.len()
    }

    /// The row at a position, in id order.
    pub fn row(&self, i: usize) -> (r: &Asset)
        requires
            i < self@.rows.len(),
        ensures
            r@ == self@.rows[i as int],
    {
        &self.rows[i]
    }

    /// The id the next inserted row will get.
    pub fn next_id(&self) -> (r: u64)
        ensures
            r == self@.next_id,
    {
        self.next_id
    }

    /// The position of the row with a path.
    pub fn position_of(&self, path: &String) -> (r: Option<usize>)
        requires
            self.wf(),
        ensures
            r is None <==> !has_path(self@.rows, path@),
            r matches Some(i) ==> i < self@.rows.len() && i == path_index(self@.rows, path@)
                && self@.rows[i as int].path == path@,
    {
        let mut i: usize = 0;
        while i < self.rows.len()
            invariant
                i <= self.rows.len(),
                self.wf(),
                forall|j: int| 0 <= j < i ==> self@.rows[j].path != path@,
            decreases self.rows.len() - i,
        {
            if self.rows[i].original_path == *path {
                proof {
                    assert(self@.rows[i as int].path == path@);
                    let k = path_index(self@.rows, path@);
                    assert(0 <= k < self@.rows.len() && self@.rows[k].path == path@);
                    if k != i {
                        assert(self@.rows[i as int].path != self@.rows[k].path);
                    }
                }
                return Some(i);
            }
            i = i + 1;
        }
        None
    }

    /// The position of the row with an id.
    pub fn position_of_id(&self, id: u64) -> (r: Option<usize>)
        requires
            self.wf(),
        ensures
            r is None <==> !has_id(self@.rows, id),
            r matches Some(i) ==> i < self@.rows.len() && i == id_index(self@.rows, id)
                && self@.rows[i as int].id == id,
    {
        let mut i: usize = 0;
        while i < self.rows.len()
            invariant
                i <= self.rows.len(),
                self.wf(),
                forall|j: int| 0 <= j < i ==> self@.rows[j].id != id,
            decreases self.rows.len() - i,
        {
            if self.rows[i].id == id {
                proof {
                    assert(self@.rows[i as int].id == id);
                    let k = id_index(self@.rows, id);
                    assert(0 <= k < self@.rows.len() && self@.rows[k].id == id);
                    if k < i {
                        assert(self@.rows[k].id < self@.rows[i as int].id);
                    } else if k > i {
                        assert(self@.rows[i as int].id < self@.rows[k].id);
                    }
                }
                return Some(i);
            }
            i = i + 1;
        }
        None
    }

    /// Inserts a row for a path not yet present; a path already present is
    /// left as it is. Returns whether a row was inserted.
    pub fn insert_or_ignore(&mut self, e: &FileEntry) -> (r: bool)
        requires
            old(self).wf(),
        ensures
            final(self).wf(),
            final(self)@ == insert_model(old(self)@, *e),
            r == !(has_path(old(self)@.rows, e.path@) || old(self)@.exhausted()),
    {
        if self.next_id == u64::MAX {
            return false;
        }
        match self.position_of(&e.path) {
            Some(_) => false,
            None => {
                let a = Asset::from_entry(e, self.next_id);
                self.rows.push(a);
                self.next_id = self.next_id + 1;
                assert(self@.rows =~= old(self)@.rows.push(fresh_row(*e, old(self)@.next_id)));
                true
            }
        }
    }

    /// Inserts a batch of entries one after the other, ignoring paths already
    /// present. Returns how many rows were inserted.
    pub fn insert_batch(&mut self, batch: &Vec<FileEntry>) -> (r: usize)
        requires
            old(self).wf(),
        ensures
            final(self).wf(),
            final(self)@ == insert_all(old(self)@, batch@),
            r == final(self)@.rows.len() - old(self)@.rows.len(),
    {
        let start = self.rows.len();
        let mut i: usize = 0;
        while i < batch.len()
            invariant
                i <= batch.len(),
                self.wf(),
                self@ == insert_all(old(self)@, batch@.subrange(0, i as int)),
                old(self)@.rows.len() <= self@.rows.len(),
                start == old(self)@.rows.len(),
            decreases batch.len() - i,
        {
            assert(batch@.subrange(0, i + 1).drop_last() =~= batch@.subrange(0, i as int));
            self.insert_or_ignore(&batch[i]);
            i = i + 1;
        }
        assert(batch@.subrange(0, batch@.len() as int) =~= batch@);
        self.rows.len() - start
    }

    /// Inserts a new path, or refreshes the size of the row already there.
    pub fn upsert(&mut self, e: &FileEntry)
        requires
            old(self).wf(),
        ensures
            final(self).wf(),
            final(self)@ == upsert_model(old(self)@, *e),
    {
        match self.position_of(&e.path) {
            Some(i) => {
                self.rows[i].file_size = e.size;
                assert(self@.rows =~= old(self)@.rows.update(
                    i as int,
                    with_size(old(self)@.rows[i as int], e.size),
                ));
            },
            None => {
                self.insert_or_ignore(e);
            },
        }
    }

    /// Inserts a new path, or takes name, extension, kind and size from the
    /// entry for the row already there.
    pub fn replace(&mut self, e: &FileEntry)
        requires
            old(self).wf(),
        ensures
            final(self).wf(),
            final(self)@ == replace_model(old(self)@, *e),
    {
        match self.position_of(&e.path) {
            Some(i) => {
                self.rows[i].filename = copy_string(&e.filename);
                self.rows[i].extension = copy_string(&e.extension);
                self.rows[i].kind = e.kind;
                self.rows[i].file_size = e.size;
                assert(self@.rows =~= old(self)@.rows.update(
                    i as int,
                    with_entry(old(self)@.rows[i as int], *e),
                ));
            },
            None => {
                self.insert_or_ignore(e);
            },
        }
    }

    /// Moves the row of `from` to the entry's path, keeping its id, thumbnail,
    /// waveform and metadata. Refused (nothing changes) when another row
    /// holds the new path. With no row for `from` the entry is inserted as a
    /// new file. Returns whether a row was moved or inserted.
    pub fn rename(&mut self, from: &String, e: &FileEntry) -> (r: bool)
        requires
            old(self).wf(),
        ensures
            final(self).wf(),
            final(self)@ == rename_model(old(self)@, from@, *e),
            r == rename_applies(old(self)@, from@, *e),
    {
        match self.position_of(from) {
            Some(i) => {
                if e.path != *from {
                    if self.position_of(&e.path).is_some() {
                        return false;
                    }
                }
                self.rows[i].filename = copy_string(&e.filename);
                self.rows[i].extension = copy_string(&e.extension);
                self.rows[i].original_path = copy_string(&e.path);
                self.rows[i].kind = e.kind;
                self.rows[i].file_size = e.size;
                let ghost target = moved(old(self)@.rows[i as int], *e);
                assert(self@.rows =~= old(self)@.rows.update(i as int, target));
                assert(self@.rows[i as int].path == e.path@);
                assert forall|a: int, b: int|
                    0 <= a < self@.rows.len() && 0 <= b < self@.rows.len() && a != b implies
                    #[trigger] self@.rows[a].path != #[trigger] self@.rows[b].path by {
                    if a == i {
                        assert(old(self)@.rows[b].path != from@ || b == i);
                        assert(!has_path(old(self)@.rows, e.path@) || e.path@ == from@);
                        if e.path@ == from@ {
                            assert(old(self)@.rows[a].path != old(self)@.rows[b].path);
                        } else {
                            assert(old(self)@.rows[b].path != e.path@);
                        }
                    } else if b == i {
                        if e.path@ == from@ {
                            assert(old(self)@.rows[a].path != old(self)@.rows[b].path);
                        } else {
                            assert(old(self)@.rows[a].path != e.path@);
                        }
                    } else {
                        assert(old(self)@.rows[a].path != old(self)@.rows[b].path);
                    }
                }
                true
            },
            None => self.insert_or_ignore(e),
        }
    }

    /// Deletes the row of a path; a path with no row is no error.
    /// Returns whether a row was deleted.
    pub fn remove_path(&mut self, path: &String) -> (r: bool)
        requires
            old(self).wf(),
        ensures
            final(self).wf(),
            final(self)@ == remove_model(old(self)@, path@),
            r == has_path(old(self)@.rows, path@),
    {
        match self.position_of(path) {
            Some(i) => {
                self.rows.remove(i);
                assert(self@.rows =~= old(self)@.rows.remove(i as int));
                assert forall|a: int, b: int| 0 <= a < b < self@.rows.len() implies
                    #[trigger] self@.rows[a].id < #[trigger] self@.rows[b].id by {
                    let oa = if a < i { a } else { a + 1 };
                    let ob = if b < i { b } else { b + 1 };
                    assert(old(self)@.rows[oa].id < old(self)@.rows[ob].id);
                }
                assert forall|a: int, b: int|
                    0 <= a < self@.rows.len() && 0 <= b < self@.rows.len() && a != b implies
                    #[trigger] self@.rows[a].path != #[trigger] self@.rows[b].path by {
                    let oa = if a < i { a } else { a + 1 };
                    let ob = if b < i { b } else { b + 1 };
                    assert(old(self)@.rows[oa].path != old(self)@.rows[ob].path);
                }
                true
            },
            None => false,
        }
    }

    /// Records the thumbnail of the row with an id. Returns whether there
    /// was such a row.
    pub fn set_thumbnail(&mut self, id: u64, thumbnail: &String) -> (r: bool)
        requires
            old(self).wf(),
        ensures
            final(self).wf(),
            final(self)@ == thumbnail_model(old(self)@, id, thumbnail@),
            r == has_id(old(self)@.rows, id),
    {
        match self.position_of_id(id) {
            Some(i) => {
                self.rows[i].thumbnail_path = Some(copy_string(thumbnail));
                assert(self@.rows =~= old(self)@.rows.update(
                    i as int,
                    AssetView { thumbnail: Some(thumbnail@), ..old(self)@.rows[i as int] },
                ));
                true
            },
            None => false,
        }
    }

    /// Records the metadata of the row with an id. Returns whether there
    /// was such a row.
    pub fn set_metadata(&mut self, id: u64, m: AssetMetadata) -> (r: bool)
        requires
            old(self).wf(),
        ensures
            final(self).wf(),
            final(self)@ == metadata_model(old(self)@, id, m),
            r == has_id(old(self)@.rows, id),
    {
        match self.position_of_id(id) {
            Some(i) => {
                self.rows[i].metadata = m;
                assert(self@.rows =~= old(self)@.rows.update(
                    i as int,
                    AssetView { metadata: m, ..old(self)@.rows[i as int] },
                ));
                true
            },
            None => false,
        }
    }

    /// Records the waveform of the row with an id. A waveform that does not
    /// have exactly one value per bar, each at most 1.0, is refused. Returns
    /// whether it was recorded.
    pub fn set_waveform(&mut self, id: u64, w: Vec<u32>) -> (r: bool)
        requires
            old(self).wf(),
        ensures
            final(self).wf(),
            final(self)@ == waveform_model(old(self)@, id, w@),
            r == (has_id(old(self)@.rows, id) && w@.len() == WAVEFORM_BARS && waveform_ok(w@)),
    {
        if w.len() != WAVEFORM_BARS || !waveform_valid(&w) {
            return false;
        }
        match self.position_of_id(id) {
            Some(i) => {
                let ghost wv = w@;
                self.rows[i].waveform = w;
                assert(self@.rows =~= old(self)@.rows.update(
                    i as int,
                    AssetView { waveform: wv, ..old(self)@.rows[i as int] },
                ));
                true
            },
            None => false,
        }
    }

    /// Loads a stored row, in id order. A row whose id is not above those
    /// already loaded, whose path is already present or whose waveform is
    /// malformed is left out. Returns whether the row was loaded.
    pub fn restore_row(&mut self, a: Asset) -> (r: bool)
        requires
            old(self).wf(),
        ensures
            final(self).wf(),
            final(self)@ == restore_model(old(self)@, a@),
            r == restorable(old(self)@, a@),
    {
        if a.id < self.next_id || a.id == u64::MAX || !waveform_valid(&a.waveform) {
            return false;
        }
        if self.position_of(&a.original_path).is_some() {
            return false;
        }
        let ghost av = a@;
        let id = a.id;
        self.rows.push(a);
        self.next_id = id + 1;
        assert(self@.rows =~= old(self)@.rows.push(av));
        true
    }

    /// Makes sure that new ids start at `at_least` or above, so that ids
    /// handed out before are not given again.
    pub fn reserve_ids(&mut self, at_least: u64)
        requires
            old(self).wf(),
        ensures
            final(self).wf(),
            final(self)@.rows == old(self)@.rows,
            final(self)@.next_id == (if at_least > old(self)@.next_id {
                at_least
            } else {
                old(self)@.next_id
            }),
    {
        if at_least > self.next_id {
            self.next_id = at_least;
        }
    }
}

} // verus!
