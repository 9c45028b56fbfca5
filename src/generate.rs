use vstd::prelude::*;
use crate::asset::{Asset, AssetView, copy_string};
use crate::catalog::Catalog;
use crate::media::{MediaKind, lower_of, lowercase, same_chars};

verus! {

/// The width of a generated thumbnail, in pixels.
pub const THUMBNAIL_WIDTH: u32 = 200;

/// The derived artifacts that background jobs fill in.
#[derive(PartialEq, Eq, Structural, Clone, Copy, Debug)]
pub enum Artifact {
    Thumbnail,
    Waveform,
}

/// Whether a row still lacks an artifact: images without a thumbnail, audio
/// without a waveform.
pub open spec fn lacks(a: AssetView, which: Artifact) -> bool {
    match which {
        Artifact::Thumbnail => a.kind == MediaKind::Image && a.thumbnail is None,
        Artifact::Waveform => a.kind == MediaKind::Audio && a.waveform.len() == 0,
    }
}

/// The rows that lack an artifact, in catalog order.
pub open spec fn lacking(rows: Seq<AssetView>, which: Artifact) -> Seq<AssetView>
    decreases rows.len(),
{
    if rows.len() == 0 {
        Seq::empty()
    } else {
        let m = lacking(rows.drop_last(), which);
        if lacks(rows.last(), which) {
            m.push(rows.last())
        } else {
            m
        }
    }
}

/// One file for a background job to work on.
#[derive(Debug)]
pub struct WorkItem {
    pub id: u64,
    pub path: String,
    pub filename: String,
    pub extension: String,
}

/// Whether a work item stands for a row.
pub open spec fn describes(w: WorkItem, a: AssetView) -> bool {
    w.id == a.id && w.path@ == a.path && w.filename@ == a.filename && w.extension@ == a.extension
}

fn item_for(a: &Asset) -> (r: WorkItem)
    ensures
        describes(r, a@),
{
    WorkItem {
        id: a.id,
        path: copy_string(&a.original_path),
        filename: copy_string(&a.filename),
        extension: copy_string(&a.extension),
    }
}

impl Catalog {
    /// The rows that still lack an artifact, in id order.
    pub fn pending_work(&self, which: Artifact) -> (r: Vec<WorkItem>)
        requires
            self.wf(),
        ensures
            r@.len() == lacking(self@.rows, which).len(),
            forall|i: int| 0 <= i < r@.len() ==> describes(#[trigger] r@[i], lacking(self@.rows, which)[i]),
    {
        let mut out: Vec<WorkItem> = Vec::new();
        let mut i: usize = 0;
        while i < self.len()
            invariant
                i <= self@.rows.len(),
                out@.len() == lacking(self@.rows.subrange(0, i as int), which).len(),
                forall|k: int| 0 <= k < out@.len() ==> describes(
                    #[trigger] out@[k],
                    lacking(self@.rows.subrange(0, i as int), which)[k],
                ),
            decreases self@.rows.len() - i,
        {
            let ghost pre = self@.rows.subrange(0, i as int);
            assert(self@.rows.subrange(0, i + 1).drop_last() =~= pre);
            let a = self.row(i);
            let wanted = match which {
                Artifact::Thumbnail => a.kind == MediaKind::Image && a.thumbnail_path.is_none(),
                Artifact::Waveform => a.kind == MediaKind::Audio && a.waveform.len() == 0,
            };
            if wanted {
                out.push(item_for(a));
            }
            i = i + 1;
        }
        assert(self@.rows.subrange(0, self@.rows.len() as int) =~= self@.rows);
        out
    }
}

/// The state of a background job: how many items it has, how many it has
/// started, and whether it was cancelled.
pub struct JobView {
    pub total: nat,
    pub started: nat,
    pub cancelled: bool,
}

/// What asking for the next item does: nothing once cancelled or when every
/// item has been started, else one more item is started.
pub open spec fn begin_model(j: JobView) -> JobView {
    if j.cancelled || j.started >= j.total {
        j
    } else {
        JobView { started: j.started + 1, ..j }
    }
}

/// The job after `k` requests for an item.
pub open spec fn after_begins(j: JobView, k: nat) -> JobView
    decreases k,
{
    if k == 0 {
        j
    } else {
        begin_model(after_begins(j, (k - 1) as nat))
    }
}

/// A background job over a fixed number of items that can be cancelled.
/// Cancelling stops items from being started; items already started finish.
#[derive(Debug)]
pub struct GenerationJob {
    total: usize,
    started: usize,
    cancelled: bool,
}

impl View for GenerationJob {
    type V = JobView;

    closed spec fn view(&self) -> JobView {
        JobView { total: self.total as nat, started: self.started as nat, cancelled: self.cancelled }
    }
}

impl GenerationJob {
    pub closed spec fn wf(&self) -> bool {
        self.started <= self.total
    }

    #[verifier::type_invariant]
    pub closed spec fn inv(&self) -> bool {
        self.wf()
    }

    pub fn new(total: usize) -> (r: GenerationJob)
        ensures
            r.wf(),
            r@ == (JobView { total: total as nat, started: 0, cancelled: false }),
    {
        GenerationJob { total, started: 0, cancelled: false }
    }

    /// Stops the job from starting further items.
    pub fn cancel(&mut self)
        ensures
            final(self).wf(),
            final(self)@ == (JobView { cancelled: true, ..old(self)@ }),
    {
        proof {
            use_type_invariant(&*self);
        }
        self.cancelled = true;
    }

    /// Asks for the next item: its number, counting from 1, or `None` once
    /// the job is cancelled or every item has been started.
    pub fn begin_item(&mut self) -> (r: Option<usize>)
        ensures
            final(self).wf(),
            final(self)@ == begin_model(old(self)@),
            r is None <==> (old(self)@.cancelled || old(self)@.started >= old(self)@.total),
            r matches Some(n) ==> n == final(self)@.started,
    {
        proof {
            use_type_invariant(&*self);
        }
        if self.cancelled || self.started >= self.total {
            None
        } else {
            self.started = self.started + 1;
            Some(self.started)
        }
    }

    pub fn started(&self) -> (r: usize)
        ensures
            r == self@.started,
    {
        self.started
    }

    pub fn total(&self) -> (r: usize)
        ensures
            r == self@.total,
    {
        self.total
    }

    pub fn is_cancelled(&self) -> (r: bool)
        ensures
            r == self@.cancelled,
    {
        self.cancelled
    }
}

/// Once a job is cancelled, no request starts another item: a job cancelled
/// before all its items were started ends with fewer started than it has.
pub proof fn cancelled_job_starts_nothing(j: JobView, k: nat)
    requires
        j.cancelled,
    ensures
        after_begins(j, k) == j,
        j.started < j.total ==> after_begins(j, k).started < j.total,
    decreases k,
{
    if k > 0 {
        cancelled_job_starts_nothing(j, (k - 1) as nat);
    }
}

/// A progress report of a background job.
#[derive(Debug)]
pub struct ProgressEvent {
    pub name: String,
    pub current: usize,
    pub total: usize,
    pub filename: String,
    /// `"processing"` or `"done"`.
    pub status: String,
}

impl ProgressEvent {
    /// The report that an item has been started.
    pub fn processing(name: String, current: usize, total: usize, filename: String) -> (r:
        ProgressEvent)
        ensures
            r.name == name,
            r.current == current,
            r.total == total,
            r.filename == filename,
            r.status@ == "processing"@,
    {
        ProgressEvent { name, current, total, filename, status: String::from_str("processing") }
    }

    /// The report that the job has ended.
    pub fn done(name: String, total: usize) -> (r: ProgressEvent)
        ensures
            r.name == name,
            r.current == total,
            r.total == total,
            r.filename@ == "Selesai!"@,
            r.status@ == "done"@,
    {
        ProgressEvent {
            name,
            current: total,
            total,
            filename: String::from_str("Selesai!"),
            status: String::from_str("done"),
        }
    }
}

/// How the thumbnail of an image is made.
#[derive(PartialEq, Eq, Structural, Clone, Copy, Debug)]
pub enum ThumbnailPlan {
    /// The image is its own thumbnail (vector images).
    UseOriginal,
    /// The image is decoded, scaled down and encoded.
    Render,
}

/// How the thumbnail of an image with an extension is made: SVG files, in any
/// case, are their own thumbnail.
pub fn thumbnail_plan(ext: &str) -> (r: ThumbnailPlan)
    ensures
        r == (if lower_of(ext@) == "svg"@ {
            ThumbnailPlan::UseOriginal
        } else {
            ThumbnailPlan::Render
        }),
{
    let l = lowercase(ext);
    if same_chars(l.as_str(), "svg") {
        ThumbnailPlan::UseOriginal
    } else {
        ThumbnailPlan::Render
    }
}

/// The height that keeps the aspect ratio of a `width` x `height` image
/// scaled to `target_width`, rounded down. `None` when a side is zero, or
/// when the height would be zero or would not fit in `u32`.
pub open spec fn scaled_height(width: u32, height: u32, target_width: u32) -> Option<u32> {
    if width > 0 && height > 0 && target_width > 0 && 0 < (target_width as int * height as int)
        / width as int <= u32::MAX {
        Some(((target_width as int * height as int) / width as int) as u32)
    } else {
        None
    }
}

/// The height that keeps the aspect ratio of a `width` x `height` image
/// scaled to `target_width`, rounded down. `None` when a side is zero, or
/// when the height would be zero or would not fit in `u32`.
pub fn thumbnail_height(width: u32, height: u32, target_width: u32) -> (r: Option<u32>)
    ensures
        r == scaled_height(width, height, target_width),
{
    if width == 0 || height == 0 || target_width == 0 {
        return None;
    }
    let a: u64 = target_width as u64;
    let b: u64 = height as u64;
    assert(a * b <= 0xffff_ffffu64 * 0xffff_ffffu64) by (nonlinear_arith)
        requires
            a <= 0xffff_ffffu64,
            b <= 0xffff_ffffu64,
    ;
    let p: u64 = a * b;
    let q: u64 = p / width as u64;
    if q == 0 || q > u32::MAX as u64 {
        None
    } else {
        Some(q as u32)
    }
}

/// How many worker threads background jobs use: half the processors, at
/// least one, so that the rest stay free for the interface.
pub fn worker_threads(cores: usize) -> (r: usize)
    ensures
        r == (if cores / 2 >= 1 { cores / 2 } else { 1 }),
{
    if cores / 2 >= 1 {
        cores / 2
    } else {
        1
    }
}

} // verus!
