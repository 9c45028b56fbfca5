use vstd::prelude::*;
use crate::asset::{FileEntry, copy_string};

verus! {

/// How many files the scanner gathers before it stores them.
pub const SCAN_BATCH: usize = 50;

/// A progress report of a scan.
#[derive(Debug)]
pub struct ScanProgress {
    /// Files handed over for storing so far.
    pub count: usize,
    /// The name of the last file handed over; empty when finished.
    pub last_file: String,
    pub finished: bool,
}

/// Gathers the media files a folder walk finds into batches of
/// `SCAN_BATCH`, counting what it has handed over.
#[derive(Debug)]
pub struct ScanBatcher {
    pending: Vec<FileEntry>,
    total: usize,
}

impl ScanBatcher {
    /// Files gathered and not yet handed over.
    pub closed spec fn pending(&self) -> Seq<FileEntry> {
        self.pending@
    }

    /// Files handed over so far.
    pub closed spec fn total(&self) -> nat {
        self.total as nat
    }

    pub closed spec fn wf(&self) -> bool {
        self.pending@.len() < SCAN_BATCH
    }

    #[verifier::type_invariant]
    pub closed spec fn inv(&self) -> bool {
        self.wf()
    }

    /// How many files have been handed over so far.
    pub fn handed_over(&self) -> (r: usize)
        ensures
            r == self.total(),
    {
        self.total
    }

    pub fn new() -> (r: ScanBatcher)
        ensures
            r.wf(),
            r.pending() == Seq::<FileEntry>::empty(),
            r.total() == 0,
    {
        ScanBatcher { pending: Vec::new(), total: 0 }
    }

    /// Adds a file. When that fills the batch, the batch is handed back to be
    /// stored, with the progress to report.
    pub fn push(&mut self, e: FileEntry) -> (r: Option<(Vec<FileEntry>, ScanProgress)>)
        requires
            old(self).total() + SCAN_BATCH <= usize::MAX,
        ensures
            final(self).wf(),
            old(self).pending().len() + 1 < SCAN_BATCH ==> r is None && final(self).pending()
                == old(self).pending().push(e) && final(self).total() == old(self).total(),
            old(self).pending().len() + 1 == SCAN_BATCH ==> (r matches Some((b, p)) && b@
                == old(self).pending().push(e) && final(self).pending() == Seq::<FileEntry>::empty()
                && final(self).total() == old(self).total() + SCAN_BATCH && p.count
                == final(self).total() && p.last_file == e.filename && !p.finished),
    {
        proof {
            use_type_invariant(&*self);
        }
        let name = copy_string(&e.filename);
        let mut batch: Vec<FileEntry> = Vec::new();
        std::mem::swap(&mut batch, &mut self.pending);
        batch.push(e);
        if batch.len() >= SCAN_BATCH {
            self.total = self.total + SCAN_BATCH;
            Some((batch, ScanProgress { count: self.total, last_file: name, finished: false }))
        } else {
            std::mem::swap(&mut batch, &mut self.pending);
            None
        }
    }

    /// Ends the walk: hands back the files not yet handed over and the final
    /// progress report.
    pub fn finish(self) -> (r: (Vec<FileEntry>, ScanProgress))
        requires
            self.total() + SCAN_BATCH <= usize::MAX,
        ensures
            r.0@ == self.pending(),
            r.1.count == self.total() + self.pending().len(),
            r.1.last_file@ == Seq::<char>::empty(),
            r.1.finished,
    {
        proof {
            use_type_invariant(&self);
        }
        let count = self.total + self.pending.len();
        (self.pending, ScanProgress { count, last_file: String::new(), finished: true })
    }
}

} // verus!
