use vstd::prelude::*;
use crate::media::MediaKind;
use crate::waveform::UNIT_PEAK;

verus! {

/// The number of bars in a finished waveform.
pub const WAVEFORM_BARS: usize = 100;

/// What is known of a file beyond its kind; `Unknown` until something is read.
#[derive(PartialEq, Eq, Debug)]
pub enum AssetMetadata {
    Audio { sample_rate: u32, bitrate: u32, artist: Option<String> },
    /// `fps_millis` is the frame rate times one thousand.
    Video { width: u32, height: u32, fps_millis: u32 },
    Image { width: u32, height: u32, format: String },
    Unknown,
}

/// A file as observed on disk, ready to become a row.
#[derive(Debug)]
pub struct FileEntry {
    pub filename: String,
    pub extension: String,
    pub path: String,
    pub kind: MediaKind,
    pub size: u64,
}

/// One row of the catalog.
///
/// `waveform` holds one peak code per bar: the bit pattern of a non-negative
/// magnitude, so that codes order as the magnitudes do. It is empty until the
/// waveform has been generated.
#[derive(Debug)]
pub struct Asset {
    pub id: u64,
    pub filename: String,
    pub extension: String,
    pub original_path: String,
    pub kind: MediaKind,
    pub thumbnail_path: Option<String>,
    pub duration_ms: u64,
    pub file_size: u64,
    pub waveform: Vec<u32>,
    pub metadata: AssetMetadata,
}

/// The mathematical value of a row.
pub struct AssetView {
    pub id: u64,
    pub filename: Seq<char>,
    pub extension: Seq<char>,
    pub path: Seq<char>,
    pub kind: MediaKind,
    pub thumbnail: Option<Seq<char>>,
    pub duration_ms: u64,
    pub file_size: u64,
    pub waveform: Seq<u32>,
    pub metadata: AssetMetadata,
}

pub open spec fn opt_view(s: Option<String>) -> Option<Seq<char>> {
    match s {
        Some(x) => Some(x@),
        None => None,
    }
}

impl View for Asset {
    type V = AssetView;

    open spec fn view(&self) -> AssetView {
        AssetView {
            id: self.id,
            filename: self.filename@,
            extension: self.extension@,
            path: self.original_path@,
            kind: self.kind,
            thumbnail: opt_view(self.thumbnail_path),
            duration_ms: self.duration_ms,
            file_size: self.file_size,
            waveform: self.waveform@,
            metadata: self.metadata,
        }
    }
}

/// The row that a newly seen file becomes under a given id: no artifacts yet.
pub open spec fn fresh_row(e: FileEntry, id: u64) -> AssetView {
    AssetView {
        id,
        filename: e.filename@,
        extension: e.extension@,
        path: e.path@,
        kind: e.kind,
        thumbnail: None,
        duration_ms: 0,
        file_size: e.size,
        waveform: Seq::empty(),
        metadata: AssetMetadata::Unknown,
    }
}

/// A waveform is either not generated (empty) or has exactly one value per
/// bar, each at most 1.0.
pub open spec fn waveform_ok(w: Seq<u32>) -> bool {
    w.len() == 0 || (w.len() == WAVEFORM_BARS && forall|j: int| 0 <= j < w.len() ==> #[trigger] w[j]
        <= UNIT_PEAK)
}

/// Whether a waveform may be stored.
pub fn waveform_valid(w: &Vec<u32>) -> (r: bool)
    ensures
        r == waveform_ok(w@),
{
    if w.len() == 0 {
        return true;
    }
    if w.len() != WAVEFORM_BARS {
        return false;
    }
    let mut i: usize = 0;
    while i < w.len()
        invariant
            i <= w@.len(),
            forall|j: int| 0 <= j < i ==> #[trigger] w@[j] <= UNIT_PEAK,
        decreases w@.len() - i,
    {
        if w[i] > UNIT_PEAK {
            return false;
        }
        i = i + 1;
    }
    true
}

pub fn copy_string(s: &String) -> (r: String)
    ensures
        r == *s,
{
    s.clone()
}

pub fn copy_opt_string(s: &Option<String>) -> (r: Option<String>)
    ensures
        r == *s,
{
    match s {
        Some(x) => Some(x.clone()),
        None => None,
    }
}

pub fn copy_codes(v: &Vec<u32>) -> (r: Vec<u32>)
    ensures
        r@ == v@,
{
    let mut r: Vec<u32> = Vec::new();
    let mut i: usize = 0;
    while i < v.len()
        invariant
            i <= v.len(),
            r@ == v@.subrange(0, i as int),
        decreases v.len() - i,
    {
        r.push(v[i]);
        i = i + 1;
    }
    assert(r@ =~= v@);
    r
}

impl AssetMetadata {
    pub fn duplicate(&self) -> (r: AssetMetadata)
        ensures
            r == *self,
    {
        match self {
            AssetMetadata::Audio { sample_rate, bitrate, artist } => AssetMetadata::Audio {
                sample_rate: *sample_rate,
                bitrate: *bitrate,
                artist: copy_opt_string(artist),
            },
            AssetMetadata::Video { width, height, fps_millis } => AssetMetadata::Video {
                width: *width,
                height: *height,
                fps_millis: *fps_millis,
            },
            AssetMetadata::Image { width, height, format } => AssetMetadata::Image {
                width: *width,
                height: *height,
                format: copy_string(format),
            },
            AssetMetadata::Unknown => AssetMetadata::Unknown,
        }
    }
}

impl FileEntry {
    pub fn duplicate(&self) -> (r: FileEntry)
        ensures
            r == *self,
    {
        FileEntry {
            filename: copy_string(&self.filename),
            extension: copy_string(&self.extension),
            path: copy_string(&self.path),
            kind: self.kind,
            size: self.size,
        }
    }
}

impl Asset {
    /// A row for a newly seen file.
    pub fn from_entry(e: &FileEntry, id: u64) -> (r: Asset)
        ensures
            r@ == fresh_row(*e, id),
    {
        let r = Asset {
            id,
            filename: copy_string(&e.filename),
            extension: copy_string(&e.extension),
            original_path: copy_string(&e.path),
            kind: e.kind,
            thumbnail_path: None,
            duration_ms: 0,
            file_size: e.size,
            waveform: Vec::new(),
            metadata: AssetMetadata::Unknown,
        };
        assert(r@.waveform =~= Seq::<u32>::empty());
        r
    }

    pub fn duplicate(&self) -> (r: Asset)
        ensures
            r@ == self@,
    {
        Asset {
            id: self.id,
            filename: copy_string(&self.filename),
            extension: copy_string(&self.extension),
            original_path: copy_string(&self.original_path),
            kind: self.kind,
            thumbnail_path: copy_opt_string(&self.thumbnail_path),
            duration_ms: self.duration_ms,
            file_size: self.file_size,
            waveform: copy_codes(&self.waveform),
            metadata: self.metadata.duplicate(),
        }
    }
}

} // verus!
