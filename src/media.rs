use vstd::prelude::*;

verus! {

/// The three kinds of media the catalog keeps.
#[derive(PartialEq, Eq, Structural, Clone, Copy, Debug)]
pub enum MediaKind {
    Image,
    Video,
    Audio,
}

/// The kind that a lower-case extension stands for; `None` for every other
/// extension, which the catalog ignores.
pub open spec fn kind_of_lower(e: Seq<char>) -> Option<MediaKind> {
    if e == "jpg"@ || e == "jpeg"@ || e == "png"@ || e == "webp"@ || e == "gif"@ || e == "bmp"@
        || e == "svg"@ || e == "ico"@ {
        Some(MediaKind::Image)
    } else if e == "mp4"@ || e == "mkv"@ || e == "mov"@ || e == "avi"@ || e == "webm"@ || e
        == "flv"@ || e == "wmv"@ {
        Some(MediaKind::Video)
    } else if e == "mp3"@ || e == "wav"@ || e == "ogg"@ || e == "flac"@ || e == "aac"@ || e
        == "m4a"@ || e == "wma"@ || e == "aiff"@ {
        Some(MediaKind::Audio)
    } else {
        None
    }
}

/// The name under which a kind is stored and reported.
pub open spec fn kind_name(k: MediaKind) -> Seq<char> {
    match k {
        MediaKind::Image => "image"@,
        MediaKind::Video => "video"@,
        MediaKind::Audio => "audio"@,
    }
}

/// What `str::to_lowercase` makes of a string.
pub uninterp spec fn lower_of(s: Seq<char>) -> Seq<char>;

/// Relies on `str::to_lowercase`: the Unicode lower-case mapping, which depends
/// on the characters alone.
#[verifier::external_body]
pub(crate) fn lowercase(s: &str) -> (r: String)
    ensures
        r@ == lower_of(s@),
{
    s.to_lowercase()
}

/// Whether two strings hold the same characters.
pub fn same_chars(a: &str, b: &str) -> (r: bool)
    ensures
        r == (a@ == b@),
{
    let n = a.unicode_len();
    if n != b.unicode_len() {
        return false;
    }
    let mut i: usize = 0;
    while i < n
        invariant
            n == a@.len(),
            n == b@.len(),
            i <= n,
            forall|j: int| 0 <= j < i ==> a@[j] == b@[j],
        decreases n - i,
    {
        if a.get_char(i) != b.get_char(i) {
            return false;
        }
        i = i + 1;
    }
    assert(a@ =~= b@);
    true
}

/// The kind of an extension that is already in lower case.
pub fn media_kind_of_lower(e: &str) -> (r: Option<MediaKind>)
    ensures
        r == kind_of_lower(e@),
{
    if same_chars(e, "jpg") || same_chars(e, "jpeg") || same_chars(e, "png") || same_chars(
        e,
        "webp",
    ) || same_chars(e, "gif") || same_chars(e, "bmp") || same_chars(e, "svg") || same_chars(
        e,
        "ico",
    ) {
        Some(MediaKind::Image)
    } else if same_chars(e, "mp4") || same_chars(e, "mkv") || same_chars(e, "mov") || same_chars(
        e,
        "avi",
    ) || same_chars(e, "webm") || same_chars(e, "flv") || same_chars(e, "wmv") {
        Some(MediaKind::Video)
    } else if same_chars(e, "mp3") || same_chars(e, "wav") || same_chars(e, "ogg") || same_chars(
        e,
        "flac",
    ) || same_chars(e, "aac") || same_chars(e, "m4a") || same_chars(e, "wma") || same_chars(
        e,
        "aiff",
    ) {
        Some(MediaKind::Audio)
    } else {
        None
    }
}

/// The kind of a file extension, whatever its case.
pub fn classify_extension(ext: &str) -> (r: Option<MediaKind>)
    ensures
        r == kind_of_lower(lower_of(ext@)),
{
    let l = lowercase(ext);
    media_kind_of_lower(l.as_str())
}

impl MediaKind {
    /// The stored name of the kind.
    pub fn name(&self) -> (r: String)
        ensures
            r@ == kind_name(*self),
    {
        match self {
            MediaKind::Image => String::from_str("image"),
            MediaKind::Video => String::from_str("video"),
            MediaKind::Audio => String::from_str("audio"),
        }
    }

    /// The kind stored under a name, if any.
    pub fn from_name(s: &str) -> (r: Option<MediaKind>)
        ensures
            r matches Some(k) ==> kind_name(k) == s@,
            r is None ==> (forall|k: MediaKind| kind_name(k) != s@),
    {
        if same_chars(s, "image") {
            Some(MediaKind::Image)
        } else if same_chars(s, "video") {
            Some(MediaKind::Video)
        } else if same_chars(s, "audio") {
            Some(MediaKind::Audio)
        } else {
            None
        }
    }
}

/// The stored name of the kind of an extension, whatever its case: `None` for
/// an extension the catalog ignores.
pub fn get_media_type(ext: &str) -> (r: Option<String>)
    ensures
        r is Some <==> kind_of_lower(lower_of(ext@)) is Some,
        r matches Some(s) ==> s@ == kind_name(kind_of_lower(lower_of(ext@))->0),
{
    match classify_extension(ext) {
        Some(k) => Some(k.name()),
        None => None,
    }
}

} // verus!
