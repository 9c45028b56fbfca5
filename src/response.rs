use vstd::prelude::*;

verus! {

/// The answer to a command: a message for the user and a status word.
#[derive(Debug)]
pub struct ApiResponse {
    pub message: String,
    pub status: String,
}

impl ApiResponse {
    pub fn new(message: String, status: String) -> (r: ApiResponse)
        ensures
            r.message == message,
            r.status == status,
    {
        ApiResponse { message, status }
    }
}

/// Which helper programs are installed, and where.
#[derive(Debug)]
pub struct DependencyStatus {
    pub yt_dlp_installed: bool,
    pub ffmpeg_installed: bool,
    pub ffprobe_installed: bool,
    pub yt_dlp_path: Option<String>,
    pub ffmpeg_path: Option<String>,
    pub ffprobe_path: Option<String>,
}

impl DependencyStatus {
    /// The status from the path of each helper, `None` where it is missing.
    pub fn from_paths(
        yt_dlp_path: Option<String>,
        ffmpeg_path: Option<String>,
        ffprobe_path: Option<String>,
    ) -> (r: DependencyStatus)
        ensures
            r.yt_dlp_installed == yt_dlp_path is Some,
            r.ffmpeg_installed == ffmpeg_path is Some,
            r.ffprobe_installed == ffprobe_path is Some,
            r.yt_dlp_path == yt_dlp_path,
            r.ffmpeg_path == ffmpeg_path,
            r.ffprobe_path == ffprobe_path,
    {
        DependencyStatus {
            yt_dlp_installed: yt_dlp_path.is_some(),
            ffmpeg_installed: ffmpeg_path.is_some(),
            ffprobe_installed: ffprobe_path.is_some(),
            yt_dlp_path,
            ffmpeg_path,
            ffprobe_path,
        }
    }
}

} // verus!
