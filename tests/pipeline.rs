use media_catalog::{
    ApiResponse, Artifact, Catalog, DependencyStatus, FileEntry, GenerationJob, MediaKind,
    ProgressEvent, ThumbnailError, ThumbnailPlan, UNIT_PEAK, WAVEFORM_BARS, classify_extension,
    get_media_type, is_schema_valid, generate_thumbnail_buffer, thumbnail_height, thumbnail_plan,
    waveform_from_peaks, worker_threads,
};

fn cols(names: &[&str]) -> Vec<String> {
    names.iter().map(|s| s.to_string()).collect()
}

const EXPECTED: [&str; 10] = [
    "id",
    "filename",
    "extension",
    "original_path",
    "type",
    "thumbnail_path",
    "duration_sec",
    "file_size",
    "waveform_data",
    "metadata",
];

#[test]
fn media_types_by_extension() {
    assert_eq!(get_media_type("jpg"), Some("image".to_string()));
    assert_eq!(get_media_type("JPEG"), Some("image".to_string()));
    assert_eq!(get_media_type("Svg"), Some("image".to_string()));
    assert_eq!(get_media_type("mkv"), Some("video".to_string()));
    assert_eq!(get_media_type("AIFF"), Some("audio".to_string()));
    assert_eq!(get_media_type("m4a"), Some("audio".to_string()));
    assert_eq!(get_media_type("txt"), None);
    assert_eq!(get_media_type(""), None);
    assert_eq!(classify_extension("WebM"), Some(MediaKind::Video));
    assert_eq!(MediaKind::from_name("audio"), Some(MediaKind::Audio));
    assert_eq!(MediaKind::Image.name(), "image");
}

#[test]
fn schema_with_exact_columns_is_valid() {
    assert!(is_schema_valid(&cols(&EXPECTED)));
    let mut shuffled = cols(&EXPECTED);
    shuffled.reverse();
    assert!(is_schema_valid(&shuffled));
}

#[test]
fn schema_without_table_is_valid() {
    assert!(is_schema_valid(&Vec::new()));
}

#[test]
fn schema_with_extra_column_is_invalid() {
    let mut c = cols(&EXPECTED);
    c.push("uuid".to_string());
    assert!(!is_schema_valid(&c));
}

#[test]
fn schema_with_missing_or_renamed_column_is_invalid() {
    let mut c = cols(&EXPECTED);
    c.pop();
    assert!(!is_schema_valid(&c));
    let mut d = cols(&EXPECTED);
    d[4] = "type_name".to_string();
    assert!(!is_schema_valid(&d));
}

#[test]
fn waveform_of_no_packets_is_silent() {
    let w = waveform_from_peaks(&Vec::new(), WAVEFORM_BARS);
    assert_eq!(w, vec![0; WAVEFORM_BARS]);
}

#[test]
fn waveform_takes_the_peak_of_each_chunk() {
    let peaks: Vec<u32> = (1..=200).collect();
    let w = waveform_from_peaks(&peaks, 100);
    assert_eq!(w.len(), 100);
    assert_eq!(w[0], 2);
    assert_eq!(w[1], 4);
    assert_eq!(w[99], 200);
    let uneven: Vec<u32> = vec![5, 1, 9, 3, 7];
    assert_eq!(waveform_from_peaks(&uneven, 2), vec![5, 9]);
}

#[test]
fn waveform_with_few_packets_pads_with_zeros() {
    let w = waveform_from_peaks(&vec![3, 8], 4);
    assert_eq!(w, vec![3, 8, 0, 0]);
}

#[test]
fn waveform_values_stay_within_one() {
    let loud = vec![0x4000_0000u32; 300];
    let w = waveform_from_peaks(&loud, WAVEFORM_BARS);
    assert_eq!(w.len(), WAVEFORM_BARS);
    assert!(w.iter().all(|&v| v == UNIT_PEAK));
    assert_eq!(f32::from_bits(UNIT_PEAK), 1.0f32);
    let half = 0.5f32.to_bits();
    let w2 = waveform_from_peaks(&vec![half; 100], WAVEFORM_BARS);
    assert!(w2.iter().all(|&v| f32::from_bits(v) == 0.5));
}

#[test]
fn cancelled_job_processes_fewer_than_total() {
    let mut job = GenerationJob::new(1000);
    assert_eq!(job.begin_item(), Some(1));
    assert_eq!(job.begin_item(), Some(2));
    job.cancel();
    let mut more = 0;
    for _ in 0..1000 {
        if job.begin_item().is_some() {
            more += 1;
        }
    }
    assert_eq!(more, 0);
    assert!(job.started() < 1000);
    assert_eq!(job.started(), 2);
    assert!(job.is_cancelled());
}

#[test]
fn job_stops_after_last_item() {
    let mut job = GenerationJob::new(2);
    assert_eq!(job.begin_item(), Some(1));
    assert_eq!(job.begin_item(), Some(2));
    assert_eq!(job.begin_item(), None);
    assert_eq!(job.total(), 2);
}

#[test]
fn pending_work_selects_rows_lacking_artifacts() {
    let mut c = Catalog::new();
    for (p, k) in [
        ("/m/a.png", MediaKind::Image),
        ("/m/b.svg", MediaKind::Image),
        ("/m/c.mp3", MediaKind::Audio),
        ("/m/d.mp4", MediaKind::Video),
    ] {
        let filename = p.rsplit('/').next().unwrap().to_string();
        let extension = filename.rsplit('.').next().unwrap().to_string();
        c.insert_or_ignore(&FileEntry { filename, extension, path: p.to_string(), kind: k, size: 1 });
    }
    c.set_thumbnail(1, &"/t/1.webp".to_string());
    let thumbs = c.pending_work(Artifact::Thumbnail);
    assert_eq!(thumbs.len(), 1);
    assert_eq!(thumbs[0].id, 2);
    assert_eq!(thumbs[0].extension, "svg");
    let waves = c.pending_work(Artifact::Waveform);
    assert_eq!(waves.len(), 1);
    assert_eq!(waves[0].path, "/m/c.mp3");
    c.set_waveform(3, vec![0; WAVEFORM_BARS]);
    assert!(c.pending_work(Artifact::Waveform).is_empty());
}

#[test]
fn progress_events() {
    let p = ProgressEvent::processing("Sound".to_string(), 3, 10, "a.mp3".to_string());
    assert_eq!(p.status, "processing");
    assert_eq!(p.current, 3);
    let d = ProgressEvent::done("Sound".to_string(), 10);
    assert_eq!(d.status, "done");
    assert_eq!(d.current, 10);
    assert_eq!(d.filename, "Selesai!");
}

#[test]
fn svg_is_its_own_thumbnail() {
    assert_eq!(thumbnail_plan("svg"), ThumbnailPlan::UseOriginal);
    assert_eq!(thumbnail_plan("SVG"), ThumbnailPlan::UseOriginal);
    assert_eq!(thumbnail_plan("png"), ThumbnailPlan::Render);
}

#[test]
fn thumbnail_height_keeps_aspect() {
    assert_eq!(thumbnail_height(400, 200, 200), Some(100));
    assert_eq!(thumbnail_height(300, 200, 200), Some(133));
    assert_eq!(thumbnail_height(0, 200, 200), None);
    assert_eq!(thumbnail_height(1000, 1, 200), None);
    assert_eq!(thumbnail_height(100, 100, 0), None);
}

#[test]
fn thumbnail_buffer_makes_smaller_webp() {
    let img = image::RgbaImage::from_fn(40, 20, |x, y| image::Rgba([x as u8, y as u8, 7, 255]));
    let mut png: Vec<u8> = Vec::new();
    image::DynamicImage::ImageRgba8(img)
        .write_to(&mut std::io::Cursor::new(&mut png), image::ImageFormat::Png)
        .unwrap();
    let out = generate_thumbnail_buffer(&png, 10).unwrap();
    assert_ne!(out, png);
    assert_eq!(&out[0..4], b"RIFF");
    let back = image::load_from_memory(&out).unwrap();
    assert_eq!((back.width(), back.height()), (10, 5));
}

#[test]
fn thumbnail_buffer_rejects_garbage() {
    assert_eq!(generate_thumbnail_buffer(b"not an image", 200), Err(ThumbnailError::Decode));
}

#[test]
fn worker_threads_leave_half_free() {
    assert_eq!(worker_threads(8), 4);
    assert_eq!(worker_threads(3), 1);
    assert_eq!(worker_threads(1), 1);
    assert_eq!(worker_threads(0), 1);
}

#[test]
fn responses() {
    let r = ApiResponse::new("started".to_string(), "Processing".to_string());
    assert_eq!(r.status, "Processing");
    let d = DependencyStatus::from_paths(Some("/bin/yt-dlp".to_string()), None, None);
    assert!(d.yt_dlp_installed);
    assert!(!d.ffmpeg_installed);
    assert_eq!(d.ffprobe_path, None);
}
