use media_catalog::{
    Asset, AssetMetadata, Catalog, FileEntry, FsEvent, FsEventKind, MediaKind, ObservedPath,
    ScanBatcher, WatchAction, WatchSession, SCAN_BATCH, WAVEFORM_BARS, get_count_assets,
};

fn entry(path: &str, kind: MediaKind, size: u64) -> FileEntry {
    let filename = path.rsplit('/').next().unwrap().to_string();
    let extension = filename.rsplit('.').next().unwrap().to_string();
    FileEntry { filename, extension, path: path.to_string(), kind, size }
}

fn observed(path: &str, is_file: bool, size: Option<u64>) -> ObservedPath {
    let filename = path.rsplit('/').next().unwrap().to_string();
    let extension = if filename.contains('.') {
        Some(filename.rsplit('.').next().unwrap().to_string())
    } else {
        None
    };
    ObservedPath { path: path.to_string(), is_file, filename, extension, size }
}

fn paths(c: &Catalog) -> Vec<String> {
    (0..c.len()).map(|i| c.row(i).original_path.clone()).collect()
}

fn apply_event(s: &mut WatchSession, c: &mut Catalog, kind: FsEventKind, ps: Vec<ObservedPath>) {
    let ev = FsEvent { kind, paths: ps };
    for a in s.decide(&ev) {
        c.apply(&a);
    }
}

#[test]
fn insert_assigns_increasing_ids() {
    let mut c = Catalog::new();
    assert!(c.insert_or_ignore(&entry("/m/a.png", MediaKind::Image, 10)));
    assert!(c.insert_or_ignore(&entry("/m/b.mp3", MediaKind::Audio, 20)));
    assert_eq!(c.len(), 2);
    assert_eq!(c.row(0).id, 1);
    assert_eq!(c.row(1).id, 2);
    assert_eq!(c.next_id(), 3);
    let a = c.row(0);
    assert_eq!(a.filename, "a.png");
    assert_eq!(a.extension, "png");
    assert_eq!(a.kind, MediaKind::Image);
    assert_eq!(a.file_size, 10);
    assert_eq!(a.thumbnail_path, None);
    assert!(a.waveform.is_empty());
    assert_eq!(a.metadata, AssetMetadata::Unknown);
}

#[test]
fn duplicate_path_is_ignored() {
    let mut c = Catalog::new();
    assert!(c.insert_or_ignore(&entry("/m/a.png", MediaKind::Image, 10)));
    assert!(!c.insert_or_ignore(&entry("/m/a.png", MediaKind::Image, 99)));
    assert_eq!(c.len(), 1);
    assert_eq!(c.row(0).file_size, 10);
}

#[test]
fn scanning_twice_keeps_row_count_and_unique_paths() {
    let files: Vec<FileEntry> = (0..120)
        .map(|i| entry(&format!("/m/f{}.jpg", i), MediaKind::Image, i as u64))
        .collect();
    let mut c = Catalog::new();
    assert_eq!(c.insert_batch(&files), 120);
    let first = paths(&c);
    assert_eq!(c.insert_batch(&files), 0);
    assert_eq!(c.len(), 120);
    let second = paths(&c);
    assert_eq!(first, second);
    let mut sorted = second.clone();
    sorted.sort();
    sorted.dedup();
    assert_eq!(sorted.len(), 120);
}

#[test]
fn batch_with_repeated_path_inserts_once() {
    let files = vec![
        entry("/m/a.wav", MediaKind::Audio, 1),
        entry("/m/a.wav", MediaKind::Audio, 2),
        entry("/m/b.wav", MediaKind::Audio, 3),
    ];
    let mut c = Catalog::new();
    assert_eq!(c.insert_batch(&files), 2);
    assert_eq!(c.row(0).file_size, 1);
}

#[test]
fn upsert_refreshes_size_only() {
    let mut c = Catalog::new();
    c.upsert(&entry("/m/a.png", MediaKind::Image, 10));
    c.upsert(&FileEntry {
        filename: "other.png".to_string(),
        extension: "png".to_string(),
        path: "/m/a.png".to_string(),
        kind: MediaKind::Image,
        size: 77,
    });
    assert_eq!(c.len(), 1);
    assert_eq!(c.row(0).file_size, 77);
    assert_eq!(c.row(0).filename, "a.png");
}

#[test]
fn remove_missing_path_is_no_error() {
    let mut c = Catalog::new();
    c.insert_or_ignore(&entry("/m/a.png", MediaKind::Image, 10));
    assert!(!c.remove_path(&"/m/zzz.png".to_string()));
    assert_eq!(c.len(), 1);
    assert!(c.remove_path(&"/m/a.png".to_string()));
    assert_eq!(c.len(), 0);
}

#[test]
fn clear_restarts_ids() {
    let mut c = Catalog::new();
    c.insert_or_ignore(&entry("/m/a.png", MediaKind::Image, 10));
    c.insert_or_ignore(&entry("/m/b.png", MediaKind::Image, 10));
    c.clear();
    assert_eq!(c.len(), 0);
    c.insert_or_ignore(&entry("/m/c.png", MediaKind::Image, 10));
    assert_eq!(c.row(0).id, 1);
}

#[test]
fn artifacts_are_recorded_by_id() {
    let mut c = Catalog::new();
    c.insert_or_ignore(&entry("/m/a.png", MediaKind::Image, 10));
    c.insert_or_ignore(&entry("/m/b.mp3", MediaKind::Audio, 10));
    assert!(c.set_thumbnail(1, &"/thumbs/1.webp".to_string()));
    assert!(!c.set_thumbnail(9, &"/thumbs/9.webp".to_string()));
    assert_eq!(c.row(0).thumbnail_path.as_deref(), Some("/thumbs/1.webp"));
    assert!(c.set_metadata(1, AssetMetadata::Image { width: 4, height: 2, format: "png".to_string() }));
    assert!(!c.set_waveform(2, vec![0; 10]));
    assert!(!c.set_waveform(2, vec![0x3F80_0001; WAVEFORM_BARS]));
    assert!(c.set_waveform(2, vec![0x3F00_0000; WAVEFORM_BARS]));
    assert_eq!(c.row(1).waveform.len(), WAVEFORM_BARS);
}

#[test]
fn restore_rows_in_id_order() {
    let mut c = Catalog::new();
    let mut a = Asset::from_entry(&entry("/m/a.png", MediaKind::Image, 1), 5);
    a.thumbnail_path = Some("/t/5.webp".to_string());
    assert!(c.restore_row(a));
    assert!(!c.restore_row(Asset::from_entry(&entry("/m/b.png", MediaKind::Image, 1), 3)));
    assert!(!c.restore_row(Asset::from_entry(&entry("/m/a.png", MediaKind::Image, 1), 8)));
    assert_eq!(c.next_id(), 6);
    c.reserve_ids(40);
    c.insert_or_ignore(&entry("/m/c.png", MediaKind::Image, 1));
    assert_eq!(c.row(1).id, 40);
}

#[test]
fn rename_pair_moves_row_and_keeps_artifacts() {
    let mut c = Catalog::new();
    c.insert_or_ignore(&entry("/m/song.mp3", MediaKind::Audio, 10));
    c.insert_or_ignore(&entry("/m/pic.png", MediaKind::Image, 10));
    c.set_thumbnail(2, &"/t/2.webp".to_string());
    c.set_waveform(1, vec![7; WAVEFORM_BARS]);
    let mut s = WatchSession::new();
    apply_event(&mut s, &mut c, FsEventKind::RenameFrom, vec![observed("/m/pic.png", false, None)]);
    assert_eq!(s.pending_from.as_deref(), Some("/m/pic.png"));
    apply_event(&mut s, &mut c, FsEventKind::RenameTo, vec![observed("/m/picture.PNG", true, Some(55))]);
    assert_eq!(s.pending_from, None);
    assert_eq!(c.len(), 2);
    let r = c.row(1);
    assert_eq!(r.id, 2);
    assert_eq!(r.original_path, "/m/picture.PNG");
    assert_eq!(r.filename, "picture.PNG");
    assert_eq!(r.extension, "PNG");
    assert_eq!(r.file_size, 55);
    assert_eq!(r.thumbnail_path.as_deref(), Some("/t/2.webp"));
    apply_event(&mut s, &mut c, FsEventKind::RenameFrom, vec![observed("/m/song.mp3", false, None)]);
    apply_event(&mut s, &mut c, FsEventKind::RenameTo, vec![observed("/m/tune.ogg", true, Some(3))]);
    assert_eq!(c.row(0).original_path, "/m/tune.ogg");
    assert_eq!(c.row(0).waveform, vec![7; WAVEFORM_BARS]);
}

#[test]
fn rename_to_unknown_extension_deletes_row() {
    let mut c = Catalog::new();
    c.insert_or_ignore(&entry("/m/a.png", MediaKind::Image, 10));
    let mut s = WatchSession::new();
    apply_event(&mut s, &mut c, FsEventKind::RenameFrom, vec![observed("/m/a.png", false, None)]);
    apply_event(&mut s, &mut c, FsEventKind::RenameTo, vec![observed("/m/a.txt", true, Some(10))]);
    assert_eq!(c.len(), 0);
}

#[test]
fn rename_without_pending_from_is_a_create() {
    let mut c = Catalog::new();
    let mut s = WatchSession::new();
    apply_event(&mut s, &mut c, FsEventKind::RenameTo, vec![observed("/m/new.mkv", true, Some(4))]);
    assert_eq!(c.len(), 1);
    assert_eq!(c.row(0).kind, MediaKind::Video);
}

#[test]
fn rename_onto_existing_path_is_refused() {
    let mut c = Catalog::new();
    c.insert_or_ignore(&entry("/m/a.png", MediaKind::Image, 1));
    c.insert_or_ignore(&entry("/m/b.png", MediaKind::Image, 2));
    let e = entry("/m/b.png", MediaKind::Image, 3);
    assert!(!c.apply(&WatchAction::Rename { from: "/m/a.png".to_string(), entry: e }));
    assert_eq!(paths(&c), vec!["/m/a.png".to_string(), "/m/b.png".to_string()]);
}

#[test]
fn create_and_modify_events_upsert_media_files_only() {
    let mut c = Catalog::new();
    let mut s = WatchSession::new();
    apply_event(
        &mut s,
        &mut c,
        FsEventKind::Create,
        vec![
            observed("/m/a.flac", true, Some(5)),
            observed("/m/notes.txt", true, Some(5)),
            observed("/m/dir.png", false, None),
            observed("/m/b.gif", true, None),
        ],
    );
    assert_eq!(paths(&c), vec!["/m/a.flac".to_string()]);
    apply_event(&mut s, &mut c, FsEventKind::Modify, vec![observed("/m/a.flac", true, Some(9))]);
    assert_eq!(c.len(), 1);
    assert_eq!(c.row(0).file_size, 9);
}

#[test]
fn remove_events_delete_media_rows() {
    let mut c = Catalog::new();
    c.insert_or_ignore(&entry("/m/a.png", MediaKind::Image, 1));
    c.insert_or_ignore(&entry("/m/b.wav", MediaKind::Audio, 1));
    let mut s = WatchSession::new();
    let ev = FsEvent {
        kind: FsEventKind::Remove,
        paths: vec![observed("/m/a.png", false, None), observed("/m/x.txt", false, None)],
    };
    let acts = s.decide(&ev);
    assert_eq!(acts.len(), 1);
    for a in &acts {
        c.apply(a);
    }
    assert_eq!(paths(&c), vec!["/m/b.wav".to_string()]);
}

#[test]
fn other_events_change_nothing() {
    let mut s = WatchSession::new();
    let ev = FsEvent { kind: FsEventKind::Other, paths: vec![observed("/m/a.png", true, Some(1))] };
    assert!(s.decide(&ev).is_empty());
}

#[test]
fn counts_by_kind() {
    let mut c = Catalog::new();
    c.insert_or_ignore(&entry("/m/a.png", MediaKind::Image, 1));
    c.insert_or_ignore(&entry("/m/b.png", MediaKind::Image, 1));
    c.insert_or_ignore(&entry("/m/c.mp4", MediaKind::Video, 1));
    assert_eq!(get_count_assets(&c, "all"), 3);
    assert_eq!(get_count_assets(&c, "image"), 2);
    assert_eq!(get_count_assets(&c, "video"), 1);
    assert_eq!(get_count_assets(&c, "audio"), 0);
    assert_eq!(get_count_assets(&c, "sfx"), 0);
}

#[test]
fn scan_batcher_hands_over_full_batches() {
    let mut b = ScanBatcher::new();
    let mut handed = 0;
    for i in 0..120 {
        if let Some((batch, p)) = b.push(entry(&format!("/m/{}.png", i), MediaKind::Image, 1)) {
            assert_eq!(batch.len(), SCAN_BATCH);
            handed += batch.len();
            assert_eq!(p.count, handed);
            assert_eq!(p.last_file, format!("{}.png", i));
            assert!(!p.finished);
        }
    }
    assert_eq!(handed, 100);
    let (rest, p) = b.finish();
    assert_eq!(rest.len(), 20);
    assert_eq!(p.count, 120);
    assert_eq!(p.last_file, "");
    assert!(p.finished);
}
