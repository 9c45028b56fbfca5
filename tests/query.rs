use media_catalog::{
    Catalog, FileEntry, KindFilter, MediaKind, QueryError, asset_matches, contains_ignoring_case,
    get_assets_paginated,
};

fn entry(path: &str, kind: MediaKind) -> FileEntry {
    let filename = path.rsplit('/').next().unwrap().to_string();
    let extension = filename.rsplit('.').next().unwrap().to_string();
    FileEntry { filename, extension, path: path.to_string(), kind, size: 1 }
}

fn catalog_of(n: usize) -> Catalog {
    let mut c = Catalog::new();
    for i in 0..n {
        c.insert_or_ignore(&entry(&format!("/lib/item{}.png", i), MediaKind::Image));
    }
    c
}

#[test]
fn pagination_of_101_rows() {
    let c = catalog_of(101);
    let p1 = get_assets_paginated(&c, 1, 20, "", "all").unwrap();
    assert_eq!(p1.total_items, 101);
    assert_eq!(p1.total_pages, 6);
    assert_eq!(p1.current_page, 1);
    assert_eq!(p1.data.len(), 20);
    assert_eq!(p1.data[0].id, 1);
    let p6 = get_assets_paginated(&c, 6, 20, "", "all").unwrap();
    assert_eq!(p6.data.len(), 1);
    assert_eq!(p6.data[0].id, 101);
    let p7 = get_assets_paginated(&c, 7, 20, "", "all").unwrap();
    assert_eq!(p7.data.len(), 0);
    assert_eq!(p7.total_pages, 6);
}

#[test]
fn page_zero_is_page_one() {
    let c = catalog_of(30);
    let p = get_assets_paginated(&c, 0, 20, "", "all").unwrap();
    assert_eq!(p.data.len(), 20);
    assert_eq!(p.data[0].id, 1);
    assert_eq!(p.current_page, 0);
}

#[test]
fn zero_page_size_is_refused() {
    let c = catalog_of(3);
    assert_eq!(get_assets_paginated(&c, 1, 0, "", "all").unwrap_err(), QueryError::ZeroPageSize);
}

#[test]
fn empty_catalog_has_no_pages() {
    let c = Catalog::new();
    let p = get_assets_paginated(&c, 1, 20, "", "all").unwrap();
    assert_eq!(p.total_items, 0);
    assert_eq!(p.total_pages, 0);
    assert!(p.data.is_empty());
}

#[test]
fn every_token_must_match_the_same_row() {
    let mut c = Catalog::new();
    c.insert_or_ignore(&entry("/x/foobar.png", MediaKind::Image));
    c.insert_or_ignore(&entry("/x/foo.png", MediaKind::Image));
    c.insert_or_ignore(&entry("/x/bar.png", MediaKind::Image));
    let p = get_assets_paginated(&c, 1, 20, "foo bar", "all").unwrap();
    assert_eq!(p.total_items, 1);
    let names: Vec<&str> = p.data.iter().map(|a| a.filename.as_str()).collect();
    assert_eq!(names, vec!["foobar.png"]);
}

#[test]
fn search_ignores_ascii_case_and_looks_at_paths() {
    let mut c = Catalog::new();
    c.insert_or_ignore(&entry("/Music/Rock/song.mp3", MediaKind::Audio));
    c.insert_or_ignore(&entry("/pics/Holiday.JPG", MediaKind::Image));
    let p = get_assets_paginated(&c, 1, 10, "HOLIDAY", "all").unwrap();
    assert_eq!(p.total_items, 1);
    assert_eq!(p.data[0].filename, "Holiday.JPG");
    let q = get_assets_paginated(&c, 1, 10, "  rock  ", "all").unwrap();
    assert_eq!(q.total_items, 1);
    assert_eq!(q.data[0].filename, "song.mp3");
    let r = get_assets_paginated(&c, 1, 10, "   ", "all").unwrap();
    assert_eq!(r.total_items, 2);
}

#[test]
fn kind_filter_restricts_listing() {
    let mut c = Catalog::new();
    c.insert_or_ignore(&entry("/a/one.png", MediaKind::Image));
    c.insert_or_ignore(&entry("/a/two.wav", MediaKind::Audio));
    let p = get_assets_paginated(&c, 1, 10, "", "audio").unwrap();
    assert_eq!(p.total_items, 1);
    assert_eq!(p.data[0].filename, "two.wav");
    let q = get_assets_paginated(&c, 1, 10, "", "sfx").unwrap();
    assert_eq!(q.total_items, 0);
    assert_eq!(KindFilter::parse("all"), KindFilter::All);
    assert_eq!(KindFilter::parse("video"), KindFilter::Only(MediaKind::Video));
    assert_eq!(KindFilter::parse("Video"), KindFilter::Nothing);
}

#[test]
fn substring_search_ignoring_case() {
    assert!(contains_ignoring_case(b"FooBar.png", b"obA"));
    assert!(contains_ignoring_case(b"abc", b""));
    assert!(!contains_ignoring_case(b"ab", b"abc"));
    assert!(!contains_ignoring_case(b"abc", b"abd"));
    let mut c = Catalog::new();
    c.insert_or_ignore(&entry("/q/Track.MP3", MediaKind::Audio));
    let toks = vec!["track".to_string(), "/Q/".to_string()];
    assert!(asset_matches(c.row(0), &toks, KindFilter::All));
    assert!(!asset_matches(c.row(0), &toks, KindFilter::Only(MediaKind::Image)));
}
