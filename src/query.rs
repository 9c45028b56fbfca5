use vstd::prelude::*;
use crate::asset::{Asset, AssetView};
use crate::catalog::{Catalog, CatalogView};
use crate::media::{MediaKind, kind_name, same_chars};

verus! {

/// Which kinds a listing or a count takes.
#[derive(PartialEq, Eq, Structural, Clone, Copy, Debug)]
pub enum KindFilter {
    /// Every kind.
    All,
    /// One kind.
    Only(MediaKind),
    /// A name that is no kind: no row passes.
    Nothing,
}

pub open spec fn kind_passes(f: KindFilter, k: MediaKind) -> bool {
    match f {
        KindFilter::All => true,
        KindFilter::Only(x) => x == k,
        KindFilter::Nothing => false,
    }
}

/// The filter that a kind name from the user stands for: `"all"` takes every
/// kind.
pub open spec fn filter_of(s: Seq<char>) -> KindFilter {
    if s == "all"@ {
        KindFilter::All
    } else if s == kind_name(MediaKind::Image) {
        KindFilter::Only(MediaKind::Image)
    } else if s == kind_name(MediaKind::Video) {
        KindFilter::Only(MediaKind::Video)
    } else if s == kind_name(MediaKind::Audio) {
        KindFilter::Only(MediaKind::Audio)
    } else {
        KindFilter::Nothing
    }
}

impl KindFilter {
    pub fn parse(s: &str) -> (r: KindFilter)
        ensures
            r == filter_of(s@),
    {
        if same_chars(s, "all") {
            KindFilter::All
        } else if same_chars(s, "image") {
            KindFilter::Only(MediaKind::Image)
        } else if same_chars(s, "video") {
            KindFilter::Only(MediaKind::Video)
        } else if same_chars(s, "audio") {
            KindFilter::Only(MediaKind::Audio)
        } else {
            KindFilter::Nothing
        }
    }
}

/// The UTF-8 bytes of a string.
pub open spec fn bytes_of(s: Seq<char>) -> Seq<u8> {
    vstd::utf8::encode_utf8(s)
}

/// ASCII upper-case letters to lower case; every other byte stays.
pub open spec fn fold(b: u8) -> u8 {
    if 65 <= b <= 90 {
        (b + 32) as u8
    } else {
        b
    }
}

/// Whether `needle` occurs in `hay` at `i`, ignoring ASCII case.
pub open spec fn folded_at(hay: Seq<u8>, needle: Seq<u8>, i: int) -> bool {
    &&& 0 <= i
    &&& i + needle.len() <= hay.len()
    &&& forall|j: int| 0 <= j < needle.len() ==> fold(#[trigger] hay[i + j]) == fold(needle[j])
}

/// Whether `needle` occurs in `hay`, ignoring ASCII case.
pub open spec fn contains_folded(hay: Seq<u8>, needle: Seq<u8>) -> bool {
    exists|i: int| folded_at(hay, needle, i)
}

/// Whether a row passes the kind filter and every token occurs in its file
/// name or in its path.
pub open spec fn row_matches(a: AssetView, tokens: Seq<Seq<char>>, f: KindFilter) -> bool {
    &&& kind_passes(f, a.kind)
    &&& forall|t: int|
        0 <= t < tokens.len() ==> contains_folded(bytes_of(a.filename), bytes_of(#[trigger] tokens[t]))
            || contains_folded(bytes_of(a.path), bytes_of(tokens[t]))
}

/// The rows that match, in catalog order.
pub open spec fn matching(rows: Seq<AssetView>, tokens: Seq<Seq<char>>, f: KindFilter) -> Seq<AssetView>
    decreases rows.len(),
{
    if rows.len() == 0 {
        Seq::empty()
    } else {
        let m = matching(rows.drop_last(), tokens, f);
        if row_matches(rows.last(), tokens, f) {
            m.push(rows.last())
        } else {
            m
        }
    }
}

/// The part of `s` from `off` on, at most `size` long.
pub open spec fn window<T>(s: Seq<T>, off: int, size: int) -> Seq<T> {
    let lo = if off < s.len() { off } else { s.len() as int };
    let hi = if off + size < s.len() { off + size } else { s.len() as int };
    s.subrange(lo, hi)
}

/// The first row of a page: pages count from 1, and a page below 1 is page 1.
pub open spec fn page_start(page: u32, page_size: u32) -> int {
    if page <= 1 { 0 } else { (page - 1) * page_size }
}

/// The number of pages of `size` rows that `total` rows fill.
pub open spec fn pages_for(total: int, size: int) -> int
    recommends
        size > 0,
{
    if total % size == 0 { total / size } else { total / size + 1 }
}

/// The views of a list of rows.
pub open spec fn views(v: Seq<Asset>) -> Seq<AssetView> {
    v.map_values(|a: Asset| a@)
}

/// The tokens that `str::split_whitespace` finds in a string.
pub uninterp spec fn whitespace_tokens(s: Seq<char>) -> Seq<Seq<char>>;

/// Relies on `str::split_whitespace`: the pieces between runs of Unicode
/// white space, in order, which depend on the characters alone.
#[verifier::external_body]
fn split_tokens(q: &str) -> (r: Vec<String>)
    ensures
        r@.map_values(|t: String| t@) == whitespace_tokens(q@),
{
    q.split_whitespace().map(String::from).collect()
}

/// Why a listing was refused.
#[derive(PartialEq, Eq, Structural, Clone, Copy, Debug)]
pub enum QueryError {
    /// A page size of zero.
    ZeroPageSize,
}

/// One page of a listing, with the totals over all matching rows.
#[derive(Debug)]
pub struct PaginatedResponse {
    pub data: Vec<Asset>,
    pub total_items: u64,
    pub total_pages: u64,
    pub current_page: u32,
}

/// Whether `needle` occurs in `hay`, ignoring ASCII case.
pub fn contains_ignoring_case(hay: &[u8], needle: &[u8]) -> (r: bool)
    ensures
        r == contains_folded(hay@, needle@),
{
    if needle.len() > hay.len() {
        assert forall|i: int| !folded_at(hay@, needle@, i) by {}
        return false;
    }
    let h = hay.len();
    let last = h - needle.len();
    let mut i: usize = 0;
    loop
        invariant
            needle@.len() <= hay@.len(),
            h == hay@.len(),
            last == hay@.len() - needle@.len(),
            i <= last,
            forall|k: int| 0 <= k < i ==> !folded_at(hay@, needle@, k),
        decreases last - i,
    {
        let mut j: usize = 0;
        let mut same = true;
        while j < needle.len()
            invariant
                needle@.len() <= hay@.len(),
                h == hay@.len(),
                last == hay@.len() - needle@.len(),
                i <= last,
                j <= needle@.len(),
                same == (forall|m: int| 0 <= m < j ==> fold(#[trigger] hay@[i + m]) == fold(needle@[m])),
            decreases needle.len() - j,
        {
            let a = hay[i + j];
            let b = needle[j];
            let fa = if a >= 65 && a <= 90 { a + 32 } else { a };
            let fb = if b >= 65 && b <= 90 { b + 32 } else { b };
            if fa != fb {
                assert(fold(hay@[i + j as int]) != fold(needle@[j as int]));
                same = false;
            }
            j = j + 1;
        }
        if same {
            assert(folded_at(hay@, needle@, i as int));
            return true;
        }
        if i == last {
            assert forall|k: int| !folded_at(hay@, needle@, k) by {}
            return false;
        }
        i = i + 1;
    }
}

/// The bytes of a string.
fn bytes(s: &String) -> (r: &[u8])
    ensures
        r@ == bytes_of(s@),
{
    s.as_str().as_bytes()
}

/// Whether a row passes the kind filter and every token occurs in its file
/// name or in its path, ignoring ASCII case.
pub fn asset_matches(a: &Asset, tokens: &Vec<String>, f: KindFilter) -> (r: bool)
    ensures
        r == row_matches(a@, tokens@.map_values(|t: String| t@), f),
{
    let ghost ts = tokens@.map_values(|t: String| t@);
    let passes = match f {
        KindFilter::All => true,
        KindFilter::Only(k) => k == a.kind,
        KindFilter::Nothing => false,
    };
    if !passes {
        return false;
    }
    let mut t: usize = 0;
    while t < tokens.len()
        invariant
            t <= tokens@.len(),
            ts == tokens@.map_values(|t: String| t@),
            forall|u: int|
                0 <= u < t ==> contains_folded(bytes_of(a@.filename), bytes_of(#[trigger] ts[u]))
                    || contains_folded(bytes_of(a@.path), bytes_of(ts[u])),
        decreases tokens.len() - t,
    {
        let tok = bytes(&tokens[t]);
        if !contains_ignoring_case(bytes(&a.filename), tok) && !contains_ignoring_case(
            bytes(&a.original_path),
            tok,
        ) {
            assert(!(contains_folded(bytes_of(a@.filename), bytes_of(ts[t as int]))
                || contains_folded(bytes_of(a@.path), bytes_of(ts[t as int]))));
            return false;
        }
        t = t + 1;
    }
    true
}

impl Catalog {
    /// How many rows pass a kind filter.
    pub fn count_kind(&self, f: KindFilter) -> (r: u64)
        requires
            self.wf(),
        ensures
            r == matching(self@.rows, Seq::empty(), f).len(),
    {
        let empty: Vec<String> = Vec::new();
        let ghost ts = empty@.map_values(|t: String| t@);
        assert(ts =~= Seq::<Seq<char>>::empty());
        let mut n: u64 = 0;
        let mut i: usize = 0;
        while i < self.len()
            invariant
                i <= self@.rows.len(),
                ts == empty@.map_values(|t: String| t@),
                ts == Seq::<Seq<char>>::empty(),
                n == matching(self@.rows.subrange(0, i as int), ts, f).len(),
                n <= i,
            decreases self@.rows.len() - i,
        {
            let ghost pre = self@.rows.subrange(0, i as int);
            assert(self@.rows.subrange(0, i + 1).drop_last() =~= pre);
            if asset_matches(self.row(i), &empty, f) {
                n = n + 1;
            }
            i = i + 1;
        }
        assert(self@.rows.subrange(0, self@.rows.len() as int) =~= self@.rows);
        n
    }

    /// One page of the rows that pass the filter and hold every token, in id
    /// order, with the number of such rows and of pages.
    pub fn page(&self, page: u32, page_size: u32, tokens: &Vec<String>, f: KindFilter) -> (r:
        Result<PaginatedResponse, QueryError>)
        requires
            self.wf(),
        ensures
            page_size == 0 <==> r is Err,
            r matches Ok(p) ==> {
                let m = matching(self@.rows, tokens@.map_values(|t: String| t@), f);
                &&& p.total_items == m.len()
                &&& p.total_pages == pages_for(m.len() as int, page_size as int)
                &&& p.current_page == page
                &&& views(p.data@) == window(m, page_start(page, page_size), page_size as int)
            },
    {
        if page_size == 0 {
            return Err(QueryError::ZeroPageSize);
        }
        let ghost ts = tokens@.map_values(|t: String| t@);
        let off: u64 = if page <= 1 {
            0
        } else {
            let p: u64 = page as u64 - 1;
            let z: u64 = page_size as u64;
            assert(p * z <= 0xffff_ffffu64 * 0xffff_ffffu64) by (nonlinear_arith)
                requires
                    p <= 0xffff_ffffu64,
                    z <= 0xffff_ffffu64,
            ;
            p * z
        };
        assert(off <= 0xffff_ffffu64 * 0xffff_ffffu64);
        let end: u64 = off + page_size as u64;
        let mut data: Vec<Asset> = Vec::new();
        let mut n: u64 = 0;
        let mut i: usize = 0;
        while i < self.len()
            invariant
                i <= self@.rows.len(),
                page_size > 0,
                ts == tokens@.map_values(|t: String| t@),
                off == page_start(page, page_size),
                end == off + page_size,
                n == matching(self@.rows.subrange(0, i as int), ts, f).len(),
                n <= i,
                views(data@) == window(
                    matching(self@.rows.subrange(0, i as int), ts, f),
                    off as int,
                    page_size as int,
                ),
            decreases self@.rows.len() - i,
        {
            let ghost pre = self@.rows.subrange(0, i as int);
            let ghost m0 = matching(pre, ts, f);
            assert(self@.rows.subrange(0, i + 1).drop_last() =~= pre);
            let a = self.row(i);
            if asset_matches(a, tokens, f) {
                let ghost m1 = m0.push(a@);
                assert(matching(self@.rows.subrange(0, i + 1), ts, f) == m1);
                if off <= n && n < end {
                    let ghost d0 = data@;
                    let d = a.duplicate();
                    data.push(d);
                    assert(window(m0, off as int, page_size as int) =~= m0.subrange(
                        off as int,
                        n as int,
                    ));
                    assert(window(m1, off as int, page_size as int) =~= m0.subrange(
                        off as int,
                        n as int,
                    ).push(a@));
                    assert(views(data@) =~= views(d0).push(a@));
                } else {
                    assert(window(m1, off as int, page_size as int) =~= window(
                        m0,
                        off as int,
                        page_size as int,
                    ));
                }
                n = n + 1;
            }
            i = i + 1;
        }
        assert(self@.rows.subrange(0, self@.rows.len() as int) =~= self@.rows);
        let pages: u64 = if n % (page_size as u64) == 0 {
            n / (page_size as u64)
        } else {
            let z: u64 = page_size as u64;
            assert(n / z < 0xffff_ffff_ffff_ffffu64) by (nonlinear_arith)
                requires
                    z >= 1,
                    n % z != 0,
            ;
            n / z + 1
        };
        Ok(PaginatedResponse { data, total_items: n, total_pages: pages, current_page: page })
    }
}

/// The number of rows of a kind; `"all"` counts every row and a name that is
/// no kind counts none.
pub fn get_count_assets(c: &Catalog, asset_type: &str) -> (r: u64)
    requires
        c.wf(),
    ensures
        r == matching(c@.rows, Seq::empty(), filter_of(asset_type@)).len(),
{
    c.count_kind(KindFilter::parse(asset_type))
}

/// One page of a listing: the query is cut into tokens at white space, each
/// of which must occur in the file name or the path of a row (ignoring ASCII
/// case); `asset_type` is a kind name or `"all"`.
pub fn get_assets_paginated(c: &Catalog, page: u32, page_size: u32, query: &str, asset_type: &str) -> (r:
    Result<PaginatedResponse, QueryError>)
    requires
        c.wf(),
    ensures
        page_size == 0 <==> r is Err,
        r matches Ok(p) ==> {
            let m = matching(c@.rows, whitespace_tokens(query@), filter_of(asset_type@));
            &&& p.total_items == m.len()
            &&& p.total_pages == pages_for(m.len() as int, page_size as int)
            &&& p.current_page == page
            &&& views(p.data@) == window(m, page_start(page, page_size), page_size as int)
        },
{
    let tokens = split_tokens(query);
    c.page(page, page_size, &tokens, KindFilter::parse(asset_type))
}

} // verus!
