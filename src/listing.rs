//! Paging and selection in video lists, and telling shorts from videos.
use vstd::prelude::*;
use vstd::string::*;
use crate::catalog::{Video, VideoView, video_views};
use crate::text::{contains, contains_text};

verus! {

pub const VIDEOS_PER_PAGE: usize = 20;

/// Pages needed for `count` videos.
pub open spec fn pages_for(count: nat) -> nat {
    (count + VIDEOS_PER_PAGE - 1) as nat / VIDEOS_PER_PAGE as nat
}

pub fn total_pages(count: usize) -> (r: usize)
    ensures
        r == pages_for(count as nat),
{
    let q = count / VIDEOS_PER_PAGE;
    if count % VIDEOS_PER_PAGE == 0 {
        assert(q == (count + 19) / 20) by (nonlinear_arith)
            requires
                q == count / 20,
                count % 20 == 0,
        ;
        q
    } else {
        assert(q + 1 == (count + 19) / 20) by (nonlinear_arith)
            requires
                q == count / 20,
                count % 20 != 0,
        ;
        q + 1
    }
}

/// The positions `[start, end)` that page `page` shows of `len` videos;
/// empty past the last page.
pub open spec fn page_span(len: nat, page: nat) -> (nat, nat) {
    let start = page * VIDEOS_PER_PAGE as nat;
    if start < len {
        (start, if start + VIDEOS_PER_PAGE < len { (start + VIDEOS_PER_PAGE) as nat } else { len })
    } else {
        (0, 0)
    }
}

pub fn page_range(len: usize, page: usize) -> (r: (usize, usize))
    ensures
        (r.0 as nat, r.1 as nat) == page_span(len as nat, page as nat),
{
    if page >= len / VIDEOS_PER_PAGE + 1 {
        assert(page * 20 >= len) by (nonlinear_arith)
            requires
                page >= len / 20 + 1,
        ;
        return (0, 0);
    }
    assert(page * 20 <= len) by (nonlinear_arith)
        requires
            page <= len / 20,
    ;
    let start = page * VIDEOS_PER_PAGE;
    if start < len {
        let end = if len - start > VIDEOS_PER_PAGE { start + VIDEOS_PER_PAGE } else { len };
        (start, end)
    } else {
        (0, 0)
    }
}

/// The page after `page`, where there is one.
pub fn next_page(page: usize, count: usize) -> (r: usize)
    ensures
        r == if page + 1 < pages_for(count as nat) { page + 1 } else { page as int },
{
    let total = total_pages(count);
    if total > 0 && page < total - 1 {
        page + 1
    } else {
        page
    }
}

/// The page before `page`, where there is one.
pub fn previous_page(page: usize) -> (r: usize)
    ensures
        r == if page > 0 { page - 1 } else { 0 },
{
    if page > 0 {
        page - 1
    } else {
        0
    }
}

/// The selection one row up, stopping at the first row.
pub fn select_up(selected: usize) -> (r: usize)
    ensures
        r == if selected > 0 { selected - 1 } else { 0 },
{
    if selected > 0 {
        selected - 1
    } else {
        0
    }
}

/// The selection one row down, stopping at the last of `len` rows.
pub fn select_down(selected: usize, len: usize) -> (r: usize)
    ensures
        r == if selected + 1 < len { selected + 1 } else { selected as int },
{
    if len > 0 && selected < len - 1 {
        selected + 1
    } else {
        selected
    }
}

/// What `str::to_lowercase` makes of a text.
pub uninterp spec fn lowercase_of(s: Seq<char>) -> Seq<char>;

/// Relies on `str::to_lowercase`: the result depends on the text alone, and
/// an empty text stays empty.
#[verifier::external_body]
fn lowercase(s: &str) -> (r: String)
    ensures
        r@ == lowercase_of(s@),
        s@.len() == 0 ==> r@.len() == 0,
{
    s.to_lowercase()
}

/// A title marks a short where its lower-case form holds `#short`
/// (which `#shorts` also holds).
pub open spec fn marks_short(lowered: Seq<char>) -> bool {
    contains_text(lowered, "#shorts"@) || contains_text(lowered, "#short"@)
}

/// Whether an already lower-cased title marks a short.
pub fn is_short_lowered(lowered: &str) -> (r: bool)
    ensures
        r == marks_short(lowered@),
{
    contains(lowered, "#shorts") || contains(lowered, "#short")
}

pub fn is_short(title: &str) -> (r: bool)
    ensures
        r == marks_short(lowercase_of(title@)),
{
    let lowered = lowercase(title);
    is_short_lowered(lowered.as_str())
}

pub open spec fn regular_of(vs: Seq<VideoView>) -> Seq<VideoView>
    decreases vs.len(),
{
    if vs.len() == 0 {
        Seq::empty()
    } else if marks_short(lowercase_of(vs.last().title)) {
        regular_of(vs.drop_last())
    } else {
        regular_of(vs.drop_last()).push(vs.last())
    }
}

pub open spec fn shorts_of(vs: Seq<VideoView>) -> Seq<VideoView>
    decreases vs.len(),
{
    if vs.len() == 0 {
        Seq::empty()
    } else if marks_short(lowercase_of(vs.last().title)) {
        shorts_of(vs.drop_last()).push(vs.last())
    } else {
        shorts_of(vs.drop_last())
    }
}

/// Parts a channel's uploads into regular videos and shorts, each in the
/// order given.
pub fn separate_videos_and_shorts(videos: Vec<Video>) -> (r: (Vec<Video>, Vec<Video>))
    ensures
        video_views(r.0@) == regular_of(video_views(videos@)),
        video_views(r.1@) == shorts_of(video_views(videos@)),
{
    let ghost all = video_views(videos@);
    let ghost orig = videos@;
    let mut rest = videos;
    let mut regular: Vec<Video> = Vec::new();
    let mut shorts: Vec<Video> = Vec::new();
    let n = rest.len();
    let mut i: usize = 0;
    assert(orig.subrange(0, n as int) =~= orig);
    while i < n
        invariant
            n == orig.len(),
            i <= n,
            all == video_views(orig),
            rest@ == orig.subrange(i as int, n as int),
            video_views(regular@) == regular_of(all.subrange(0, i as int)),
            video_views(shorts@) == shorts_of(all.subrange(0, i as int)),
        decreases n - i,
    {
        let v = rest.remove(0);
        assert(v == orig[i as int]);
        assert(rest@ =~= orig.subrange(i + 1, n as int));
        assert(all.subrange(0, i + 1).drop_last() =~= all.subrange(0, i as int));
        assert(all.subrange(0, i + 1).last() == v@);
        let ghost vv = v@;
        let ghost r0 = video_views(regular@);
        let ghost s0 = video_views(shorts@);
        if is_short(v.title.as_str()) {
            shorts.push(v);
            assert(video_views(shorts@) =~= s0.push(vv));
        } else {
            regular.push(v);
            assert(video_views(regular@) =~= r0.push(vv));
        }
        i += 1;
    }
    assert(all.subrange(0, n as int) =~= all);
    (regular, shorts)
}

} // verus!
