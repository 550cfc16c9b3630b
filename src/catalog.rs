//! Catalog items, and the parsing around the extraction tool and the local
//! watch history.
use vstd::prelude::*;
use vstd::string::*;
use vstd::utf8::{decode_utf8, valid_utf8};
use crate::text::{all_ws, contains_text, has_prefix, is_blank, lines, lines_of, split, split_on, starts_with, trim, trimmed, views};

verus! {

#[verifier::external_type_specification]
#[verifier::external_body]
pub struct ExClient(reqwest::Client);

#[derive(Debug, Clone, PartialEq, Eq)]
pub struct Video {
    pub id: String,
    pub title: String,
    pub channel_title: String,
    pub published_at: String,
    pub thumbnail_url: String,
}

#[derive(Debug, Clone, PartialEq, Eq)]
pub struct Subscription {
    pub channel_id: String,
    pub channel_title: String,
    pub thumbnail_url: String,
}

#[derive(Debug, Clone, PartialEq, Eq)]
pub struct Playlist {
    pub id: String,
    pub title: String,
    pub description: String,
    pub item_count: u32,
}

/// The fields of a video as text.
pub struct VideoView {
    pub id: Seq<char>,
    pub title: Seq<char>,
    pub channel_title: Seq<char>,
    pub published_at: Seq<char>,
    pub thumbnail_url: Seq<char>,
}

impl View for Video {
    type V = VideoView;

    open spec fn view(&self) -> VideoView {
        VideoView {
            id: self.id@,
            title: self.title@,
            channel_title: self.channel_title@,
            published_at: self.published_at@,
            thumbnail_url: self.thumbnail_url@,
        }
    }
}

pub open spec fn video_views(v: Seq<Video>) -> Seq<VideoView> {
    v.map_values(|x: Video| x@)
}

/// The HTTP client and bearer token the catalog calls are made with.
pub struct YouTubeClient {
    client: Option<reqwest::Client>,
    access_token: Option<String>,
}

impl YouTubeClient {
    pub closed spec fn has_client(&self) -> bool {
        self.client is Some
    }

    pub closed spec fn token_view(&self) -> Option<Seq<char>> {
        match self.access_token {
            Some(t) => Some(t@),
            None => None,
        }
    }

    pub fn with_auth(client: reqwest::Client, access_token: String) -> (r: YouTubeClient)
        ensures
            r.has_client(),
            r.token_view() == Some(access_token@),
    {
        YouTubeClient { client: Some(client), access_token: Some(access_token) }
    }

    pub fn is_authenticated(&self) -> (r: bool)
        ensures
            r == (self.has_client() && self.token_view() is Some),
    {
        self.client.is_some() && self.access_token.is_some()
    }

    /// The client and token, where both are present.
    pub fn credentials(&self) -> (r: Option<(&reqwest::Client, &String)>)
        ensures
            r is Some <==> self.has_client() && self.token_view() is Some,
            r is Some ==> self.token_view() == Some((r->0).1@),
    {
        match (&self.client, &self.access_token) {
            (Some(c), Some(t)) => Some((c, t)),
            _ => None,
        }
    }
}

/// An 8-character `YYYYMMDD` prefix written as `YYYY-MM-DD`; a shorter
/// date is kept as it is.
pub open spec fn formatted_date(d: Seq<char>) -> Seq<char> {
    if d.len() >= 8 {
        d.subrange(0, 4) + "-"@ + d.subrange(4, 6) + "-"@ + d.subrange(6, 8)
    } else {
        d
    }
}

/// The video that one `id|title|uploader|upload_date` line describes: blank
/// lines and lines with fewer than four fields describe none.
pub open spec fn line_video(l: Seq<char>) -> Option<VideoView> {
    if all_ws(l) {
        None
    } else {
        let f = split_on(l, '|');
        if f.len() >= 4 {
            Some(
                VideoView {
                    id: f[0],
                    title: f[1],
                    channel_title: f[2],
                    published_at: formatted_date(f[3]),
                    thumbnail_url: Seq::empty(),
                },
            )
        } else {
            None
        }
    }
}

/// The videos that the lines describe, in order.
pub open spec fn videos_of_lines(ls: Seq<Seq<char>>) -> Seq<VideoView>
    decreases ls.len(),
{
    if ls.len() == 0 {
        Seq::empty()
    } else {
        let prev = videos_of_lines(ls.drop_last());
        match line_video(ls.last()) {
            Some(v) => prev.push(v),
            None => prev,
        }
    }
}

fn format_date(d: &str) -> (r: String)
    ensures
        r@ == formatted_date(d@),
{
    if d.unicode_len() >= 8 {
        let mut out = d.substring_char(0, 4).to_owned();
        out.append("-");
        out.append(d.substring_char(4, 6));
        out.append("-");
        out.append(d.substring_char(6, 8));
        out
    } else {
        d.to_owned()
    }
}

fn video_of_line(l: &str) -> (r: Option<Video>)
    ensures
        match line_video(l@) {
            Some(v) => r is Some && r->0@ == v,
            None => r is None,
        },
{
    if is_blank(l) {
        return None;
    }
    let mut f = split(l, '|');
    if f.len() < 4 {
        return None;
    }
    let ghost fv = views(f@);
    assert(fv[3] == f@[3]@);
    let published_at = format_date(f[3].as_str());
    let channel_title = f.remove(2);
    let title = f.remove(1);
    let id = f.remove(0);
    Some(Video { id, title, channel_title, published_at, thumbnail_url: String::new() })
}

/// Parses the text printed by the extraction tool with the
/// `%(id)s|%(title)s|%(uploader)s|%(upload_date)s` template.
pub fn parse_ytdlp_text(text: &str) -> (r: Vec<Video>)
    ensures
        video_views(r@) == videos_of_lines(lines_of(text@)),
{
    let ls = lines(text);
    let ghost lv = views(ls@);
    let mut out: Vec<Video> = Vec::new();
    let mut i: usize = 0;
    while i < ls.len()
        invariant
            i <= ls@.len(),
            lv == views(ls@),
            lv == lines_of(text@),
            video_views(out@) == videos_of_lines(lv.subrange(0, i as int)),
        decreases ls@.len() - i,
    {
        let ghost before = video_views(out@);
        assert(lv.subrange(0, i + 1).drop_last() =~= lv.subrange(0, i as int));
        assert(lv.subrange(0, i + 1).last() == ls@[i as int]@);
        match video_of_line(ls[i].as_str()) {
            Some(v) => {
                let ghost vv = v@;
                out.push(v);
                assert(video_views(out@) =~= before.push(vv));
            },
            None => {},
        }
        i += 1;
    }
    assert(lv.subrange(0, i as int) =~= lv);
    out
}

/// What `String::from_utf8_lossy` makes of a byte sequence.
pub uninterp spec fn lossy_utf8(b: Seq<u8>) -> Seq<char>;

/// Relies on `String::from_utf8_lossy`: invalid sequences become U+FFFD,
/// valid UTF-8 is decoded as it stands.
#[verifier::external_body]
fn utf8_lossy(b: &[u8]) -> (r: String)
    ensures
        r@ == lossy_utf8(b@),
        valid_utf8(b@) ==> r@ == decode_utf8(b@),
{
    String::from_utf8_lossy(b).into_owned()
}

/// Parses the raw output of the extraction tool.
pub fn parse_ytdlp_output(output: &[u8]) -> (r: Vec<Video>)
    ensures
        video_views(r@) == videos_of_lines(lines_of(lossy_utf8(output@))),
{
    let text = utf8_lossy(output);
    parse_ytdlp_text(text.as_str())
}

/// The non-empty trimmed lines of a history file, in order.
pub open spec fn history_of_lines(ls: Seq<Seq<char>>, skip: Option<Seq<char>>) -> Seq<Seq<char>>
    decreases ls.len(),
{
    if ls.len() == 0 {
        Seq::empty()
    } else {
        let prev = history_of_lines(ls.drop_last(), skip);
        let l = trimmed(ls.last());
        if l.len() == 0 || skip == Some(l) {
            prev
        } else {
            prev.push(l)
        }
    }
}

fn history_lines(content: &str, skip: Option<&str>) -> (r: Vec<String>)
    ensures
        views(r@) == history_of_lines(
            lines_of(content@),
            match skip {
                Some(s) => Some(s@),
                None => None,
            },
        ),
{
    let ghost sk = match skip {
        Some(s) => Some(s@),
        None => None::<Seq<char>>,
    };
    let ls = lines(content);
    let ghost lv = views(ls@);
    let skip_owned: Option<String> = match skip {
        Some(s) => Some(s.to_owned()),
        None => None,
    };
    let mut out: Vec<String> = Vec::new();
    let mut i: usize = 0;
    while i < ls.len()
        invariant
            i <= ls@.len(),
            lv == views(ls@),
            lv == lines_of(content@),
            match skip_owned {
                Some(s) => sk == Some(s@),
                None => sk is None,
            },
            views(out@) == history_of_lines(lv.subrange(0, i as int), sk),
        decreases ls@.len() - i,
    {
        let ghost before = views(out@);
        assert(lv.subrange(0, i + 1).drop_last() =~= lv.subrange(0, i as int));
        assert(lv.subrange(0, i + 1).last() == ls@[i as int]@);
        let l = trim(ls[i].as_str());
        let skipped = match &skip_owned {
            Some(s) => l == *s,
            None => false,
        };
        if !l.as_str().is_empty() && !skipped {
            let ghost v = l@;
            out.push(l);
            assert(views(out@) =~= before.push(v));
        }
        i += 1;
    }
    assert(lv.subrange(0, i as int) =~= lv);
    out
}

/// The video ids that a history file lists, most recent first.
pub fn history_entries(content: &str) -> (r: Vec<String>)
    ensures
        views(r@) == history_of_lines(lines_of(content@), None),
{
    history_lines(content, None)
}

/// The most entries a history file keeps.
pub const HISTORY_LIMIT: usize = 200;

/// The history after watching `video_id`: it moves to the top, any earlier
/// entry for it is dropped, and at most `HISTORY_LIMIT` entries stay.
pub open spec fn updated_history(content: Seq<char>, video_id: Seq<char>) -> Seq<Seq<char>> {
    let all = seq![video_id] + history_of_lines(lines_of(content), Some(video_id));
    if all.len() > HISTORY_LIMIT {
        all.subrange(0, HISTORY_LIMIT as int)
    } else {
        all
    }
}

/// The entries to write back after watching `video_id`; `content` is the
/// current file's text (empty where there is none).
pub fn add_to_history(content: &str, video_id: &str) -> (r: Vec<String>)
    ensures
        views(r@) == updated_history(content@, video_id@),
{
    let rest = history_lines(content, Some(video_id));
    let ghost rv = views(rest@);
    let mut out: Vec<String> = Vec::new();
    out.push(video_id.to_owned());
    let mut i: usize = 0;
    while i < rest.len() && out.len() < HISTORY_LIMIT
        invariant
            i <= rest@.len(),
            rv == views(rest@),
            out@.len() == i + 1,
            out@.len() <= HISTORY_LIMIT,
            views(out@) == seq![video_id@] + rv.subrange(0, i as int),
        decreases rest@.len() - i,
    {
        let ghost before = views(out@);
        let e = rest[i].clone();
        assert(e@ == rv[i as int]);
        let ghost ev = e@;
        out.push(e);
        assert(views(out@) =~= before.push(ev));
        assert(views(out@) =~= seq![video_id@] + rv.subrange(0, i + 1));
        i += 1;
    }
    let ghost all = seq![video_id@] + rv;
    if i == rest.len() {
        assert(rv.subrange(0, i as int) =~= rv);
    } else {
        assert(views(out@) =~= all.subrange(0, HISTORY_LIMIT as int));
    }
    out
}

/// The text of a history file: each entry on a line of its own.
pub open spec fn history_text(entries: Seq<Seq<char>>) -> Seq<char>
    decreases entries.len(),
{
    if entries.len() == 0 {
        Seq::empty()
    } else {
        history_text(entries.drop_last()) + entries.last() + "\n"@
    }
}

pub fn history_file_text(entries: &Vec<String>) -> (r: String)
    ensures
        r@ == history_text(views(entries@)),
{
    let mut out = String::new();
    let mut i: usize = 0;
    while i < entries.len()
        invariant
            i <= entries@.len(),
            out@ == history_text(views(entries@.subrange(0, i as int))),
        decreases entries@.len() - i,
    {
        assert(views(entries@.subrange(0, i + 1)).drop_last() =~= views(entries@.subrange(0, i as int)));
        out.append(entries[i].as_str());
        out.append("\n");
        i += 1;
    }
    assert(entries@.subrange(0, i as int) =~= entries@);
    out
}

/// A channel given as a URL, an `@handle`, or a path below the site.
pub open spec fn channel_url(u: Seq<char>) -> Seq<char> {
    if has_prefix(u, "http"@) {
        u
    } else if has_prefix(u, "@"@) {
        "https://www.youtube.com/"@ + u + "/videos"@
    } else {
        "https://www.youtube.com/"@ + u
    }
}

/// The full URL of a channel's video list.
pub fn normalize_channel_url(u: &str) -> (r: String)
    ensures
        r@ == channel_url(u@),
{
    if starts_with(u, "http") {
        u.to_owned()
    } else if starts_with(u, "@") {
        let mut s = "https://www.youtube.com/".to_owned();
        s.append(u);
        s.append("/videos");
        s
    } else {
        let mut s = "https://www.youtube.com/".to_owned();
        s.append(u);
        s
    }
}

/// The page of a video.
pub fn watch_url(video_id: &str) -> (r: String)
    ensures
        r@ == "https://www.youtube.com/watch?v="@ + video_id@,
{
    let mut s = "https://www.youtube.com/watch?v=".to_owned();
    s.append(video_id);
    s
}

/// The extraction tool's search target for the first thirty results.
pub fn search_target(query: &str) -> (r: String)
    ensures
        r@ == "ytsearch30:"@ + query@,
{
    let mut s = "ytsearch30:".to_owned();
    s.append(query);
    s
}

/// The URL of the page after `base`'s first one.
pub open spec fn page_url_of(base: Seq<char>, page_token: Option<Seq<char>>) -> Seq<char> {
    match page_token {
        Some(t) => base + "&pageToken="@ + t,
        None => base,
    }
}

pub fn page_url(base: &str, page_token: &Option<String>) -> (r: String)
    ensures
        r@ == page_url_of(
            base@,
            match page_token {
                Some(t) => Some(t@),
                None => None,
            },
        ),
{
    let mut s = base.to_owned();
    if let Some(t) = page_token {
        s.append("&pageToken=");
        s.append(t.as_str());
    }
    s
}

/// One item of a playlist as the platform lists it.
pub struct PlaylistEntry {
    /// The video id from the item's content details, where present.
    pub content_video_id: Option<String>,
    /// The video id from the item's resource id, where present.
    pub resource_video_id: Option<String>,
    pub title: String,
    pub channel_title: Option<String>,
    pub published_at: Option<String>,
    pub thumbnail_url: String,
}

/// The video an entry stands for: its id comes from the content details,
/// else from the resource id; an entry with neither stands for none.
pub open spec fn entry_video(e: PlaylistEntry) -> Option<VideoView> {
    let id = if e.content_video_id is Some { e.content_video_id } else { e.resource_video_id };
    match id {
        Some(i) => Some(
            VideoView {
                id: i@,
                title: e.title@,
                channel_title: match e.channel_title {
                    Some(c) => c@,
                    None => "Unknown Channel"@,
                },
                published_at: match e.published_at {
                    Some(d) => d@,
                    None => "Unknown date"@,
                },
                thumbnail_url: e.thumbnail_url@,
            },
        ),
        None => None,
    }
}

pub fn playlist_entry_video(e: PlaylistEntry) -> (r: Option<Video>)
    ensures
        match entry_video(e) {
            Some(v) => r is Some && r->0@ == v,
            None => r is None,
        },
{
    let id = match e.content_video_id {
        Some(i) => Some(i),
        None => e.resource_video_id,
    };
    match id {
        Some(i) => Some(Video {
            id: i,
            title: e.title,
            channel_title: match e.channel_title {
                Some(c) => c,
                None => "Unknown Channel".to_owned(),
            },
            published_at: match e.published_at {
                Some(d) => d,
                None => "Unknown date".to_owned(),
            },
            thumbnail_url: e.thumbnail_url,
        }),
        None => None,
    }
}

/// How many subscribed channels recommendations are drawn from.
pub const RECOMMENDATION_CHANNELS: usize = 5;

/// How many videos each channel contributes.
pub const PER_CHANNEL: usize = 10;

/// The most recommendations given.
pub const RECOMMENDATION_LIMIT: usize = 50;

pub open spec fn first_n(s: Seq<VideoView>, n: int) -> Seq<VideoView> {
    if s.len() > n {
        s.subrange(0, n)
    } else {
        s
    }
}

/// Each channel's first videos, channel after channel.
pub open spec fn concat_heads(ls: Seq<Seq<VideoView>>) -> Seq<VideoView>
    decreases ls.len(),
{
    if ls.len() == 0 {
        Seq::empty()
    } else {
        concat_heads(ls.drop_last()) + first_n(ls.last(), PER_CHANNEL as int)
    }
}

pub open spec fn all_video_views(ls: Seq<Vec<Video>>) -> Seq<Seq<VideoView>> {
    ls.map_values(|v: Vec<Video>| video_views(v@))
}

/// Recommendations from the channels' video lists: the first `PER_CHANNEL`
/// of each, in channel order, at most `RECOMMENDATION_LIMIT` in all.
pub fn merge_recommendations(lists: Vec<Vec<Video>>) -> (r: Vec<Video>)
    ensures
        video_views(r@) == first_n(concat_heads(all_video_views(lists@)), RECOMMENDATION_LIMIT as int),
{
    let ghost orig = lists@;
    let ghost all = all_video_views(orig);
    let mut lists = lists;
    let mut out: Vec<Video> = Vec::new();
    let n = lists.len();
    let mut i: usize = 0;
    assert(orig.subrange(0, n as int) =~= orig);
    while i < n
        invariant
            n == orig.len(),
            i <= n,
            all == all_video_views(orig),
            lists@ == orig.subrange(i as int, n as int),
            video_views(out@) == concat_heads(all.subrange(0, i as int)),
        decreases n - i,
    {
        let ghost before = video_views(out@);
        let mut v = lists.remove(0);
        assert(v == orig[i as int]);
        assert(lists@ =~= orig.subrange(i + 1, n as int));
        v.truncate(PER_CHANNEL);
        assert(video_views(v@) =~= first_n(all[i as int], PER_CHANNEL as int));
        out.append(&mut v);
        assert(all.subrange(0, i + 1).drop_last() =~= all.subrange(0, i as int));
        assert(video_views(out@) =~= before + first_n(all[i as int], PER_CHANNEL as int));
        i += 1;
    }
    assert(all.subrange(0, n as int) =~= all);
    let ghost full = out@;
    out.truncate(RECOMMENDATION_LIMIT);
    assert(video_views(out@) =~= first_n(video_views(full), RECOMMENDATION_LIMIT as int));
    out
}

/// The print template the catalog reads back, one video per line.
pub const LINE_TEMPLATE: &'static str = "%(id)s|%(title)s|%(uploader)s|%(upload_date)s";

/// The public pages tried, in order, for recommendations without an
/// account: each with the extra arguments it is fetched with.
pub open spec fn recommendation_sources_of() -> Seq<(Seq<char>, Seq<Seq<char>>)> {
    seq![
        ("https://www.youtube.com/feed/trending"@, seq!["--extractor-args"@, "youtube:player_client=web"@]),
        ("https://www.youtube.com/feed/trending"@, Seq::empty()),
        ("https://www.youtube.com/@MrBeast/videos"@, Seq::empty()),
        ("https://www.youtube.com/@PewDiePie/videos"@, Seq::empty()),
    ]
}

pub open spec fn source_views(v: Seq<(String, Vec<String>)>) -> Seq<(Seq<char>, Seq<Seq<char>>)> {
    v.map_values(|p: (String, Vec<String>)| (p.0@, views(p.1@)))
}

pub fn recommendation_sources() -> (r: Vec<(String, Vec<String>)>)
    ensures
        source_views(r@) == recommendation_sources_of(),
{
    let mut extra: Vec<String> = Vec::new();
    extra.push("--extractor-args".to_owned());
    extra.push("youtube:player_client=web".to_owned());
    assert(views(extra@) =~= seq!["--extractor-args"@, "youtube:player_client=web"@]);
    let mut r: Vec<(String, Vec<String>)> = Vec::new();
    r.push(("https://www.youtube.com/feed/trending".to_owned(), extra));
    let none1: Vec<String> = Vec::new();
    let none2: Vec<String> = Vec::new();
    let none3: Vec<String> = Vec::new();
    assert(views(none1@) =~= Seq::<Seq<char>>::empty());
    assert(views(none2@) =~= Seq::<Seq<char>>::empty());
    assert(views(none3@) =~= Seq::<Seq<char>>::empty());
    r.push(("https://www.youtube.com/feed/trending".to_owned(), none1));
    r.push(("https://www.youtube.com/@MrBeast/videos".to_owned(), none2));
    r.push(("https://www.youtube.com/@PewDiePie/videos".to_owned(), none3));
    assert(source_views(r@) =~= recommendation_sources_of());
    r
}

/// The extraction tool's arguments for listing a page's first fifty videos.
pub open spec fn feed_args_of(extra: Seq<Seq<char>>, url: Seq<char>) -> Seq<Seq<char>> {
    seq!["--flat-playlist"@, "--print"@, LINE_TEMPLATE@, "--playlist-end"@, "50"@, "--no-warnings"@] + extra
        + seq![url]
}

pub fn feed_args(extra: &Vec<String>, url: &str) -> (r: Vec<String>)
    ensures
        views(r@) == feed_args_of(views(extra@), url@),
{
    let mut r: Vec<String> = Vec::new();
    r.push("--flat-playlist".to_owned());
    r.push("--print".to_owned());
    r.push(LINE_TEMPLATE.to_owned());
    r.push("--playlist-end".to_owned());
    r.push("50".to_owned());
    r.push("--no-warnings".to_owned());
    let ghost head = views(r@);
    assert(head =~= seq!["--flat-playlist"@, "--print"@, LINE_TEMPLATE@, "--playlist-end"@, "50"@, "--no-warnings"@]);
    let mut i: usize = 0;
    while i < extra.len()
        invariant
            i <= extra@.len(),
            views(r@) == head + views(extra@.subrange(0, i as int)),
        decreases extra@.len() - i,
    {
        let ghost before = views(r@);
        let e = extra[i].clone();
        let ghost ev = e@;
        r.push(e);
        assert(views(r@) =~= before.push(ev));
        assert(views(r@) =~= head + views(extra@.subrange(0, i + 1)));
        i += 1;
    }
    assert(extra@.subrange(0, i as int) =~= extra@);
    let ghost mid = views(r@);
    r.push(url.to_owned());
    assert(views(r@) =~= mid.push(url@));
    r
}

/// The error remembered after a page failed: the tool's trimmed complaint,
/// except that an unsupported address leaves the earlier one in place.
pub open spec fn remembered_error(last: Option<Seq<char>>, stderr: Seq<char>) -> Option<Seq<char>> {
    if contains_text(stderr, "Unsupported URL"@) {
        last
    } else {
        Some(trimmed(stderr))
    }
}

pub fn note_failure(last: Option<String>, stderr: &str) -> (r: Option<String>)
    ensures
        match r {
            Some(s) => remembered_error(
                match last {
                    Some(l) => Some(l@),
                    None => None,
                },
                stderr@,
            ) == Some(s@),
            None => remembered_error(
                match last {
                    Some(l) => Some(l@),
                    None => None,
                },
                stderr@,
            ) is None,
        },
{
    if crate::text::contains(stderr, "Unsupported URL") {
        last
    } else {
        Some(trim(stderr))
    }
}

/// What the user is told when no page gave recommendations.
pub open spec fn no_recommendations_text(last: Option<Seq<char>>) -> Seq<char> {
    "Could not fetch recommendations.\n\nYouTube's personalized homepage requires authentication and JavaScript rendering.\nTrending feeds may not be available in your region.\n\nSuggestions:\n- Use 'Search' to find videos\n- Use 'Subscriptions' if you're authenticated\n- Try authenticating to get personalized recommendations\n\nLast error: "@
        + match last {
        Some(l) => l,
        None => "Unknown error"@,
    }
}

pub fn no_recommendations_message(last: &Option<String>) -> (r: String)
    ensures
        r@ == no_recommendations_text(
            match last {
                Some(l) => Some(l@),
                None => None,
            },
        ),
{
    let mut s = "Could not fetch recommendations.\n\nYouTube's personalized homepage requires authentication and JavaScript rendering.\nTrending feeds may not be available in your region.\n\nSuggestions:\n- Use 'Search' to find videos\n- Use 'Subscriptions' if you're authenticated\n- Try authenticating to get personalized recommendations\n\nLast error: ".to_owned();
    match last {
        Some(l) => s.append(l.as_str()),
        None => s.append("Unknown error"),
    }
    s
}

/// The extraction tool's arguments for a channel's twenty latest videos;
/// `channel` is as the user typed it.
pub open spec fn channel_args_of(channel: Seq<char>) -> Seq<Seq<char>> {
    seq!["--flat-playlist"@, "--print"@, LINE_TEMPLATE@, "--playlist-end"@, "20"@, channel_url(channel)]
}

pub fn channel_args(channel: &str) -> (r: Vec<String>)
    ensures
        views(r@) == channel_args_of(channel@),
{
    let mut r: Vec<String> = Vec::new();
    r.push("--flat-playlist".to_owned());
    r.push("--print".to_owned());
    r.push(LINE_TEMPLATE.to_owned());
    r.push("--playlist-end".to_owned());
    r.push("20".to_owned());
    r.push(normalize_channel_url(channel));
    assert(views(r@) =~= channel_args_of(channel@));
    r
}

/// The extraction tool's arguments for the first thirty search results.
pub open spec fn search_args_of(query: Seq<char>) -> Seq<Seq<char>> {
    seq!["--flat-playlist"@, "--print"@, LINE_TEMPLATE@, "ytsearch30:"@ + query]
}

pub fn search_args(query: &str) -> (r: Vec<String>)
    ensures
        views(r@) == search_args_of(query@),
{
    let mut r: Vec<String> = Vec::new();
    r.push("--flat-playlist".to_owned());
    r.push("--print".to_owned());
    r.push(LINE_TEMPLATE.to_owned());
    r.push(search_target(query));
    assert(views(r@) =~= search_args_of(query@));
    r
}

} // verus!
