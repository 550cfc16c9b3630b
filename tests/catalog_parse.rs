use rustyoutube::catalog::{
    merge_recommendations, page_url, playlist_entry_video, PlaylistEntry,
    add_to_history, history_entries, history_file_text, normalize_channel_url, parse_ytdlp_output, parse_ytdlp_text,
    Video, YouTubeClient,
};

fn video(id: &str, title: &str, ch: &str, date: &str) -> Video {
    Video {
        id: id.to_string(),
        title: title.to_string(),
        channel_title: ch.to_string(),
        published_at: date.to_string(),
        thumbnail_url: String::new(),
    }
}

#[test]
fn parses_tool_lines() {
    let out = "abc|First|Chan|20240131\n\n   \nshort|line\nxyz|Second|Other|NA\r\n";
    assert_eq!(
        parse_ytdlp_text(out),
        vec![video("abc", "First", "Chan", "2024-01-31"), video("xyz", "Second", "Other", "NA")]
    );
}

#[test]
fn extra_bars_shift_nothing_before_the_fourth_field() {
    assert_eq!(parse_ytdlp_text("i|t|u|20200102|extra"), vec![video("i", "t", "u", "2020-01-02")]);
}

#[test]
fn raw_output_is_decoded_lossily() {
    let mut bytes = b"id1|T".to_vec();
    bytes.push(0xff);
    bytes.extend_from_slice(b"|U|20231225\n");
    assert_eq!(parse_ytdlp_output(&bytes), vec![video("id1", "T\u{fffd}", "U", "2023-12-25")]);
    assert_eq!(parse_ytdlp_output(b""), vec![]);
}

#[test]
fn history_entries_skip_blank_lines() {
    assert_eq!(history_entries(" a \n\n b\r\n"), vec!["a", "b"]);
    assert_eq!(history_entries(""), Vec::<String>::new());
}

#[test]
fn history_moves_video_to_top_without_duplicates() {
    assert_eq!(add_to_history("x\ny\nx\n", "y"), vec!["y", "x", "x"]);
    assert_eq!(add_to_history("", "new"), vec!["new"]);
}

#[test]
fn history_keeps_at_most_two_hundred() {
    let content: String = (0..250).map(|i| format!("v{}\n", i)).collect();
    let h = add_to_history(&content, "top");
    assert_eq!(h.len(), 200);
    assert_eq!(h[0], "top");
    assert_eq!(h[199], "v198");
}

#[test]
fn history_text_one_entry_per_line() {
    assert_eq!(history_file_text(&vec!["a".to_string(), "b".to_string()]), "a\nb\n");
}

#[test]
fn channel_urls() {
    assert_eq!(normalize_channel_url("https://www.youtube.com/@x"), "https://www.youtube.com/@x");
    assert_eq!(normalize_channel_url("@handle"), "https://www.youtube.com/@handle/videos");
    assert_eq!(normalize_channel_url("channel/UC1"), "https://www.youtube.com/channel/UC1");
}

#[test]
fn client_with_auth_is_authenticated() {
    let c = YouTubeClient::with_auth(reqwest::Client::new(), "tok".to_string());
    assert!(c.is_authenticated());
    assert_eq!(c.credentials().map(|(_, t)| t.clone()), Some("tok".to_string()));
}

#[test]
fn page_urls() {
    assert_eq!(page_url("https://x/y?a=1", &None), "https://x/y?a=1");
    assert_eq!(page_url("https://x/y?a=1", &Some("TOK".to_string())), "https://x/y?a=1&pageToken=TOK");
}

#[test]
fn playlist_entries() {
    let entry = |content: Option<&str>, resource: Option<&str>| PlaylistEntry {
        content_video_id: content.map(|s| s.to_string()),
        resource_video_id: resource.map(|s| s.to_string()),
        title: "T".to_string(),
        channel_title: None,
        published_at: Some("2024-01-01T00:00:00Z".to_string()),
        thumbnail_url: "thumb".to_string(),
    };
    let v = playlist_entry_video(entry(Some("c1"), Some("r1"))).unwrap();
    assert_eq!(v.id, "c1");
    assert_eq!(v.channel_title, "Unknown Channel");
    assert_eq!(v.published_at, "2024-01-01T00:00:00Z");
    assert_eq!(v.thumbnail_url, "thumb");
    assert_eq!(playlist_entry_video(entry(None, Some("r1"))).unwrap().id, "r1");
    assert!(playlist_entry_video(entry(None, None)).is_none());
}

#[test]
fn recommendations_take_ten_per_channel_and_fifty_in_all() {
    let channel = |c: usize, n: usize| -> Vec<Video> {
        (0..n).map(|i| video(&format!("{}-{}", c, i), "t", "ch", "d")).collect()
    };
    let merged = merge_recommendations(vec![channel(0, 3), channel(1, 12)]);
    assert_eq!(merged.len(), 13);
    assert_eq!(merged[3].id, "1-0");
    assert_eq!(merged[12].id, "1-9");
    let many = merge_recommendations((0..7).map(|c| channel(c, 10)).collect());
    assert_eq!(many.len(), 50);
    assert_eq!(many[49].id, "4-9");
    assert!(merge_recommendations(vec![]).is_empty());
}

#[test]
fn recommendation_pages_and_errors() {
    let sources = rustyoutube::catalog::recommendation_sources();
    assert_eq!(sources.len(), 4);
    assert_eq!(sources[0].0, "https://www.youtube.com/feed/trending");
    assert_eq!(sources[0].1, vec!["--extractor-args", "youtube:player_client=web"]);
    assert!(sources[3].1.is_empty());
    let args = rustyoutube::catalog::feed_args(&sources[0].1, &sources[0].0);
    assert_eq!(
        args,
        vec![
            "--flat-playlist", "--print", "%(id)s|%(title)s|%(uploader)s|%(upload_date)s", "--playlist-end", "50",
            "--no-warnings", "--extractor-args", "youtube:player_client=web", "https://www.youtube.com/feed/trending",
        ]
    );
    let last = rustyoutube::catalog::note_failure(None, "  ERROR: boom \n");
    assert_eq!(last, Some("ERROR: boom".to_string()));
    let kept = rustyoutube::catalog::note_failure(last.clone(), "ERROR: Unsupported URL: x");
    assert_eq!(kept, last);
    let msg = rustyoutube::catalog::no_recommendations_message(&None);
    assert!(msg.starts_with("Could not fetch recommendations.\n\n"));
    assert!(msg.ends_with("Last error: Unknown error"));
    assert!(rustyoutube::catalog::no_recommendations_message(&kept).ends_with("Last error: ERROR: boom"));
}

#[test]
fn channel_and_search_arguments() {
    assert_eq!(
        rustyoutube::catalog::channel_args("@handle"),
        vec!["--flat-playlist", "--print", "%(id)s|%(title)s|%(uploader)s|%(upload_date)s", "--playlist-end", "20", "https://www.youtube.com/@handle/videos"]
    );
    assert_eq!(
        rustyoutube::catalog::search_args("rust verus"),
        vec!["--flat-playlist", "--print", "%(id)s|%(title)s|%(uploader)s|%(upload_date)s", "ytsearch30:rust verus"]
    );
}
