use rustyoutube::player::{HardwareCapabilities, PerformanceLevel};
use rustyoutube::playback::{
    exit_code_text, next_attempt, playback_failure_hint, playback_failure_message, player_command,
    ytdlp_download_args, ytdlp_play_args, Attempt, FALLBACK_FORMAT,
};

#[test]
fn preferred_attempt_arguments() {
    let args = ytdlp_play_args(Attempt::Preferred, "mpv --x", "https://v");
    assert_eq!(args.len(), 8);
    assert_eq!(args[0], "--format");
    assert!(args[1].starts_with("bestvideo[vcodec^=av01]"));
    assert_eq!(&args[2..], &["--no-playlist", "--progress", "--newline", "--exec", "mpv --x", "https://v"]);
}

#[test]
fn later_attempt_arguments() {
    assert_eq!(
        ytdlp_play_args(Attempt::Fallback, "p", "u"),
        vec!["--format", FALLBACK_FORMAT, "--no-playlist", "--progress", "--newline", "--exec", "p", "u"]
    );
    assert_eq!(ytdlp_play_args(Attempt::Basic, "p", "u"), vec!["--no-playlist", "--progress", "--newline", "--exec", "p", "u"]);
    assert_eq!(ytdlp_download_args("u")[4..].to_vec(), vec!["--output", "%(title)s.%(ext)s", "u"]);
}

#[test]
fn player_commands() {
    let caps = HardwareCapabilities { hwdec_available: vec![], performance_level: PerformanceLevel::Low };
    assert_eq!(player_command(Attempt::Basic, "mpv", &caps), "mpv --no-terminal --really-quiet --");
    assert!(player_command(Attempt::Preferred, "mpv", &caps).contains("--framedrop=vo"));
}

#[test]
fn retries_follow_the_failure() {
    assert_eq!(next_attempt(Attempt::Preferred, Some(120), "ERROR: Requested format is not available"), Some(Attempt::Fallback));
    assert_eq!(next_attempt(Attempt::Preferred, Some(120), ""), Some(Attempt::Fallback));
    assert_eq!(next_attempt(Attempt::Preferred, Some(120), "HTTP Error 403: Forbidden"), None);
    assert_eq!(next_attempt(Attempt::Preferred, Some(1), ""), None);
    assert_eq!(next_attempt(Attempt::Fallback, Some(120), "anything"), Some(Attempt::Basic));
    assert_eq!(next_attempt(Attempt::Fallback, None, ""), None);
    assert_eq!(next_attempt(Attempt::Basic, Some(120), ""), None);
}

#[test]
fn failure_messages() {
    assert_eq!(playback_failure_hint(Some(120), "HTTP Error 403"), "Video is private or unavailable. Try a different video.");
    assert_eq!(playback_failure_hint(Some(120), "Connection reset"), "Network timeout. Check your internet connection and try again.");
    assert_eq!(playback_failure_hint(Some(2), ""), "yt-dlp argument error. This is a bug, please report it.");
    assert_eq!(playback_failure_hint(None, ""), "Unknown error occurred during video playback.");
    assert_eq!(
        playback_failure_message(Attempt::Preferred, Some(1), ""),
        "General error occurred. Check the error messages above.\nExit code: Some(1)\nError details: No additional error details available"
    );
    assert_eq!(
        playback_failure_message(Attempt::Basic, None, "x"),
        "Video playback failed with all format options.\nExit code: None\nThe video might be unavailable, private, or your network connection is having issues."
    );
}

#[test]
fn exit_codes_as_debug_text() {
    for code in [Some(0), Some(120), Some(-1), Some(i32::MIN), Some(i32::MAX), None] {
        assert_eq!(exit_code_text(code), format!("{:?}", code));
    }
}
