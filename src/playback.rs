//! Playing and downloading through the extraction tool: its arguments for
//! each attempt, which failure earns another attempt, and what the user is told.
use vstd::prelude::*;
use vstd::string::*;
use crate::dates::{decimal, decimal_text};
use crate::player::{FORMAT_SELECTOR, HardwareCapabilities, build_mpv_args, mpv_command};
use crate::text::{contains, contains_text, views};

verus! {

/// The attempts made to play a video, in order.
#[derive(Clone, Copy, PartialEq, Eq, Structural, Debug)]
pub enum Attempt {
    /// The preferred codecs, with the player tuned to the hardware.
    Preferred,
    /// Any stream up to 1080p.
    Fallback,
    /// Whatever the extraction tool picks.
    Basic,
}

pub const FALLBACK_FORMAT: &'static str = "best[height<=1080]/best";

/// The player command used by the later attempts.
pub open spec fn plain_player(mpv: Seq<char>) -> Seq<char> {
    mpv + " --no-terminal --really-quiet --"@
}

/// The extraction tool's arguments for one attempt; `player` is the command
/// it runs on the stream.
pub open spec fn play_args(attempt: Attempt, player: Seq<char>, url: Seq<char>) -> Seq<Seq<char>> {
    let tail = seq!["--no-playlist"@, "--progress"@, "--newline"@, "--exec"@, player, url];
    match attempt {
        Attempt::Preferred => seq!["--format"@, FORMAT_SELECTOR@] + tail,
        Attempt::Fallback => seq!["--format"@, FALLBACK_FORMAT@] + tail,
        Attempt::Basic => tail,
    }
}

fn push_str(v: &mut Vec<String>, s: &str)
    ensures
        views(final(v)@) == views(old(v)@).push(s@),
{
    v.push(s.to_owned());
    assert(views(final(v)@) =~= views(old(v)@).push(s@));
}

/// The player command for an attempt: tuned to the hardware first, plain later.
pub fn player_command(attempt: Attempt, mpv: &str, caps: &HardwareCapabilities) -> (r: String)
    ensures
        attempt is Preferred ==> r@ == mpv_command(mpv@, *caps),
        !(attempt is Preferred) ==> r@ == plain_player(mpv@),
{
    match attempt {
        Attempt::Preferred => build_mpv_args(mpv, caps),
        _ => {
            let mut s = mpv.to_owned();
            s.append(" --no-terminal --really-quiet --");
            s
        },
    }
}

pub fn ytdlp_play_args(attempt: Attempt, player: &str, url: &str) -> (r: Vec<String>)
    ensures
        views(r@) == play_args(attempt, player@, url@),
{
    let mut v: Vec<String> = Vec::new();
    match attempt {
        Attempt::Preferred => {
            push_str(&mut v, "--format");
            push_str(&mut v, FORMAT_SELECTOR);
        },
        Attempt::Fallback => {
            push_str(&mut v, "--format");
            push_str(&mut v, FALLBACK_FORMAT);
        },
        Attempt::Basic => {},
    }
    push_str(&mut v, "--no-playlist");
    push_str(&mut v, "--progress");
    push_str(&mut v, "--newline");
    push_str(&mut v, "--exec");
    push_str(&mut v, player);
    push_str(&mut v, url);
    assert(views(v@) =~= play_args(attempt, player@, url@));
    v
}

/// The extraction tool's arguments for saving a video in the working directory.
pub open spec fn download_args_of(url: Seq<char>) -> Seq<Seq<char>> {
    seq!["--format"@, FORMAT_SELECTOR@, "--progress"@, "--newline"@, "--output"@, "%(title)s.%(ext)s"@, url]
}

pub fn ytdlp_download_args(url: &str) -> (r: Vec<String>)
    ensures
        views(r@) == download_args_of(url@),
{
    let mut v: Vec<String> = Vec::new();
    push_str(&mut v, "--format");
    push_str(&mut v, FORMAT_SELECTOR);
    push_str(&mut v, "--progress");
    push_str(&mut v, "--newline");
    push_str(&mut v, "--output");
    push_str(&mut v, "%(title)s.%(ext)s");
    push_str(&mut v, url);
    assert(views(v@) =~= download_args_of(url@));
    v
}

/// The exit code the extraction tool gives when a download or stream fails.
pub const DOWNLOAD_ERROR: i32 = 120;

/// The attempt that follows a failed one, if any: the preferred attempt is
/// retried only where the failure concerned the format (or said nothing),
/// the fallback on any download error.
pub open spec fn retry_after(attempt: Attempt, code: Option<i32>, stderr: Seq<char>) -> Option<Attempt> {
    match attempt {
        Attempt::Preferred => if code == Some(DOWNLOAD_ERROR) && (contains_text(stderr, "format"@)
            || contains_text(stderr, "No video formats"@) || stderr.len() == 0) {
            Some(Attempt::Fallback)
        } else {
            None
        },
        Attempt::Fallback => if code == Some(DOWNLOAD_ERROR) {
            Some(Attempt::Basic)
        } else {
            None
        },
        Attempt::Basic => None,
    }
}

pub fn next_attempt(attempt: Attempt, code: Option<i32>, stderr: &str) -> (r: Option<Attempt>)
    ensures
        r == retry_after(attempt, code, stderr@),
{
    match attempt {
        Attempt::Preferred => {
            if code == Some(DOWNLOAD_ERROR) && (contains(stderr, "format") || contains(stderr, "No video formats")
                || stderr.is_empty()) {
                Some(Attempt::Fallback)
            } else {
                None
            }
        },
        Attempt::Fallback => {
            if code == Some(DOWNLOAD_ERROR) {
                Some(Attempt::Basic)
            } else {
                None
            }
        },
        Attempt::Basic => None,
    }
}

/// What a failed preferred attempt most likely means.
pub open spec fn failure_hint(code: Option<i32>, stderr: Seq<char>) -> Seq<char> {
    if code == Some(DOWNLOAD_ERROR) {
        if contains_text(stderr, "HTTP Error 403"@) || contains_text(stderr, "Forbidden"@) {
            "Video is private or unavailable. Try a different video."@
        } else if contains_text(stderr, "timeout"@) || contains_text(stderr, "Connection"@) {
            "Network timeout. Check your internet connection and try again."@
        } else if contains_text(stderr, "format"@) || contains_text(stderr, "No video formats"@) {
            "Format selection failed. Trying fallback format..."@
        } else {
            "Video playback failed. This might be due to network issues or video unavailability."@
        }
    } else if code == Some(1i32) {
        "General error occurred. Check the error messages above."@
    } else if code == Some(2i32) {
        "yt-dlp argument error. This is a bug, please report it."@
    } else {
        "Unknown error occurred during video playback."@
    }
}

pub fn playback_failure_hint(code: Option<i32>, stderr: &str) -> (r: &'static str)
    ensures
        r@ == failure_hint(code, stderr@),
{
    if code == Some(DOWNLOAD_ERROR) {
        if contains(stderr, "HTTP Error 403") || contains(stderr, "Forbidden") {
            "Video is private or unavailable. Try a different video."
        } else if contains(stderr, "timeout") || contains(stderr, "Connection") {
            "Network timeout. Check your internet connection and try again."
        } else if contains(stderr, "format") || contains(stderr, "No video formats") {
            "Format selection failed. Trying fallback format..."
        } else {
            "Video playback failed. This might be due to network issues or video unavailability."
        }
    } else if code == Some(1i32) {
        "General error occurred. Check the error messages above."
    } else if code == Some(2i32) {
        "yt-dlp argument error. This is a bug, please report it."
    } else {
        "Unknown error occurred during video playback."
    }
}

/// An exit code as `{:?}` writes it: `Some(<n>)` or `None`.
pub open spec fn code_text(code: Option<i32>) -> Seq<char> {
    match code {
        Some(n) => "Some("@ + (if n < 0 { "-"@ + decimal((-n) as nat) } else { decimal(n as nat) }) + ")"@,
        None => "None"@,
    }
}

pub fn exit_code_text(code: Option<i32>) -> (r: String)
    ensures
        r@ == code_text(code),
{
    match code {
        Some(n) => {
            let mut s = "Some(".to_owned();
            if n < 0 {
                s.append("-");
                let m: u64 = (0 - n as i64) as u64;
                let d = decimal_text(m);
                s.append(d.as_str());
            } else {
                let d = decimal_text(n as u64);
                s.append(d.as_str());
            }
            s.append(")");
            s
        },
        None => "None".to_owned(),
    }
}

/// What the user is told when an attempt fails and none follows.
pub open spec fn failure_text(attempt: Attempt, code: Option<i32>, stderr: Seq<char>) -> Seq<char> {
    match attempt {
        Attempt::Preferred => failure_hint(code, stderr) + "\nExit code: "@ + code_text(code)
            + "\nError details: "@ + if stderr.len() == 0 {
            "No additional error details available"@
        } else {
            stderr
        },
        Attempt::Fallback => "Video playback failed even with fallback format.\nExit code: "@ + code_text(code)
            + "\nThe video might be unavailable or your network connection is having issues."@,
        Attempt::Basic => "Video playback failed with all format options.\nExit code: "@ + code_text(code)
            + "\nThe video might be unavailable, private, or your network connection is having issues."@,
    }
}

pub fn playback_failure_message(attempt: Attempt, code: Option<i32>, stderr: &str) -> (r: String)
    ensures
        r@ == failure_text(attempt, code, stderr@),
{
    let code_str = exit_code_text(code);
    match attempt {
        Attempt::Preferred => {
            let mut s = playback_failure_hint(code, stderr).to_owned();
            s.append("\nExit code: ");
            s.append(code_str.as_str());
            s.append("\nError details: ");
            if stderr.is_empty() {
                s.append("No additional error details available");
            } else {
                s.append(stderr);
            }
            s
        },
        Attempt::Fallback => {
            let mut s = "Video playback failed even with fallback format.\nExit code: ".to_owned();
            s.append(code_str.as_str());
            s.append("\nThe video might be unavailable or your network connection is having issues.");
            s
        },
        Attempt::Basic => {
            let mut s = "Video playback failed with all format options.\nExit code: ".to_owned();
            s.append(code_str.as_str());
            s.append("\nThe video might be unavailable, private, or your network connection is having issues.");
            s
        },
    }
}

} // verus!
