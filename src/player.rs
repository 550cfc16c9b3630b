//! Player configuration: reading the player's decoder list and building its
//! command line.
use vstd::prelude::*;
use vstd::string::*;
use crate::text::{contains, contains_text, join, joined, views};

verus! {

/// Quality/format selector handed to the extraction tool.
pub const FORMAT_SELECTOR: &'static str = "bestvideo[vcodec^=av01][height<=1080]+bestaudio/best[vcodec^=av01][height<=1080]/bestvideo[vcodec^=vp09][height<=1080]+bestaudio/best[vcodec^=vp09][height<=1080]/best[height<=1080]";

/// A hardware decoding back end the player may offer.
#[derive(Clone, Copy, PartialEq, Eq, Structural, Debug)]
pub enum HwDecoder {
    AutoSafe,
    D3d11va,
    Nvdec,
    Vaapi,
    Videotoolbox,
}

impl HwDecoder {
    pub open spec fn spec_name(self) -> Seq<char> {
        match self {
            HwDecoder::AutoSafe => "auto-safe"@,
            HwDecoder::D3d11va => "d3d11va"@,
            HwDecoder::Nvdec => "nvdec"@,
            HwDecoder::Vaapi => "vaapi"@,
            HwDecoder::Videotoolbox => "videotoolbox"@,
        }
    }

    /// The name the player knows the back end by.
    pub fn name(&self) -> (r: &'static str)
        ensures
            r@ == self.spec_name(),
    {
        match self {
            HwDecoder::AutoSafe => "auto-safe",
            HwDecoder::D3d11va => "d3d11va",
            HwDecoder::Nvdec => "nvdec",
            HwDecoder::Vaapi => "vaapi",
            HwDecoder::Videotoolbox => "videotoolbox",
        }
    }
}

#[derive(Clone, Copy, PartialEq, Eq, Structural, Debug)]
pub enum PerformanceLevel {
    /// Two or more hardware decoders.
    High,
    /// One hardware decoder.
    Medium,
    /// Software decoding only.
    Low,
}

#[derive(Debug, Clone, PartialEq, Eq)]
pub struct HardwareCapabilities {
    pub hwdec_available: Vec<HwDecoder>,
    pub performance_level: PerformanceLevel,
}

pub open spec fn if_found(out: Seq<char>, name: Seq<char>, d: HwDecoder) -> Seq<HwDecoder> {
    if contains_text(out, name) {
        seq![d]
    } else {
        Seq::empty()
    }
}

/// The decoders that the player's `--hwdec=help` output mentions, in a fixed order.
pub open spec fn detected(out: Seq<char>) -> Seq<HwDecoder> {
    (if contains_text(out, "auto"@) || contains_text(out, "auto-safe"@) {
        seq![HwDecoder::AutoSafe]
    } else {
        Seq::empty()
    }) + if_found(out, "d3d11va"@, HwDecoder::D3d11va) + if_found(out, "nvdec"@, HwDecoder::Nvdec)
        + if_found(out, "vaapi"@, HwDecoder::Vaapi) + if_found(
        out,
        "videotoolbox"@,
        HwDecoder::Videotoolbox,
    )
}

pub open spec fn level_for(n: nat) -> PerformanceLevel {
    if n >= 2 {
        PerformanceLevel::High
    } else if n == 1 {
        PerformanceLevel::Medium
    } else {
        PerformanceLevel::Low
    }
}

fn push_if_found(v: &mut Vec<HwDecoder>, out: &str, name: &str, d: HwDecoder)
    ensures
        final(v)@ == old(v)@ + if_found(out@, name@, d),
{
    if contains(out, name) {
        v.push(d);
        assert(final(v)@ =~= old(v)@ + seq![d]);
    } else {
        assert(final(v)@ =~= old(v)@ + Seq::<HwDecoder>::empty());
    }
}

/// Reads the capabilities from the text that `--hwdec=help` printed.
pub fn detect_hardware_capabilities(help_output: &str) -> (r: HardwareCapabilities)
    ensures
        r.hwdec_available@ == detected(help_output@),
        r.performance_level == level_for(detected(help_output@).len()),
{
    let mut v: Vec<HwDecoder> = Vec::new();
    if contains(help_output, "auto") || contains(help_output, "auto-safe") {
        v.push(HwDecoder::AutoSafe);
    }
    assert(v@ =~= if contains_text(help_output@, "auto"@) || contains_text(help_output@, "auto-safe"@) {
        seq![HwDecoder::AutoSafe]
    } else {
        Seq::empty()
    });
    push_if_found(&mut v, help_output, "d3d11va", HwDecoder::D3d11va);
    push_if_found(&mut v, help_output, "nvdec", HwDecoder::Nvdec);
    push_if_found(&mut v, help_output, "vaapi", HwDecoder::Vaapi);
    push_if_found(&mut v, help_output, "videotoolbox", HwDecoder::Videotoolbox);
    let level = if v.len() >= 2 {
        PerformanceLevel::High
    } else if v.len() == 1 {
        PerformanceLevel::Medium
    } else {
        PerformanceLevel::Low
    };
    HardwareCapabilities { hwdec_available: v, performance_level: level }
}

/// The decoder asked for: `auto-safe`, then `d3d11va`, `nvdec`, `vaapi`,
/// in that order of preference, else the first one offered.
pub open spec fn preferred(list: Seq<HwDecoder>) -> HwDecoder {
    if list.contains(HwDecoder::AutoSafe) {
        HwDecoder::AutoSafe
    } else if list.contains(HwDecoder::D3d11va) {
        HwDecoder::D3d11va
    } else if list.contains(HwDecoder::Nvdec) {
        HwDecoder::Nvdec
    } else if list.contains(HwDecoder::Vaapi) {
        HwDecoder::Vaapi
    } else {
        list[0]
    }
}

pub open spec fn level_args(level: PerformanceLevel) -> Seq<Seq<char>> {
    match level {
        PerformanceLevel::High => seq![
            "--profile=gpu-hq"@,
            "--vo=gpu"@,
            "--scale=ewa_lanczossharp"@,
            "--cscale=ewa_lanczossharp"@,
            "--dscale=ewa_lanczossharp"@,
            "--deband=yes"@,
            "--dither-depth=auto"@,
            "--cache=yes"@,
            "--cache-secs=60"@,
            "--demuxer-readahead-secs=30"@,
            "--stream-buffer-size=2MiB"@,
            "--cache-pause=yes"@,
            "--vd-lavc-threads=0"@,
            "--vd-lavc-fast=yes"@,
        ],
        PerformanceLevel::Medium => seq![
            "--vo=gpu"@,
            "--scale=lanczos"@,
            "--cscale=lanczos"@,
            "--deband=yes"@,
            "--cache=yes"@,
            "--cache-secs=45"@,
            "--demuxer-readahead-secs=25"@,
            "--stream-buffer-size=1.5MiB"@,
            "--vd-lavc-threads=0"@,
        ],
        PerformanceLevel::Low => seq![
            "--vo=gpu"@,
            "--cache=yes"@,
            "--cache-secs=30"@,
            "--demuxer-readahead-secs=20"@,
            "--stream-buffer-size=1MiB"@,
            "--framedrop=vo"@,
            "--vd-lavc-threads=0"@,
        ],
    }
}

pub open spec fn hwdec_args(list: Seq<HwDecoder>) -> Seq<Seq<char>> {
    if list.len() > 0 {
        seq!["--hwdec="@ + preferred(list).spec_name(), "--hwdec-codecs=all"@]
    } else {
        Seq::empty()
    }
}

/// The player's arguments, the command first.
pub open spec fn mpv_arg_list(cmd: Seq<char>, list: Seq<HwDecoder>, level: PerformanceLevel) -> Seq<Seq<char>> {
    seq![cmd, "--no-terminal"@, "--really-quiet"@] + hwdec_args(list) + level_args(level) + seq![
        "--target-prim=auto"@,
        "--target-trc=auto"@,
        "--"@,
    ]
}

/// The player's command line: its arguments joined by spaces.
pub open spec fn mpv_command(cmd: Seq<char>, caps: HardwareCapabilities) -> Seq<char> {
    joined(mpv_arg_list(cmd, caps.hwdec_available@, caps.performance_level), " "@)
}

fn push_str(v: &mut Vec<String>, s: &str)
    ensures
        views(final(v)@) == views(old(v)@).push(s@),
{
    v.push(s.to_owned());
    assert(views(final(v)@) =~= views(old(v)@).push(s@));
}

fn has_decoder(list: &Vec<HwDecoder>, d: HwDecoder) -> (r: bool)
    ensures
        r == list@.contains(d),
{
    let mut i: usize = 0;
    while i < list.len()
        invariant
            i <= list@.len(),
            forall|j: int| 0 <= j < i ==> list@[j] != d,
        decreases list@.len() - i,
    {
        if list[i] == d {
            assert(list@[i as int] == d);
            return true;
        }
        i += 1;
    }
    false
}

fn preferred_of(list: &Vec<HwDecoder>) -> (r: HwDecoder)
    requires
        list@.len() > 0,
    ensures
        r == preferred(list@),
{
    if has_decoder(list, HwDecoder::AutoSafe) {
        HwDecoder::AutoSafe
    } else if has_decoder(list, HwDecoder::D3d11va) {
        HwDecoder::D3d11va
    } else if has_decoder(list, HwDecoder::Nvdec) {
        HwDecoder::Nvdec
    } else if has_decoder(list, HwDecoder::Vaapi) {
        HwDecoder::Vaapi
    } else {
        list[0]
    }
}

fn push_level_args(v: &mut Vec<String>, level: PerformanceLevel)
    ensures
        views(final(v)@) == views(old(v)@) + level_args(level),
{
    let ghost start = views(v@);
    match level {
        PerformanceLevel::High => {
            push_str(v, "--profile=gpu-hq");
            push_str(v, "--vo=gpu");
            push_str(v, "--scale=ewa_lanczossharp");
            push_str(v, "--cscale=ewa_lanczossharp");
            push_str(v, "--dscale=ewa_lanczossharp");
            push_str(v, "--deband=yes");
            push_str(v, "--dither-depth=auto");
            push_str(v, "--cache=yes");
            push_str(v, "--cache-secs=60");
            push_str(v, "--demuxer-readahead-secs=30");
            push_str(v, "--stream-buffer-size=2MiB");
            push_str(v, "--cache-pause=yes");
            push_str(v, "--vd-lavc-threads=0");
            push_str(v, "--vd-lavc-fast=yes");
        },
        PerformanceLevel::Medium => {
            push_str(v, "--vo=gpu");
            push_str(v, "--scale=lanczos");
            push_str(v, "--cscale=lanczos");
            push_str(v, "--deband=yes");
            push_str(v, "--cache=yes");
            push_str(v, "--cache-secs=45");
            push_str(v, "--demuxer-readahead-secs=25");
            push_str(v, "--stream-buffer-size=1.5MiB");
            push_str(v, "--vd-lavc-threads=0");
        },
        PerformanceLevel::Low => {
            push_str(v, "--vo=gpu");
            push_str(v, "--cache=yes");
            push_str(v, "--cache-secs=30");
            push_str(v, "--demuxer-readahead-secs=20");
            push_str(v, "--stream-buffer-size=1MiB");
            push_str(v, "--framedrop=vo");
            push_str(v, "--vd-lavc-threads=0");
        },
    }
    assert(views(v@) =~= start + level_args(level));
}

/// The player's command line for these capabilities, arguments joined by spaces.
pub fn build_mpv_args(mpv_cmd: &str, caps: &HardwareCapabilities) -> (r: String)
    ensures
        r@ == mpv_command(mpv_cmd@, *caps),
{
    let mut args: Vec<String> = Vec::new();
    push_str(&mut args, mpv_cmd);
    push_str(&mut args, "--no-terminal");
    push_str(&mut args, "--really-quiet");
    let ghost head = views(args@);
    if caps.hwdec_available.len() > 0 {
        let d = preferred_of(&caps.hwdec_available);
        let mut flag = "--hwdec=".to_owned();
        flag.append(d.name());
        push_str(&mut args, flag.as_str());
        push_str(&mut args, "--hwdec-codecs=all");
    }
    assert(views(args@) =~= head + hwdec_args(caps.hwdec_available@));
    push_level_args(&mut args, caps.performance_level);
    push_str(&mut args, "--target-prim=auto");
    push_str(&mut args, "--target-trc=auto");
    push_str(&mut args, "--");
    assert(views(args@) =~= mpv_arg_list(mpv_cmd@, caps.hwdec_available@, caps.performance_level));
    join(&args, " ")
}

} // verus!
