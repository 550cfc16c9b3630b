use rustyoutube::player::{build_mpv_args, detect_hardware_capabilities, HardwareCapabilities, HwDecoder, PerformanceLevel};

#[test]
fn detects_decoders_in_fixed_order() {
    let caps = detect_hardware_capabilities("Valid values:\n  vaapi\n  nvdec\n  auto-safe\n");
    assert_eq!(caps.hwdec_available, vec![HwDecoder::AutoSafe, HwDecoder::Nvdec, HwDecoder::Vaapi]);
    assert_eq!(caps.performance_level, PerformanceLevel::High);
}

#[test]
fn one_decoder_is_medium() {
    let caps = detect_hardware_capabilities("videotoolbox");
    assert_eq!(caps.hwdec_available, vec![HwDecoder::Videotoolbox]);
    assert_eq!(caps.performance_level, PerformanceLevel::Medium);
}

#[test]
fn no_decoder_is_low() {
    let caps = detect_hardware_capabilities("");
    assert!(caps.hwdec_available.is_empty());
    assert_eq!(caps.performance_level, PerformanceLevel::Low);
}

#[test]
fn low_level_arguments() {
    let caps = HardwareCapabilities { hwdec_available: vec![], performance_level: PerformanceLevel::Low };
    assert_eq!(
        build_mpv_args("mpv", &caps),
        "mpv --no-terminal --really-quiet --vo=gpu --cache=yes --cache-secs=30 --demuxer-readahead-secs=20 \
         --stream-buffer-size=1MiB --framedrop=vo --vd-lavc-threads=0 --target-prim=auto --target-trc=auto --"
    );
}

#[test]
fn medium_level_prefers_first_offered_when_no_preferred() {
    let caps = HardwareCapabilities { hwdec_available: vec![HwDecoder::Videotoolbox], performance_level: PerformanceLevel::Medium };
    assert_eq!(
        build_mpv_args("mpv.exe", &caps),
        "mpv.exe --no-terminal --really-quiet --hwdec=videotoolbox --hwdec-codecs=all --vo=gpu --scale=lanczos \
         --cscale=lanczos --deband=yes --cache=yes --cache-secs=45 --demuxer-readahead-secs=25 \
         --stream-buffer-size=1.5MiB --vd-lavc-threads=0 --target-prim=auto --target-trc=auto --"
    );
}

#[test]
fn high_level_prefers_d3d11va_over_nvdec() {
    let caps = HardwareCapabilities {
        hwdec_available: vec![HwDecoder::Nvdec, HwDecoder::D3d11va],
        performance_level: PerformanceLevel::High,
    };
    assert_eq!(
        build_mpv_args("mpv", &caps),
        "mpv --no-terminal --really-quiet --hwdec=d3d11va --hwdec-codecs=all --profile=gpu-hq --vo=gpu \
         --scale=ewa_lanczossharp --cscale=ewa_lanczossharp --dscale=ewa_lanczossharp --deband=yes \
         --dither-depth=auto --cache=yes --cache-secs=60 --demuxer-readahead-secs=30 --stream-buffer-size=2MiB \
         --cache-pause=yes --vd-lavc-threads=0 --vd-lavc-fast=yes --target-prim=auto --target-trc=auto --"
    );
}

#[test]
fn decoder_names() {
    assert_eq!(HwDecoder::AutoSafe.name(), "auto-safe");
    assert_eq!(HwDecoder::Vaapi.name(), "vaapi");
}
