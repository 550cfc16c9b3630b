use rustyoutube::setup::{
    command_name, download_percent, install_plan, is_current_version, pick_asset, release_asset_matches, upgrade_plan,
    InstallStep, Platform, Setup, SetupAction, SetupPhase, Tool,
};

fn s(v: &[&str]) -> Vec<String> {
    v.iter().map(|x| x.to_string()).collect()
}

fn run(program: &str, args: &[&str]) -> SetupAction {
    SetupAction::Run { program: program.to_string(), args: s(args) }
}

fn check(cmd: &str) -> SetupAction {
    SetupAction::CheckCommand { command: cmd.to_string() }
}

#[test]
fn plans_per_platform() {
    assert_eq!(install_plan(Tool::Mpv, Platform::Other), vec![]);
    assert_eq!(
        install_plan(Tool::Mpv, Platform::MacOs),
        vec![InstallStep::Package { needs: s(&["brew"]), program: None, args: s(&["install", "mpv"]) }]
    );
    let linux = install_plan(Tool::YtDlp, Platform::Linux);
    assert_eq!(linux.len(), 3);
    assert_eq!(
        linux[1],
        InstallStep::Package { needs: s(&["apt"]), program: Some("sudo".to_string()), args: s(&["apt", "install", "-y", "yt-dlp"]) }
    );
    assert_eq!(install_plan(Tool::YtDlp, Platform::Windows)[0], InstallStep::Download);
    assert_eq!(install_plan(Tool::YtDlp, Platform::Windows).len(), 5);
    assert_eq!(command_name(Tool::YtDlp, Platform::Windows), "yt-dlp.exe");
    assert_eq!(command_name(Tool::Mpv, Platform::Linux), "mpv");
}

#[test]
fn found_on_path_needs_nothing_more() {
    let mut m = Setup::new(Tool::Mpv, Platform::Linux);
    assert_eq!(m.step(false), check("mpv"));
    assert_eq!(m.step(true), SetupAction::Ready);
    assert_eq!(m.phase(), SetupPhase::Finished);
    assert_eq!(m.step(true), SetupAction::Ignore);
}

#[test]
fn found_extraction_tool_is_upgraded_when_due() {
    let mut m = Setup::new(Tool::YtDlp, Platform::MacOs);
    assert_eq!(m.step(false), check("yt-dlp"));
    assert_eq!(m.step(true), SetupAction::Upgrade { local: false });
}

#[test]
fn windows_prefers_local_copy() {
    let mut m = Setup::new(Tool::Mpv, Platform::Windows);
    assert_eq!(m.step(false), SetupAction::CheckLocal);
    assert_eq!(m.step(true), SetupAction::Upgrade { local: true });
}

#[test]
fn linux_tries_package_managers_in_order() {
    let mut m = Setup::new(Tool::YtDlp, Platform::Linux);
    assert_eq!(m.step(false), check("yt-dlp"));
    assert_eq!(m.step(false), check("pip3"));
    assert_eq!(m.step(false), check("pip"));
    assert_eq!(m.step(true), run("pip", &["install", "--user", "--upgrade", "yt-dlp"]));
    assert_eq!(m.step(true), check("yt-dlp"));
    assert_eq!(m.step(false), check("apt"));
    assert_eq!(m.step(true), run("sudo", &["apt", "install", "-y", "yt-dlp"]));
    assert_eq!(m.step(false), check("pacman"));
    assert_eq!(m.step(false), check("yt-dlp"));
    assert_eq!(m.step(false), SetupAction::Fail);
}

#[test]
fn windows_download_then_managers() {
    let mut m = Setup::new(Tool::Mpv, Platform::Windows);
    m.step(false);
    assert_eq!(m.step(false), check("mpv.exe"));
    assert_eq!(m.step(false), SetupAction::Download);
    assert_eq!(m.step(true), SetupAction::CheckLocal);
    assert_eq!(m.step(false), check("winget"));
    assert_eq!(
        m.step(true),
        run("winget", &["install", "--id", "Gyan.mpv", "--silent", "--accept-package-agreements", "--accept-source-agreements"])
    );
    assert_eq!(m.step(true), SetupAction::Ready);
}

#[test]
fn unknown_platform_only_looks_again() {
    let mut m = Setup::new(Tool::Mpv, Platform::Other);
    assert_eq!(m.step(false), check("mpv"));
    assert_eq!(m.step(false), check("mpv"));
    assert_eq!(m.step(true), SetupAction::Ready);
}

#[test]
fn release_assets() {
    assert!(release_asset_matches(Tool::Mpv, "mpv-x86_64-v3-20240101-git-abc.7z"));
    assert!(!release_asset_matches(Tool::Mpv, "mpv-debug-x86_64-v3-20240101.7z"));
    assert!(!release_asset_matches(Tool::Mpv, "mpv-x86_64-v3-debug.7z"));
    assert!(!release_asset_matches(Tool::Mpv, "mpv-x86_64-20240101.7z"));
    assert!(release_asset_matches(Tool::YtDlp, "yt-dlp.exe"));
    assert!(!release_asset_matches(Tool::YtDlp, "yt-dlp_x86.exe"));
    let names = s(&["SHA2-256SUMS", "yt-dlp", "yt-dlp.exe", "yt-dlp.exe"]);
    assert_eq!(pick_asset(Tool::YtDlp, &names), Some(2));
    assert_eq!(pick_asset(Tool::Mpv, &names), None);
}

#[test]
fn version_comparison() {
    assert!(is_current_version("2024.03.10\n", "2024.03.10"));
    assert!(is_current_version("2024.03.10", "vv2024.03.10"));
    assert!(!is_current_version("2024.03.09", "2024.03.10"));
    assert!(is_current_version("", "v"));
    assert!(is_current_version(" ", "vvv"));
}

#[test]
fn upgrade_plans() {
    assert_eq!(
        upgrade_plan(Platform::Linux),
        vec![InstallStep::Package { needs: s(&["pip3", "pip"]), program: None, args: s(&["install", "--user", "--upgrade", "yt-dlp"]) }]
    );
    assert_eq!(upgrade_plan(Platform::Windows).len(), 2);
}

#[test]
fn percent_of_download() {
    assert_eq!(download_percent(5, 0), None);
    assert_eq!(download_percent(50, 200), Some(25));
    assert_eq!(download_percent(u64::MAX, 1), Some(u64::MAX));
    assert_eq!(download_percent(u64::MAX, u64::MAX), Some(100));
}
