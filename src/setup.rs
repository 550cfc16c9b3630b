//! Making the player and the extraction tool available: the ordered list of
//! installation strategies for each tool and platform, and the machine that
//! walks it. The host performs each action and answers with whether it
//! succeeded.
use vstd::prelude::*;
use vstd::string::*;
use crate::text::{contains, contains_text, ends_with, has_prefix, has_suffix, starts_with, strip_leading, trim, trim_start_char, trimmed, views};

verus! {

#[derive(Clone, Copy, PartialEq, Eq, Structural, Debug)]
pub enum Tool {
    Mpv,
    YtDlp,
}

#[derive(Clone, Copy, PartialEq, Eq, Structural, Debug)]
pub enum Platform {
    Windows,
    Linux,
    MacOs,
    Other,
}

/// One way of installing a tool.
#[derive(Debug, PartialEq, Eq)]
pub enum InstallStep {
    /// Download the latest release into the application's own directory.
    Download,
    /// Run a package manager: tried where one of `needs` is available, by
    /// running `program` (or, where there is none, the first available of
    /// `needs`) with `args`.
    Package { needs: Vec<String>, program: Option<String>, args: Vec<String> },
}

pub enum StepView {
    Download,
    Package { needs: Seq<Seq<char>>, program: Option<Seq<char>>, args: Seq<Seq<char>> },
}

impl View for InstallStep {
    type V = StepView;

    open spec fn view(&self) -> StepView {
        match self {
            InstallStep::Download => StepView::Download,
            InstallStep::Package { needs, program, args } => StepView::Package {
                needs: views(needs@),
                program: match program {
                    Some(p) => Some(p@),
                    None => None,
                },
                args: views(args@),
            },
        }
    }
}

pub open spec fn step_views(s: Seq<InstallStep>) -> Seq<StepView> {
    s.map_values(|x: InstallStep| x@)
}

/// The command a tool answers to on a platform.
pub open spec fn command_of(tool: Tool, platform: Platform) -> Seq<char> {
    match (tool, platform) {
        (Tool::Mpv, Platform::Windows) => "mpv.exe"@,
        (Tool::Mpv, _) => "mpv"@,
        (Tool::YtDlp, Platform::Windows) => "yt-dlp.exe"@,
        (Tool::YtDlp, _) => "yt-dlp"@,
    }
}

pub fn command_name(tool: Tool, platform: Platform) -> (r: &'static str)
    ensures
        r@ == command_of(tool, platform),
{
    match (tool, platform) {
        (Tool::Mpv, Platform::Windows) => "mpv.exe",
        (Tool::Mpv, _) => "mpv",
        (Tool::YtDlp, Platform::Windows) => "yt-dlp.exe",
        (Tool::YtDlp, _) => "yt-dlp",
    }
}

pub open spec fn pkg(needs: Seq<Seq<char>>, program: Option<Seq<char>>, args: Seq<Seq<char>>) -> StepView {
    StepView::Package { needs, program, args }
}

/// The strategies, in the order they are tried.
pub open spec fn plan_of(tool: Tool, platform: Platform) -> Seq<StepView> {
    match (tool, platform) {
        (Tool::Mpv, Platform::Windows) => seq![
            StepView::Download,
            pkg(seq!["winget"@], None, seq!["install"@, "--id"@, "Gyan.mpv"@, "--silent"@,
                "--accept-package-agreements"@, "--accept-source-agreements"@]),
            pkg(seq!["choco"@], None, seq!["install"@, "mpv"@, "-y"@]),
            pkg(seq!["scoop"@], None, seq!["install"@, "mpv"@]),
        ],
        (Tool::Mpv, Platform::Linux) => seq![
            pkg(seq!["apt"@], Some("sudo"@), seq!["apt"@, "install"@, "-y"@, "mpv"@]),
            pkg(seq!["pacman"@], Some("sudo"@), seq!["pacman"@, "-S"@, "--noconfirm"@, "mpv"@]),
        ],
        (Tool::Mpv, Platform::MacOs) => seq![pkg(seq!["brew"@], None, seq!["install"@, "mpv"@])],
        (Tool::YtDlp, Platform::Windows) => seq![
            StepView::Download,
            pkg(seq!["pip3"@, "pip"@], None, seq!["install"@, "--upgrade"@, "yt-dlp"@]),
            pkg(seq!["winget"@], None, seq!["install"@, "--id"@, "yt-dlp.yt-dlp"@, "--silent"@,
                "--accept-package-agreements"@, "--accept-source-agreements"@]),
            pkg(seq!["choco"@], None, seq!["install"@, "yt-dlp"@, "-y"@]),
            pkg(seq!["scoop"@], None, seq!["install"@, "yt-dlp"@]),
        ],
        (Tool::YtDlp, Platform::Linux) => seq![
            pkg(seq!["pip3"@, "pip"@], None, seq!["install"@, "--user"@, "--upgrade"@, "yt-dlp"@]),
            pkg(seq!["apt"@], Some("sudo"@), seq!["apt"@, "install"@, "-y"@, "yt-dlp"@]),
            pkg(seq!["pacman"@], Some("sudo"@), seq!["pacman"@, "-S"@, "--noconfirm"@, "yt-dlp"@]),
        ],
        (Tool::YtDlp, Platform::MacOs) => seq![
            pkg(seq!["pip3"@, "pip"@], None, seq!["install"@, "--upgrade"@, "yt-dlp"@]),
            pkg(seq!["brew"@], None, seq!["install"@, "yt-dlp"@]),
        ],
        (_, Platform::Other) => Seq::empty(),
    }
}

fn strings(items: &[&str]) -> (r: Vec<String>)
    ensures
        views(r@) == items@.map_values(|s: &str| s@),
{
    let mut r: Vec<String> = Vec::new();
    let mut i: usize = 0;
    while i < items.len()
        invariant
            i <= items@.len(),
            views(r@) == items@.subrange(0, i as int).map_values(|s: &str| s@),
        decreases items@.len() - i,
    {
        let ghost before = views(r@);
        let s = items[i].to_owned();
        let ghost sv = s@;
        r.push(s);
        assert(views(r@) =~= before.push(sv));
        assert(items@.subrange(0, i + 1).map_values(|s: &str| s@) =~= before.push(sv));
        i += 1;
    }
    assert(items@.subrange(0, i as int) =~= items@);
    r
}

fn package(needs: &[&str], program: Option<&str>, args: &[&str]) -> (r: InstallStep)
    ensures
        r@ == pkg(
            needs@.map_values(|s: &str| s@),
            match program {
                Some(p) => Some(p@),
                None => None,
            },
            args@.map_values(|s: &str| s@),
        ),
{
    let program = match program {
        Some(p) => Some(p.to_owned()),
        None => None,
    };
    InstallStep::Package { needs: strings(needs), program, args: strings(args) }
}

/// The strategies for a tool on a platform, in the order they are tried.
pub fn install_plan(tool: Tool, platform: Platform) -> (r: Vec<InstallStep>)
    ensures
        step_views(r@) == plan_of(tool, platform),
{
    let mut r: Vec<InstallStep> = Vec::new();
    match (tool, platform) {
        (Tool::Mpv, Platform::Windows) => {
            r.push(InstallStep::Download);
            let needs: &[&str] = &["winget"];
            assert(needs@.map_values(|s: &str| s@) =~= seq!["winget"@]);
            let args: &[&str] = &["install", "--id", "Gyan.mpv", "--silent", "--accept-package-agreements", "--accept-source-agreements"];
            assert(args@.map_values(|s: &str| s@) =~= seq!["install"@, "--id"@, "Gyan.mpv"@, "--silent"@, "--accept-package-agreements"@, "--accept-source-agreements"@]);
            r.push(package(needs, None, args));
            let needs: &[&str] = &["choco"];
            assert(needs@.map_values(|s: &str| s@) =~= seq!["choco"@]);
            let args: &[&str] = &["install", "mpv", "-y"];
            assert(args@.map_values(|s: &str| s@) =~= seq!["install"@, "mpv"@, "-y"@]);
            r.push(package(needs, None, args));
            let needs: &[&str] = &["scoop"];
            assert(needs@.map_values(|s: &str| s@) =~= seq!["scoop"@]);
            let args: &[&str] = &["install", "mpv"];
            assert(args@.map_values(|s: &str| s@) =~= seq!["install"@, "mpv"@]);
            r.push(package(needs, None, args));
        },
        (Tool::Mpv, Platform::Linux) => {
            let needs: &[&str] = &["apt"];
            assert(needs@.map_values(|s: &str| s@) =~= seq!["apt"@]);
            let args: &[&str] = &["apt", "install", "-y", "mpv"];
            assert(args@.map_values(|s: &str| s@) =~= seq!["apt"@, "install"@, "-y"@, "mpv"@]);
            r.push(package(needs, Some("sudo"), args));
            let needs: &[&str] = &["pacman"];
            assert(needs@.map_values(|s: &str| s@) =~= seq!["pacman"@]);
            let args: &[&str] = &["pacman", "-S", "--noconfirm", "mpv"];
            assert(args@.map_values(|s: &str| s@) =~= seq!["pacman"@, "-S"@, "--noconfirm"@, "mpv"@]);
            r.push(package(needs, Some("sudo"), args));
        },
        (Tool::Mpv, Platform::MacOs) => {
            let needs: &[&str] = &["brew"];
            assert(needs@.map_values(|s: &str| s@) =~= seq!["brew"@]);
            let args: &[&str] = &["install", "mpv"];
            assert(args@.map_values(|s: &str| s@) =~= seq!["install"@, "mpv"@]);
            r.push(package(needs, None, args));
        },
        (Tool::YtDlp, Platform::Windows) => {
            r.push(InstallStep::Download);
            let needs: &[&str] = &["pip3", "pip"];
            assert(needs@.map_values(|s: &str| s@) =~= seq!["pip3"@, "pip"@]);
            let args: &[&str] = &["install", "--upgrade", "yt-dlp"];
            assert(args@.map_values(|s: &str| s@) =~= seq!["install"@, "--upgrade"@, "yt-dlp"@]);
            r.push(package(needs, None, args));
            let needs: &[&str] = &["winget"];
            assert(needs@.map_values(|s: &str| s@) =~= seq!["winget"@]);
            let args: &[&str] = &["install", "--id", "yt-dlp.yt-dlp", "--silent", "--accept-package-agreements", "--accept-source-agreements"];
            assert(args@.map_values(|s: &str| s@) =~= seq!["install"@, "--id"@, "yt-dlp.yt-dlp"@, "--silent"@, "--accept-package-agreements"@, "--accept-source-agreements"@]);
            r.push(package(needs, None, args));
            let needs: &[&str] = &["choco"];
            assert(needs@.map_values(|s: &str| s@) =~= seq!["choco"@]);
            let args: &[&str] = &["install", "yt-dlp", "-y"];
            assert(args@.map_values(|s: &str| s@) =~= seq!["install"@, "yt-dlp"@, "-y"@]);
            r.push(package(needs, None, args));
            let needs: &[&str] = &["scoop"];
            assert(needs@.map_values(|s: &str| s@) =~= seq!["scoop"@]);
            let args: &[&str] = &["install", "yt-dlp"];
            assert(args@.map_values(|s: &str| s@) =~= seq!["install"@, "yt-dlp"@]);
            r.push(package(needs, None, args));
        },
        (Tool::YtDlp, Platform::Linux) => {
            let needs: &[&str] = &["pip3", "pip"];
            assert(needs@.map_values(|s: &str| s@) =~= seq!["pip3"@, "pip"@]);
            let args: &[&str] = &["install", "--user", "--upgrade", "yt-dlp"];
            assert(args@.map_values(|s: &str| s@) =~= seq!["install"@, "--user"@, "--upgrade"@, "yt-dlp"@]);
            r.push(package(needs, None, args));
            let needs: &[&str] = &["apt"];
            assert(needs@.map_values(|s: &str| s@) =~= seq!["apt"@]);
            let args: &[&str] = &["apt", "install", "-y", "yt-dlp"];
            assert(args@.map_values(|s: &str| s@) =~= seq!["apt"@, "install"@, "-y"@, "yt-dlp"@]);
            r.push(package(needs, Some("sudo"), args));
            let needs: &[&str] = &["pacman"];
            assert(needs@.map_values(|s: &str| s@) =~= seq!["pacman"@]);
            let args: &[&str] = &["pacman", "-S", "--noconfirm", "yt-dlp"];
            assert(args@.map_values(|s: &str| s@) =~= seq!["pacman"@, "-S"@, "--noconfirm"@, "yt-dlp"@]);
            r.push(package(needs, Some("sudo"), args));
        },
        (Tool::YtDlp, Platform::MacOs) => {
            let needs: &[&str] = &["pip3", "pip"];
            assert(needs@.map_values(|s: &str| s@) =~= seq!["pip3"@, "pip"@]);
            let args: &[&str] = &["install", "--upgrade", "yt-dlp"];
            assert(args@.map_values(|s: &str| s@) =~= seq!["install"@, "--upgrade"@, "yt-dlp"@]);
            r.push(package(needs, None, args));
            let needs: &[&str] = &["brew"];
            assert(needs@.map_values(|s: &str| s@) =~= seq!["brew"@]);
            let args: &[&str] = &["install", "yt-dlp"];
            assert(args@.map_values(|s: &str| s@) =~= seq!["install"@, "yt-dlp"@]);
            r.push(package(needs, None, args));
        },
        (_, Platform::Other) => {},
    }
    assert(step_views(r@) =~= plan_of(tool, platform));
    r
}

/// Where the setup of one tool stands.
#[derive(Clone, Copy, PartialEq, Eq, Structural, Debug)]
pub enum SetupPhase {
    Start,
    /// Waiting to learn whether a working copy sits in the application's directory.
    LocalCheck,
    /// Waiting to learn whether the tool's command runs.
    SystemCheck,
    /// Waiting for the download of strategy `step`.
    Downloading { step: usize },
    /// Waiting to learn whether the download left a working copy.
    LocalConfirm { step: usize },
    /// Waiting to learn whether the package manager `needs[candidate]` of `step` runs.
    Probing { step: usize, candidate: usize },
    /// Waiting for the installation command of `step`.
    Running { step: usize },
    /// Waiting to learn whether the tool runs after `step` reported success.
    Confirming { step: usize },
    /// Every strategy tried: a last look for the command.
    FinalCheck,
    Finished,
}

/// What the host is to do next; it answers each with whether it succeeded.
#[derive(Debug, PartialEq, Eq)]
pub enum SetupAction {
    CheckLocal,
    CheckCommand { command: String },
    Download,
    Run { program: String, args: Vec<String> },
    /// The tool is there: look for a newer version where an update check is
    /// due (`local`: the copy in the application's directory), then stop.
    Upgrade { local: bool },
    /// The tool is available.
    Ready,
    /// No strategy made the tool available.
    Fail,
    /// Nothing is pending.
    Ignore,
}

pub enum ActionView {
    CheckLocal,
    CheckCommand(Seq<char>),
    Download,
    Run(Seq<char>, Seq<Seq<char>>),
    Upgrade(bool),
    Ready,
    Fail,
    Ignore,
}

impl View for SetupAction {
    type V = ActionView;

    open spec fn view(&self) -> ActionView {
        match self {
            SetupAction::CheckLocal => ActionView::CheckLocal,
            SetupAction::CheckCommand { command } => ActionView::CheckCommand(command@),
            SetupAction::Download => ActionView::Download,
            SetupAction::Run { program, args } => ActionView::Run(program@, views(args@)),
            SetupAction::Upgrade { local } => ActionView::Upgrade(*local),
            SetupAction::Ready => ActionView::Ready,
            SetupAction::Fail => ActionView::Fail,
            SetupAction::Ignore => ActionView::Ignore,
        }
    }
}

/// The program a package step runs once `needs[candidate]` was found.
pub open spec fn program_for(needs: Seq<Seq<char>>, program: Option<Seq<char>>, candidate: int) -> Seq<char> {
    match program {
        Some(p) => p,
        None => needs[candidate],
    }
}

/// Moving on to strategy `i`, or to the last look once none is left.
pub open spec fn start_step(tool: Tool, platform: Platform, plan: Seq<StepView>, i: int) -> (SetupPhase, ActionView) {
    if i >= plan.len() {
        (SetupPhase::FinalCheck, ActionView::CheckCommand(command_of(tool, platform)))
    } else {
        match plan[i] {
            StepView::Download => (SetupPhase::Downloading { step: i as usize }, ActionView::Download),
            StepView::Package { needs, program, args } => if needs.len() == 0 {
                (
                    SetupPhase::Running { step: i as usize },
                    ActionView::Run(
                        match program {
                            Some(p) => p,
                            None => Seq::empty(),
                        },
                        args,
                    ),
                )
            } else {
                (SetupPhase::Probing { step: i as usize, candidate: 0 }, ActionView::CheckCommand(needs[0]))
            },
        }
    }
}

/// The phases that the machine can be in for a plan.
pub open spec fn phase_fits(phase: SetupPhase, plan: Seq<StepView>) -> bool {
    match phase {
        SetupPhase::Downloading { step } => step < plan.len(),
        SetupPhase::LocalConfirm { step } => step < plan.len(),
        SetupPhase::Running { step } => step < plan.len(),
        SetupPhase::Confirming { step } => step < plan.len(),
        SetupPhase::Probing { step, candidate } => step < plan.len() && plan[step as int] is Package
            && candidate < plan[step as int]->Package_needs.len(),
        _ => true,
    }
}

/// One transition, on the answer `ok` to the previous action.
pub open spec fn setup_next(
    tool: Tool,
    platform: Platform,
    plan: Seq<StepView>,
    phase: SetupPhase,
    ok: bool,
) -> (SetupPhase, ActionView) {
    let cmd = ActionView::CheckCommand(command_of(tool, platform));
    match phase {
        SetupPhase::Start => if platform is Windows {
            (SetupPhase::LocalCheck, ActionView::CheckLocal)
        } else {
            (SetupPhase::SystemCheck, cmd)
        },
        SetupPhase::LocalCheck => if ok {
            (SetupPhase::Finished, ActionView::Upgrade(true))
        } else {
            (SetupPhase::SystemCheck, cmd)
        },
        SetupPhase::SystemCheck => if ok {
            (SetupPhase::Finished, if tool is YtDlp { ActionView::Upgrade(false) } else { ActionView::Ready })
        } else {
            start_step(tool, platform, plan, 0)
        },
        SetupPhase::Downloading { step } => if ok {
            (SetupPhase::LocalConfirm { step }, ActionView::CheckLocal)
        } else {
            start_step(tool, platform, plan, step + 1)
        },
        SetupPhase::LocalConfirm { step } => if ok {
            (SetupPhase::Finished, ActionView::Ready)
        } else {
            start_step(tool, platform, plan, step + 1)
        },
        SetupPhase::Probing { step, candidate } => {
            let needs = plan[step as int]->Package_needs;
            if ok {
                (
                    SetupPhase::Running { step },
                    ActionView::Run(
                        program_for(needs, plan[step as int]->Package_program, candidate as int),
                        plan[step as int]->Package_args,
                    ),
                )
            } else if candidate + 1 < needs.len() {
                (
                    SetupPhase::Probing { step, candidate: (candidate + 1) as usize },
                    ActionView::CheckCommand(needs[candidate + 1]),
                )
            } else {
                start_step(tool, platform, plan, step + 1)
            }
        },
        SetupPhase::Running { step } => if ok {
            if tool is YtDlp {
                (SetupPhase::Confirming { step }, cmd)
            } else {
                (SetupPhase::Finished, ActionView::Ready)
            }
        } else {
            start_step(tool, platform, plan, step + 1)
        },
        SetupPhase::Confirming { step } => if ok {
            (SetupPhase::Finished, ActionView::Ready)
        } else {
            start_step(tool, platform, plan, step + 1)
        },
        SetupPhase::FinalCheck => if ok {
            (SetupPhase::Finished, ActionView::Ready)
        } else {
            (SetupPhase::Finished, ActionView::Fail)
        },
        SetupPhase::Finished => (SetupPhase::Finished, ActionView::Ignore),
    }
}

fn copy_strings(v: &Vec<String>) -> (r: Vec<String>)
    ensures
        views(r@) == views(v@),
{
    let mut r: Vec<String> = Vec::new();
    let mut i: usize = 0;
    while i < v.len()
        invariant
            i <= v@.len(),
            views(r@) == views(v@.subrange(0, i as int)),
        decreases v@.len() - i,
    {
        let ghost before = views(r@);
        let s = v[i].clone();
        let ghost sv = s@;
        r.push(s);
        assert(views(r@) =~= before.push(sv));
        assert(views(r@) =~= views(v@.subrange(0, i + 1)));
        i += 1;
    }
    assert(v@.subrange(0, i as int) =~= v@);
    r
}

/// Makes one tool available by walking its plan.
pub struct Setup {
    tool: Tool,
    platform: Platform,
    plan: Vec<InstallStep>,
    phase: SetupPhase,
}

impl Setup {
    pub closed spec fn tool_of(&self) -> Tool {
        self.tool
    }

    pub closed spec fn platform_of(&self) -> Platform {
        self.platform
    }

    pub closed spec fn plan_view(&self) -> Seq<StepView> {
        step_views(self.plan@)
    }

    pub closed spec fn phase_view(&self) -> SetupPhase {
        self.phase
    }

    pub open spec fn wf(&self) -> bool {
        phase_fits(self.phase_view(), self.plan_view())
    }

    pub fn new(tool: Tool, platform: Platform) -> (r: Setup)
        ensures
            r.tool_of() == tool,
            r.platform_of() == platform,
            r.plan_view() == plan_of(tool, platform),
            r.phase_view() is Start,
            r.wf(),
    {
        Setup { tool, platform, plan: install_plan(tool, platform), phase: SetupPhase::Start }
    }

    pub fn phase(&self) -> (r: SetupPhase)
        ensures
            r == self.phase_view(),
    {
        self.phase
    }

    fn start(&self, i: usize) -> (r: (SetupPhase, SetupAction))
        ensures
            (r.0, r.1@) == start_step(self.tool, self.platform, step_views(self.plan@), i as int),
            phase_fits(r.0, step_views(self.plan@)),
    {
        let ghost pv = step_views(self.plan@);
        if i >= self.plan.len() {
            return (
                SetupPhase::FinalCheck,
                SetupAction::CheckCommand { command: command_name(self.tool, self.platform).to_owned() },
            );
        }
        assert(pv[i as int] == self.plan@[i as int]@);
        match &self.plan[i] {
            InstallStep::Download => (SetupPhase::Downloading { step: i }, SetupAction::Download),
            InstallStep::Package { needs, program, args } => {
                if needs.len() == 0 {
                    let program = match program {
                        Some(p) => p.clone(),
                        None => String::new(),
                    };
                    (SetupPhase::Running { step: i }, SetupAction::Run { program, args: copy_strings(args) })
                } else {
                    assert(views(needs@)[0] == needs@[0]@);
                    (
                        SetupPhase::Probing { step: i, candidate: 0 },
                        SetupAction::CheckCommand { command: needs[0].clone() },
                    )
                }
            },
        }
    }

    /// Feeds whether the previous action succeeded and returns the next one.
    pub fn step(&mut self, ok: bool) -> (a: SetupAction)
        requires
            old(self).wf(),
        ensures
            final(self).wf(),
            final(self).tool_of() == old(self).tool_of(),
            final(self).platform_of() == old(self).platform_of(),
            final(self).plan_view() == old(self).plan_view(),
            (final(self).phase_view(), a@) == setup_next(
                old(self).tool_of(),
                old(self).platform_of(),
                old(self).plan_view(),
                old(self).phase_view(),
                ok,
            ),
    {
        let ghost pv = step_views(self.plan@);
        let n = self.plan.len();
        assert(pv.len() == n);
        let (p, a) = match self.phase {
            SetupPhase::Start => match self.platform {
                Platform::Windows => (SetupPhase::LocalCheck, SetupAction::CheckLocal),
                _ => (
                    SetupPhase::SystemCheck,
                    SetupAction::CheckCommand { command: command_name(self.tool, self.platform).to_owned() },
                ),
            },
            SetupPhase::LocalCheck => if ok {
                (SetupPhase::Finished, SetupAction::Upgrade { local: true })
            } else {
                (
                    SetupPhase::SystemCheck,
                    SetupAction::CheckCommand { command: command_name(self.tool, self.platform).to_owned() },
                )
            },
            SetupPhase::SystemCheck => if ok {
                match self.tool {
                    Tool::YtDlp => (SetupPhase::Finished, SetupAction::Upgrade { local: false }),
                    Tool::Mpv => (SetupPhase::Finished, SetupAction::Ready),
                }
            } else {
                self.start(0)
            },
            SetupPhase::Downloading { step } => if ok {
                (SetupPhase::LocalConfirm { step }, SetupAction::CheckLocal)
            } else {
                self.start(step + 1)
            },
            SetupPhase::LocalConfirm { step } => if ok {
                (SetupPhase::Finished, SetupAction::Ready)
            } else {
                self.start(step + 1)
            },
            SetupPhase::Probing { step, candidate } => {
                assert(pv[step as int] == self.plan@[step as int]@);
                match &self.plan[step] {
                    InstallStep::Package { needs, program, args } => {
                        let count = needs.len();
                        assert(candidate < count);
                        if ok {
                            let prog = match program {
                                Some(p) => p.clone(),
                                None => needs[candidate].clone(),
                            };
                            assert(views(needs@)[candidate as int] == needs@[candidate as int]@);
                            (SetupPhase::Running { step }, SetupAction::Run { program: prog, args: copy_strings(args) })
                        } else if candidate + 1 < count {
                            assert(views(needs@)[candidate + 1] == needs@[candidate + 1]@);
                            (
                                SetupPhase::Probing { step, candidate: candidate + 1 },
                                SetupAction::CheckCommand { command: needs[candidate + 1].clone() },
                            )
                        } else {
                            self.start(step + 1)
                        }
                    },
                    InstallStep::Download => (SetupPhase::Finished, SetupAction::Ignore),
                }
            },
            SetupPhase::Running { step } => if ok {
                match self.tool {
                    Tool::YtDlp => (
                        SetupPhase::Confirming { step },
                        SetupAction::CheckCommand { command: command_name(self.tool, self.platform).to_owned() },
                    ),
                    Tool::Mpv => (SetupPhase::Finished, SetupAction::Ready),
                }
            } else {
                self.start(step + 1)
            },
            SetupPhase::Confirming { step } => if ok {
                (SetupPhase::Finished, SetupAction::Ready)
            } else {
                self.start(step + 1)
            },
            SetupPhase::FinalCheck => if ok {
                (SetupPhase::Finished, SetupAction::Ready)
            } else {
                (SetupPhase::Finished, SetupAction::Fail)
            },
            SetupPhase::Finished => (SetupPhase::Finished, SetupAction::Ignore),
        };
        self.phase = p;
        a
    }
}

/// The release file that carries a tool's Windows build.
pub open spec fn is_release_asset(tool: Tool, name: Seq<char>) -> bool {
    match tool {
        Tool::Mpv => has_prefix(name, "mpv-x86_64-v3"@) && has_suffix(name, ".7z"@) && !contains_text(name, "debug"@),
        Tool::YtDlp => name == "yt-dlp.exe"@,
    }
}

pub fn release_asset_matches(tool: Tool, name: &str) -> (r: bool)
    ensures
        r == is_release_asset(tool, name@),
{
    match tool {
        Tool::Mpv => starts_with(name, "mpv-x86_64-v3") && ends_with(name, ".7z") && !contains(name, "debug"),
        Tool::YtDlp => {
            let n = name.to_owned();
            let want = "yt-dlp.exe".to_owned();
            n == want
        },
    }
}

/// The first release file that carries the tool's build, by position.
pub fn pick_asset(tool: Tool, names: &Vec<String>) -> (r: Option<usize>)
    ensures
        match r {
            Some(i) => i < names@.len() && is_release_asset(tool, names@[i as int]@) && forall|j: int|
                0 <= j < i ==> !is_release_asset(tool, #[trigger] names@[j]@),
            None => forall|j: int| 0 <= j < names@.len() ==> !is_release_asset(tool, #[trigger] names@[j]@),
        },
{
    let mut i: usize = 0;
    while i < names.len()
        invariant
            i <= names@.len(),
            forall|j: int| 0 <= j < i ==> !is_release_asset(tool, #[trigger] names@[j]@),
        decreases names@.len() - i,
    {
        if release_asset_matches(tool, names[i].as_str()) {
            return Some(i);
        }
        i += 1;
    }
    None
}

/// Whether the installed copy (its `--version` output) is the release
/// tagged `tag`; the tag's leading `v`s do not count.
pub open spec fn is_current(installed: Seq<char>, tag: Seq<char>) -> bool {
    trimmed(installed) == strip_leading(tag, 'v')
}

pub fn is_current_version(installed: &str, tag: &str) -> (r: bool)
    ensures
        r == is_current(installed@, tag@),
{
    let a = trim(installed);
    let b = trim_start_char(tag, 'v').to_owned();
    a == b
}

/// The ways of bringing a system-wide extraction tool up to date, in order;
/// the first that succeeds ends the upgrade.
pub open spec fn upgrade_plan_of(platform: Platform) -> Seq<StepView> {
    if platform is Windows {
        seq![
            pkg(seq!["pip3"@, "pip"@], None, seq!["install"@, "--upgrade"@, "yt-dlp"@]),
            pkg(seq!["winget"@], None, seq!["upgrade"@, "--id"@, "yt-dlp.yt-dlp"@, "--silent"@]),
        ]
    } else {
        seq![pkg(seq!["pip3"@, "pip"@], None, seq!["install"@, "--user"@, "--upgrade"@, "yt-dlp"@])]
    }
}

pub fn upgrade_plan(platform: Platform) -> (r: Vec<InstallStep>)
    ensures
        step_views(r@) == upgrade_plan_of(platform),
{
    let mut r: Vec<InstallStep> = Vec::new();
    let needs: &[&str] = &["pip3", "pip"];
    assert(needs@.map_values(|s: &str| s@) =~= seq!["pip3"@, "pip"@]);
    match platform {
        Platform::Windows => {
            let args: &[&str] = &["install", "--upgrade", "yt-dlp"];
            assert(args@.map_values(|s: &str| s@) =~= seq!["install"@, "--upgrade"@, "yt-dlp"@]);
            r.push(package(needs, None, args));
            let winget: &[&str] = &["winget"];
            assert(winget@.map_values(|s: &str| s@) =~= seq!["winget"@]);
            let args: &[&str] = &["upgrade", "--id", "yt-dlp.yt-dlp", "--silent"];
            assert(args@.map_values(|s: &str| s@) =~= seq!["upgrade"@, "--id"@, "yt-dlp.yt-dlp"@, "--silent"@]);
            r.push(package(winget, None, args));
        },
        _ => {
            let args: &[&str] = &["install", "--user", "--upgrade", "yt-dlp"];
            assert(args@.map_values(|s: &str| s@) =~= seq!["install"@, "--user"@, "--upgrade"@, "yt-dlp"@]);
            r.push(package(needs, None, args));
        },
    }
    assert(step_views(r@) =~= upgrade_plan_of(platform));
    r
}

/// Whole percent of `total` that `downloaded` is, capped at `u64::MAX`.
pub open spec fn percent(downloaded: u64, total: u64) -> u64 {
    let p = (downloaded as int * 100) / total as int;
    if p > u64::MAX {
        u64::MAX
    } else {
        p as u64
    }
}

/// Download progress in whole percent; `None` where the size is unknown.
pub fn download_percent(downloaded: u64, total: u64) -> (r: Option<u64>)
    ensures
        total == 0 ==> r is None,
        total > 0 ==> r == Some(percent(downloaded, total)),
{
    if total == 0 {
        None
    } else {
        let p: u128 = (downloaded as u128 * 100) / total as u128;
        if p > u64::MAX as u128 {
            // only for a count far past the total
            Some(u64::MAX)
        } else {
            Some(p as u64)
        }
    }
}

} // verus!
