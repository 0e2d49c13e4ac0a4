//! The launch of a game: the command that starts it, what its exit means,
//! and the order in which the stages of a launch follow each other.
//!
//! Nothing here starts a process. The command is handed to whoever does,
//! and what then happens comes back as an event.

use vstd::prelude::*;
use crate::error::{Error, ErrorView};
use crate::game::GameConfig;
use crate::platform::SDKOperatingSystem;
use crate::sdk::{install_dir, install_dir_of, opt_text, SDKInfo};
use crate::text::{signed_decimal, signed_decimal_text, texts};
use crate::util::{child, child_path, game_dir, game_dir_path, join_classpath, joined_classpath};

verus! {

/// The process that runs the game.
#[derive(Debug)]
pub struct LaunchCommand {
    /// The executable of the runtime.
    pub program: String,
    /// Its arguments: `-cp`, the classpath, and the main class.
    pub args: Vec<String>,
    /// The directory that the process starts in.
    pub working_dir: String,
    /// Whether the process is detached from the launcher.
    pub detached: bool,
}

/// The executable of a build installed in `install_dir`: under the inner
/// directory of the archive, where the build names one.
pub open spec fn sdk_executable(
    install_dir: Seq<char>,
    inner_path: Option<Seq<char>>,
    executable: Seq<char>,
) -> Seq<char> {
    match inner_path {
        Some(inner) => child(child(install_dir, inner), executable),
        None => child(install_dir, executable),
    }
}

/// The executable of the build that the game runs on, on a host with `os`.
pub open spec fn executable_of(
    sdk_info: SDKInfo,
    cfg: GameConfig,
    data_dir: Seq<char>,
    os: SDKOperatingSystem,
) -> Seq<char> {
    sdk_executable(
        install_dir_of(sdk_info, cfg, data_dir),
        opt_text(sdk_info.inner_path),
        sdk_info.spec_executable_for(os),
    )
}

/// The arguments of the runtime for a classpath and a main class.
pub open spec fn arguments(classpath: Seq<char>, main_class: Seq<char>) -> Seq<Seq<char>> {
    seq!["-cp"@, classpath, main_class]
}

/// The executable of the build that the game runs on.
pub fn prepare_run(
    sdk_info: &SDKInfo,
    cfg: &GameConfig,
    data_dir: &String,
    os: SDKOperatingSystem,
) -> (path: String)
    ensures
        path@ == executable_of(*sdk_info, *cfg, data_dir@, os),
{
    let root = install_dir(sdk_info, cfg, data_dir.as_str());
    let executable = sdk_info.executable_for(os);
    match &sdk_info.inner_path {
        Some(inner) => {
            let inside = child_path(root.as_str(), inner.as_str());
            child_path(inside.as_str(), executable.as_str())
        },
        None => child_path(root.as_str(), executable.as_str()),
    }
}

/// The command that starts the game on the build: the executable of the
/// build, with the classpath joined by the separator of the host and the
/// main class as arguments, in the directory of the game.
pub fn run_with_sdk(
    sdk_info: &SDKInfo,
    cfg: &GameConfig,
    data_dir: &String,
    cp: Vec<String>,
    os: SDKOperatingSystem,
) -> (command: LaunchCommand)
    ensures
        command.program@ == executable_of(*sdk_info, *cfg, data_dir@, os),
        texts(command.args@) == arguments(joined_classpath(texts(cp@), os), cfg.main_class@),
        command.working_dir@ == game_dir(data_dir@, cfg.game@),
        command.detached == (os == SDKOperatingSystem::Windows),
{
    let program = prepare_run(sdk_info, cfg, data_dir, os);
    let joined = join_classpath(&cp, os);
    let mut args: Vec<String> = Vec::new();
    args.push(String::from_str("-cp"));
    args.push(joined);
    args.push(cfg.main_class.clone());
    assert(texts(args@) =~= arguments(joined_classpath(texts(cp@), os), cfg.main_class@));
    LaunchCommand {
        program,
        args,
        working_dir: game_dir_path(data_dir.as_str(), cfg.game.as_str()),
        detached: os.spawns_detached(),
    }
}

/// The stages of a launch.
#[derive(Debug, Clone, Copy, PartialEq, Eq, Structural)]
pub enum LaunchState {
    /// Nothing was asked yet.
    Idle,
    /// The build for the game is being chosen.
    ResolvingVersion,
    /// The build is being made present.
    Provisioning,
    /// The classpath is being assembled.
    BuildingClasspath,
    /// The process is being started; the window of the launcher is hidden.
    Spawning,
    /// The game runs; the window of the launcher is hidden.
    Running,
    /// The game ended well, and the launcher ends with it.
    Succeeded,
    /// The launch failed or the game crashed; the launcher stays.
    Crashed,
}

/// What happened outside since the last step.
#[derive(Debug)]
pub enum LaunchEvent {
    /// The user asked for a launch.
    Requested,
    /// A build was chosen.
    Resolved,
    /// No build could be chosen.
    ResolveFailed(Error),
    /// The build was found installed.
    AlreadyInstalled,
    /// The build has to be installed.
    InstallPlanned,
    /// The build was downloaded and unpacked.
    Installed,
    /// The build could not be made present.
    ProvisionFailed(String),
    /// The classpath is assembled.
    ClasspathBuilt,
    /// The process was started.
    Spawned,
    /// The process could not be started.
    SpawnFailed(String),
    /// The process ended, with its exit code where it has one.
    Exited(Option<i32>),
    /// Waiting for the process failed.
    WaitFailed(String),
}

/// What is to be done outside next.
#[derive(Debug)]
pub enum LaunchAction {
    /// Nothing: the event does not belong to the stage.
    Nothing,
    /// Fetch the manifest and choose the build.
    Resolve,
    /// Look whether the build is installed and plan what is missing.
    CheckInstalled,
    /// Download the archive and unpack it.
    DownloadAndUnpack,
    /// Assemble the classpath.
    BuildClasspath,
    /// Hide the window and start the process.
    HideWindowAndSpawn,
    /// Wait for the process to end.
    Wait,
    /// End the launcher with this exit code.
    ExitLauncher(i32),
    /// Tell the user of the failure, after the window was shown again
    /// where it was hidden.
    Report { restore_window: bool, error: Error },
}

/// A [`LaunchEvent`] with its texts as sequences of characters.
pub enum LaunchEventView {
    Requested,
    Resolved,
    ResolveFailed(ErrorView),
    AlreadyInstalled,
    InstallPlanned,
    Installed,
    ProvisionFailed(Seq<char>),
    ClasspathBuilt,
    Spawned,
    SpawnFailed(Seq<char>),
    Exited(Option<i32>),
    WaitFailed(Seq<char>),
}

/// A [`LaunchAction`] with its texts as sequences of characters.
pub enum LaunchActionView {
    Nothing,
    Resolve,
    CheckInstalled,
    DownloadAndUnpack,
    BuildClasspath,
    HideWindowAndSpawn,
    Wait,
    ExitLauncher(i32),
    Report { restore_window: bool, error: ErrorView },
}

impl View for LaunchEvent {
    type V = LaunchEventView;

    open spec fn view(&self) -> LaunchEventView {
        match self {
            LaunchEvent::Requested => LaunchEventView::Requested,
            LaunchEvent::Resolved => LaunchEventView::Resolved,
            LaunchEvent::ResolveFailed(e) => LaunchEventView::ResolveFailed(e@),
            LaunchEvent::AlreadyInstalled => LaunchEventView::AlreadyInstalled,
            LaunchEvent::InstallPlanned => LaunchEventView::InstallPlanned,
            LaunchEvent::Installed => LaunchEventView::Installed,
            LaunchEvent::ProvisionFailed(w) => LaunchEventView::ProvisionFailed(w@),
            LaunchEvent::ClasspathBuilt => LaunchEventView::ClasspathBuilt,
            LaunchEvent::Spawned => LaunchEventView::Spawned,
            LaunchEvent::SpawnFailed(w) => LaunchEventView::SpawnFailed(w@),
            LaunchEvent::Exited(code) => LaunchEventView::Exited(*code),
            LaunchEvent::WaitFailed(w) => LaunchEventView::WaitFailed(w@),
        }
    }
}

impl View for LaunchAction {
    type V = LaunchActionView;

    open spec fn view(&self) -> LaunchActionView {
        match self {
            LaunchAction::Nothing => LaunchActionView::Nothing,
            LaunchAction::Resolve => LaunchActionView::Resolve,
            LaunchAction::CheckInstalled => LaunchActionView::CheckInstalled,
            LaunchAction::DownloadAndUnpack => LaunchActionView::DownloadAndUnpack,
            LaunchAction::BuildClasspath => LaunchActionView::BuildClasspath,
            LaunchAction::HideWindowAndSpawn => LaunchActionView::HideWindowAndSpawn,
            LaunchAction::Wait => LaunchActionView::Wait,
            LaunchAction::ExitLauncher(code) => LaunchActionView::ExitLauncher(*code),
            LaunchAction::Report { restore_window, error } => LaunchActionView::Report {
                restore_window: *restore_window,
                error: error@,
            },
        }
    }
}

/// The failure of a process that could not be started or waited for.
pub open spec fn crashed(words: Seq<char>) -> ErrorView {
    ErrorView::Launch("Game Crashed: "@ + words)
}

/// The failure of a game that ended with the exit code `code`.
pub open spec fn crashed_with_code(code: i32) -> ErrorView {
    ErrorView::Launch("Game crashed, exit code: "@ + signed_decimal(code as int))
}

/// The failure of a game that ended without an exit code, as one that
/// a signal ended.
pub open spec fn ended_without_code() -> ErrorView {
    crashed("The process ended without an exit code"@)
}

/// The failure of a game that did not end with the exit code 0.
pub open spec fn exit_failure(code: Option<i32>) -> ErrorView {
    match code {
        Some(c) => crashed_with_code(c),
        None => ended_without_code(),
    }
}

/// Whether the window of the launcher is hidden in the stage.
pub open spec fn window_hidden(state: LaunchState) -> bool {
    state == LaunchState::Spawning || state == LaunchState::Running
}

/// Whether a launch has ended in the stage.
pub open spec fn is_final(state: LaunchState) -> bool {
    state == LaunchState::Succeeded || state == LaunchState::Crashed
}

/// The place of a stage in the order of a launch.
pub open spec fn rank(state: LaunchState) -> int {
    match state {
        LaunchState::Idle => 0,
        LaunchState::ResolvingVersion => 1,
        LaunchState::Provisioning => 2,
        LaunchState::BuildingClasspath => 3,
        LaunchState::Spawning => 4,
        LaunchState::Running => 5,
        LaunchState::Succeeded => 6,
        LaunchState::Crashed => 6,
    }
}

/// The stage that follows `state` on `event`, and what is to be done.
///
/// A failure before the process runs leads to `Crashed`, as does an
/// exit code other than 0 and an end without an exit code. The exit code
/// 0 alone leads to `Succeeded` and ends the launcher. An event that does
/// not belong to the stage changes nothing.
pub open spec fn transition(state: LaunchState, event: LaunchEventView) -> (
    LaunchState,
    LaunchActionView,
) {
    match (state, event) {
        (LaunchState::Idle, LaunchEventView::Requested) => (
            LaunchState::ResolvingVersion,
            LaunchActionView::Resolve,
        ),
        (LaunchState::ResolvingVersion, LaunchEventView::Resolved) => (
            LaunchState::Provisioning,
            LaunchActionView::CheckInstalled,
        ),
        (LaunchState::ResolvingVersion, LaunchEventView::ResolveFailed(e)) => (
            LaunchState::Crashed,
            LaunchActionView::Report { restore_window: false, error: e },
        ),
        (LaunchState::Provisioning, LaunchEventView::AlreadyInstalled) => (
            LaunchState::BuildingClasspath,
            LaunchActionView::BuildClasspath,
        ),
        (LaunchState::Provisioning, LaunchEventView::InstallPlanned) => (
            LaunchState::Provisioning,
            LaunchActionView::DownloadAndUnpack,
        ),
        (LaunchState::Provisioning, LaunchEventView::Installed) => (
            LaunchState::BuildingClasspath,
            LaunchActionView::BuildClasspath,
        ),
        (LaunchState::Provisioning, LaunchEventView::ProvisionFailed(words)) => (
            LaunchState::Crashed,
            LaunchActionView::Report { restore_window: false, error: ErrorView::Launch(words) },
        ),
        (LaunchState::BuildingClasspath, LaunchEventView::ClasspathBuilt) => (
            LaunchState::Spawning,
            LaunchActionView::HideWindowAndSpawn,
        ),
        (LaunchState::Spawning, LaunchEventView::Spawned) => (
            LaunchState::Running,
            LaunchActionView::Wait,
        ),
        (LaunchState::Spawning, LaunchEventView::SpawnFailed(words)) => (
            LaunchState::Crashed,
            LaunchActionView::Report { restore_window: true, error: crashed(words) },
        ),
        (LaunchState::Running, LaunchEventView::Exited(code)) => if code == Some(0i32) {
            (LaunchState::Succeeded, LaunchActionView::ExitLauncher(0))
        } else {
            (
                LaunchState::Crashed,
                LaunchActionView::Report { restore_window: true, error: exit_failure(code) },
            )
        },
        (LaunchState::Running, LaunchEventView::WaitFailed(words)) => (
            LaunchState::Crashed,
            LaunchActionView::Report { restore_window: true, error: crashed(words) },
        ),
        _ => (state, LaunchActionView::Nothing),
    }
}

/// `prefix` followed by `words`, as the detail of a failed launch.
fn launch_failure(prefix: &str, words: &str) -> (e: Error)
    ensures
        e@ == ErrorView::Launch(prefix@ + words@),
{
    let mut detail = String::from_str(prefix);
    detail.append(words);
    Error::Launch(detail)
}

/// What the end of the process means: a launcher that ends with it
/// after the exit code 0 and after no other end; else the failure, which
/// names the exit code, or says that there was none.
pub fn exit_outcome(code: Option<i32>) -> (r: Result<(), Error>)
    ensures
        r is Ok <==> code == Some(0i32),
        r matches Err(e) ==> e@ == exit_failure(code),
{
    match code {
        Some(c) => {
            if c == 0 {
                Ok(())
            } else {
                let digits = signed_decimal_text(c);
                Err(launch_failure("Game crashed, exit code: ", digits.as_str()))
            }
        },
        None => Err(launch_failure("Game Crashed: ", "The process ended without an exit code")),
    }
}

/// The stage that follows `state` on `event`, and what is to be done.
pub fn step(state: LaunchState, event: LaunchEvent) -> (next: (LaunchState, LaunchAction))
    ensures
        (next.0, next.1@) == transition(state, event@),
{
    match (state, event) {
        (LaunchState::Idle, LaunchEvent::Requested) => (
            LaunchState::ResolvingVersion,
            LaunchAction::Resolve,
        ),
        (LaunchState::ResolvingVersion, LaunchEvent::Resolved) => (
            LaunchState::Provisioning,
            LaunchAction::CheckInstalled,
        ),
        (LaunchState::ResolvingVersion, LaunchEvent::ResolveFailed(e)) => (
            LaunchState::Crashed,
            LaunchAction::Report { restore_window: false, error: e },
        ),
        (LaunchState::Provisioning, LaunchEvent::AlreadyInstalled) => (
            LaunchState::BuildingClasspath,
            LaunchAction::BuildClasspath,
        ),
        (LaunchState::Provisioning, LaunchEvent::InstallPlanned) => (
            LaunchState::Provisioning,
            LaunchAction::DownloadAndUnpack,
        ),
        (LaunchState::Provisioning, LaunchEvent::Installed) => (
            LaunchState::BuildingClasspath,
            LaunchAction::BuildClasspath,
        ),
        (LaunchState::Provisioning, LaunchEvent::ProvisionFailed(words)) => (
            LaunchState::Crashed,
            LaunchAction::Report { restore_window: false, error: Error::Launch(words) },
        ),
        (LaunchState::BuildingClasspath, LaunchEvent::ClasspathBuilt) => (
            LaunchState::Spawning,
            LaunchAction::HideWindowAndSpawn,
        ),
        (LaunchState::Spawning, LaunchEvent::Spawned) => (
            LaunchState::Running,
            LaunchAction::Wait,
        ),
        (LaunchState::Spawning, LaunchEvent::SpawnFailed(words)) => (
            LaunchState::Crashed,
            LaunchAction::Report {
                restore_window: true,
                error: launch_failure("Game Crashed: ", words.as_str()),
            },
        ),
        (LaunchState::Running, LaunchEvent::Exited(code)) => match exit_outcome(code) {
            Ok(()) => (LaunchState::Succeeded, LaunchAction::ExitLauncher(0)),
            Err(e) => (LaunchState::Crashed, LaunchAction::Report { restore_window: true, error: e }),
        },
        (LaunchState::Running, LaunchEvent::WaitFailed(words)) => (
            LaunchState::Crashed,
            LaunchAction::Report {
                restore_window: true,
                error: launch_failure("Game Crashed: ", words.as_str()),
            },
        ),
        (state, _) => (state, LaunchAction::Nothing),
    }
}

/// A launch never goes back: each step stays in its stage or moves to a
/// later one, and a launch that has ended stays as it is.
pub proof fn lemma_launch_moves_forward(state: LaunchState, event: LaunchEventView)
    ensures
        rank(state) <= rank(transition(state, event).0),
        is_final(state) ==> transition(state, event) == (state, LaunchActionView::Nothing),
{
}

/// Whoever is told of a failure sees the launcher: where a launch fails
/// while the window is hidden, the window is shown again before the
/// failure is reported. A launch that fails does not end the launcher.
pub proof fn lemma_failure_restores_window(state: LaunchState, event: LaunchEventView)
    requires
        state != LaunchState::Crashed,
        transition(state, event).0 == LaunchState::Crashed,
    ensures
        transition(state, event).1 is Report,
        transition(state, event).1->restore_window == window_hidden(state),
{
}

/// A build that is found installed is not fetched: the launch goes on
/// to the classpath and from there to the start of the process, and
/// nothing but a plan to install ever asks for a download.
pub proof fn lemma_installed_build_skips_download(state: LaunchState, event: LaunchEventView)
    ensures
        transition(LaunchState::Provisioning, LaunchEventView::AlreadyInstalled) == (
            LaunchState::BuildingClasspath,
            LaunchActionView::BuildClasspath,
        ),
        transition(LaunchState::BuildingClasspath, LaunchEventView::ClasspathBuilt) == (
            LaunchState::Spawning,
            LaunchActionView::HideWindowAndSpawn,
        ),
        transition(state, event).1 is DownloadAndUnpack ==> state == LaunchState::Provisioning
            && event is InstallPlanned,
{
}

/// The exit code decides how a launch ends: 0 ends the launcher with
/// the code 0; any other code, and an end without a code, leaves the
/// launcher running, with its window shown again and a failure that names
/// the code or says that there was none. Nothing else ends the launcher.
pub proof fn lemma_exit_code_decides(code: Option<i32>)
    ensures
        code == Some(0i32) ==> transition(LaunchState::Running, LaunchEventView::Exited(code)) == (
            LaunchState::Succeeded,
            LaunchActionView::ExitLauncher(0),
        ),
        code != Some(0i32) ==> transition(LaunchState::Running, LaunchEventView::Exited(code)) == (
            LaunchState::Crashed,
            LaunchActionView::Report { restore_window: true, error: exit_failure(code) },
        ),
        code matches Some(c) ==> c != 0 ==> exit_failure(code) == crashed_with_code(c),
        forall|state: LaunchState, event: LaunchEventView|
            transition(state, event).1 is ExitLauncher ==> state == LaunchState::Running && event
                == LaunchEventView::Exited(Some(0i32)),
{
}

} // verus!
