//! The install state machine: its context, states, events and actions, and
//! the rules by which it moves.
//!
//! The machine performs nothing itself. In every state one action is
//! pending; the caller performs it and reports what came of it as an event,
//! on which the machine moves to its next state.

use crate::command::{succeeded, texts, ExecCommand, ExecCommandModel, ExecMode, ExecResult};
use crate::error::{FatalError, FatalErrorModel, MandatoryStep};
use crate::helpers::{channel_of, get_channel_from_version};
use crate::text::{any_line_has_prefix, some_line_starts_with};
use crate::triple::{triple_text, HostOS, PlatformTriple};
use crate::version::VersionSpec;
use vstd::prelude::*;
use vstd::string::StringExecFns;

verus! {

/// What an installation is asked for.
#[derive(Clone, Debug, PartialEq, Eq)]
pub struct InstallContext {
    /// The toolchain to make available.
    pub version: VersionSpec,
    /// The platform of the host.
    pub triple: PlatformTriple,
    /// Whether the tool directory holds the toolchain's binaries.
    pub tool_dir_has_binaries: bool,
}

/// What has to happen for a toolchain to be available.
#[derive(Clone, Copy, Debug, PartialEq, Eq, Structural)]
pub enum InstallDecision {
    /// Installed and healthy: nothing to do.
    Skip,
    /// Listed by the installer but without binaries: uninstall, then install.
    Repair,
    /// Not listed: install.
    Install,
    /// The installer itself is absent: set it up, then install.
    BootstrapInstall,
}

/// Why an installation was given up.
#[derive(Clone, Copy, Debug, PartialEq, Eq, Structural)]
pub enum InstallFailure {
    /// The installer is absent and its setup program could not be fetched.
    InstallerMissing,
    /// A mandatory command did not succeed.
    CommandFailed(MandatoryStep),
}

/// The states of an installation.
#[derive(Clone, Copy, Debug, PartialEq, Eq, Structural)]
pub enum InstallState {
    /// Nothing is known yet; the installer is being looked for.
    Start,
    /// The installer is absent; its setup program is being looked for.
    CheckingScript,
    /// The setup program is being fetched.
    FetchingScript,
    /// The setup program is running.
    Bootstrapping,
    /// The installer is listing its toolchains.
    Listing,
    /// A broken toolchain is being uninstalled.
    Uninstalling,
    /// The toolchain is being installed.
    Installing,
    /// The toolchain is available.
    Done,
    /// The installation was given up.
    Failed(InstallFailure),
}

/// What the caller reports after performing an action.
#[derive(Clone, Debug, PartialEq, Eq)]
pub enum InstallEvent {
    /// Whether a command was found on the search path.
    CommandProbed { found: bool },
    /// Whether a path exists.
    PathChecked { exists: bool },
    /// Whether a text was fetched and stored.
    Fetched { stored: bool },
    /// What became of a command.
    Executed(ExecResult),
}

/// What the caller is asked to do.
#[derive(Clone, Debug, PartialEq, Eq)]
pub enum InstallAction {
    /// Look for a command on the search path.
    ProbeCommand { command: String },
    /// Test whether a path exists.
    CheckPath { path: String },
    /// Fetch the text at `url` and store it at `path`.
    Fetch { url: String, path: String },
    /// Run a command.
    Execute(ExecCommand),
    /// Report the outcome: the toolchain is available.
    Finish { installed: bool },
    /// Report the failure.
    Abort(FatalError),
}

/// The mathematical value of an [`InstallAction`].
pub enum InstallActionModel {
    ProbeCommand { command: Seq<char> },
    CheckPath { path: Seq<char> },
    Fetch { url: Seq<char>, path: Seq<char> },
    Execute(ExecCommandModel),
    Finish { installed: bool },
    Abort(FatalErrorModel),
}

impl View for InstallAction {
    type V = InstallActionModel;

    open spec fn view(&self) -> InstallActionModel {
        match self {
            InstallAction::ProbeCommand { command } => InstallActionModel::ProbeCommand {
                command: command@,
            },
            InstallAction::CheckPath { path } => InstallActionModel::CheckPath { path: path@ },
            InstallAction::Fetch { url, path } => InstallActionModel::Fetch {
                url: url@,
                path: path@,
            },
            InstallAction::Execute(command) => InstallActionModel::Execute(command@),
            InstallAction::Finish { installed } => InstallActionModel::Finish {
                installed: *installed,
            },
            InstallAction::Abort(error) => InstallActionModel::Abort(error@),
        }
    }
}

/// One move of the machine: the state it is in now and the action that is
/// pending there.
#[derive(Clone, Debug, PartialEq, Eq)]
pub struct InstallStep {
    pub state: InstallState,
    pub action: InstallAction,
}

/// The name of the installer.
pub open spec fn installer() -> Seq<char> {
    "rustup"@
}

/// The identity of a toolchain on a platform: the channel and the triple,
/// joined by a hyphen.
pub open spec fn target_identity(channel: Seq<char>, triple: Seq<char>) -> Seq<char> {
    channel + "-"@ + triple
}

/// The channel that an installation asks the installer for.
pub open spec fn channel_in(context: InstallContext) -> Seq<char> {
    channel_of(context.version@)
}

/// The identity of the toolchain that an installation is about.
pub open spec fn target_in(context: InstallContext) -> Seq<char> {
    target_identity(channel_in(context), triple_text(context.triple))
}

/// The installer's listing names the target: the listing succeeded and one
/// of its lines begins with the target's identity. A listing that failed
/// names nothing.
pub open spec fn lists_target(listing: ExecResult, target: Seq<char>) -> bool {
    match listing {
        ExecResult::Exited { exit_code, stdout } => exit_code == 0 && some_line_starts_with(
            stdout@,
            target,
        ),
        ExecResult::Failed => false,
    }
}

/// What has to happen, given whether the installer is present, whether it
/// lists the target, and whether the tool directory holds binaries.
pub open spec fn decision(
    installer_present: bool,
    listed: bool,
    tool_dir_has_binaries: bool,
) -> InstallDecision {
    if !installer_present {
        InstallDecision::BootstrapInstall
    } else if listed {
        if tool_dir_has_binaries {
            InstallDecision::Skip
        } else {
            InstallDecision::Repair
        }
    } else {
        InstallDecision::Install
    }
}

/// The event reports a command that ran and ended with exit code zero.
pub open spec fn reports_success(event: InstallEvent) -> bool {
    event matches InstallEvent::Executed(result) && succeeded(result)
}

/// The event reports a listing that names the target.
pub open spec fn reports_listed(event: InstallEvent, target: Seq<char>) -> bool {
    event matches InstallEvent::Executed(result) && lists_target(result, target)
}

/// The state that follows `state` on `event`.
///
/// An event that does not answer the pending action counts as its negative
/// answer. The two final states are never left.
pub open spec fn next_state(
    context: InstallContext,
    state: InstallState,
    event: InstallEvent,
) -> InstallState {
    match state {
        InstallState::Start => if event == (InstallEvent::CommandProbed { found: true }) {
            InstallState::Listing
        } else {
            InstallState::CheckingScript
        },
        InstallState::CheckingScript => if event == (InstallEvent::PathChecked { exists: true }) {
            InstallState::Bootstrapping
        } else {
            InstallState::FetchingScript
        },
        InstallState::FetchingScript => if event == (InstallEvent::Fetched { stored: true }) {
            InstallState::Bootstrapping
        } else {
            InstallState::Failed(InstallFailure::InstallerMissing)
        },
        InstallState::Bootstrapping => if reports_success(event) {
            InstallState::Listing
        } else {
            InstallState::Failed(InstallFailure::CommandFailed(MandatoryStep::Bootstrap))
        },
        InstallState::Listing => match decision(
            true,
            reports_listed(event, target_in(context)),
            context.tool_dir_has_binaries,
        ) {
            InstallDecision::Skip => InstallState::Done,
            InstallDecision::Repair => InstallState::Uninstalling,
            _ => InstallState::Installing,
        },
        InstallState::Uninstalling => if reports_success(event) {
            InstallState::Installing
        } else {
            InstallState::Failed(InstallFailure::CommandFailed(MandatoryStep::Uninstall))
        },
        InstallState::Installing => if reports_success(event) {
            InstallState::Done
        } else {
            InstallState::Failed(InstallFailure::CommandFailed(MandatoryStep::Install))
        },
        InstallState::Done => InstallState::Done,
        InstallState::Failed(failure) => InstallState::Failed(failure),
    }
}

/// Where the installer's setup program is kept on a host.
pub open spec fn script_path(os: HostOS) -> Seq<char> {
    if os == HostOS::Windows {
        "/proto/temp/rustup-init.exe"@
    } else {
        "/proto/temp/rustup-init.sh"@
    }
}

/// Where the installer's setup program is fetched from for a host.
pub open spec fn script_url(os: HostOS) -> Seq<char> {
    if os == HostOS::Windows {
        "https://win.rustup.rs"@
    } else {
        "https://sh.rustup.rs"@
    }
}

/// The setup program, run unattended and without a default toolchain, its
/// output streamed to the caller's log.
pub open spec fn bootstrap_command(os: HostOS) -> ExecCommandModel {
    ExecCommandModel {
        command: script_path(os),
        args: seq!["--default-toolchain"@, "none"@, "-y"@],
        mode: ExecMode::Streamed,
        set_executable: true,
    }
}

/// The installer's listing of its toolchains, captured.
pub open spec fn list_command() -> ExecCommandModel {
    ExecCommandModel {
        command: installer(),
        args: seq!["toolchain"@, "list"@],
        mode: ExecMode::Capture,
        set_executable: false,
    }
}

/// The installer's uninstall command for a channel.
pub open spec fn uninstall_command(channel: Seq<char>) -> ExecCommandModel {
    ExecCommandModel {
        command: installer(),
        args: seq!["toolchain"@, "uninstall"@, channel],
        mode: ExecMode::Inherit,
        set_executable: false,
    }
}

/// The installer's forced install command for a channel.
pub open spec fn install_command(channel: Seq<char>) -> ExecCommandModel {
    ExecCommandModel {
        command: installer(),
        args: seq!["toolchain"@, "install"@, channel, "--force"@],
        mode: ExecMode::Inherit,
        set_executable: false,
    }
}

/// The failure that is reported when an installation is given up: a failed
/// command is reported with the identity of the toolchain that was being
/// installed.
pub open spec fn reported_failure(context: InstallContext, failure: InstallFailure) -> FatalErrorModel {
    match failure {
        InstallFailure::InstallerMissing => FatalErrorModel::InstallerMissing,
        InstallFailure::CommandFailed(step) => FatalErrorModel::ExternalCommandFailed {
            step,
            target: target_in(context),
        },
    }
}

/// The action that is pending in `state`.
pub open spec fn pending_action(context: InstallContext, state: InstallState) -> InstallActionModel {
    match state {
        InstallState::Start => InstallActionModel::ProbeCommand { command: installer() },
        InstallState::CheckingScript => InstallActionModel::CheckPath {
            path: script_path(context.triple.os()),
        },
        InstallState::FetchingScript => InstallActionModel::Fetch {
            url: script_url(context.triple.os()),
            path: script_path(context.triple.os()),
        },
        InstallState::Bootstrapping => InstallActionModel::Execute(
            bootstrap_command(context.triple.os()),
        ),
        InstallState::Listing => InstallActionModel::Execute(list_command()),
        InstallState::Uninstalling => InstallActionModel::Execute(
            uninstall_command(channel_in(context)),
        ),
        InstallState::Installing => InstallActionModel::Execute(
            install_command(channel_in(context)),
        ),
        InstallState::Done => InstallActionModel::Finish { installed: true },
        InstallState::Failed(failure) => InstallActionModel::Abort(
            reported_failure(context, failure),
        ),
    }
}

/// The state is final: the installation is over.
pub open spec fn is_final(state: InstallState) -> bool {
    state is Done || state is Failed
}

/// The states that the machine passes through when it starts in `state` and
/// is given `events` one after another: the state after the first event,
/// the state after the second, and so on.
pub open spec fn states_after(
    context: InstallContext,
    state: InstallState,
    events: Seq<InstallEvent>,
) -> Seq<InstallState>
    decreases events.len(),
{
    if events.len() == 0 {
        Seq::empty()
    } else {
        let next = next_state(context, state, events.first());
        seq![next] + states_after(context, next, events.drop_first())
    }
}

/// An upper bound on the events that the machine still takes in `state`
/// before it is in a final state.
pub open spec fn steps_left(state: InstallState) -> nat {
    match state {
        InstallState::Start => 7,
        InstallState::CheckingScript => 6,
        InstallState::FetchingScript => 5,
        InstallState::Bootstrapping => 4,
        InstallState::Listing => 3,
        InstallState::Uninstalling => 2,
        InstallState::Installing => 1,
        InstallState::Done => 0,
        InstallState::Failed(_) => 0,
    }
}

/// Every event brings the machine nearer to its end: an installation is
/// over after seven events at most.
pub proof fn lemma_every_event_makes_progress(
    context: InstallContext,
    state: InstallState,
    event: InstallEvent,
)
    requires
        !is_final(state),
    ensures
        steps_left(next_state(context, state, event)) < steps_left(state),
        steps_left(state) <= 7,
{
}

/// A final state is never left, whatever is reported afterwards.
pub proof fn lemma_final_state_stays(
    context: InstallContext,
    state: InstallState,
    events: Seq<InstallEvent>,
)
    requires
        is_final(state),
    ensures
        states_after(context, state, events).len() == events.len(),
        forall|i: int|
            0 <= i < events.len() ==> #[trigger] states_after(context, state, events)[i] == state,
    decreases events.len(),
{
    if events.len() > 0 {
        lemma_final_state_stays(context, state, events.drop_first());
    }
}

/// A toolchain that the installer lists and whose binaries are in place is
/// not installed again. With the installer found and the target listed, the
/// machine goes from its start to the listing and from there to its end, and
/// stays there: the decision is to skip, and in no state that it passes
/// through is an install pending.
pub proof fn lemma_healthy_toolchain_is_skipped(
    context: InstallContext,
    listing: ExecResult,
    later: Seq<InstallEvent>,
)
    requires
        context.tool_dir_has_binaries,
        lists_target(listing, target_in(context)),
    ensures
        decision(true, true, context.tool_dir_has_binaries) == InstallDecision::Skip,
        ({
            let events = seq![
                InstallEvent::CommandProbed { found: true },
                InstallEvent::Executed(listing),
            ] + later;
            let states = states_after(context, InstallState::Start, events);
            &&& states.len() == events.len()
            &&& states[0] == InstallState::Listing
            &&& forall|i: int| 1 <= i < states.len() ==> #[trigger] states[i] == InstallState::Done
            &&& forall|i: int| 0 <= i < states.len() ==> #[trigger] states[i] !is Installing
        }),
        pending_action(context, InstallState::Listing) == InstallActionModel::Execute(
            list_command(),
        ),
        pending_action(context, InstallState::Done) == (InstallActionModel::Finish {
            installed: true,
        }),
{
    let probed = InstallEvent::CommandProbed { found: true };
    let listed = InstallEvent::Executed(listing);
    let events = seq![probed, listed] + later;
    let after_probe = events.drop_first();
    assert(after_probe =~= seq![listed] + later);
    assert(after_probe.drop_first() =~= later);
    assert(events.first() == probed);
    assert(after_probe.first() == listed);
    lemma_final_state_stays(context, InstallState::Done, later);
    let states = states_after(context, InstallState::Start, events);
    let tail = states_after(context, InstallState::Listing, after_probe);
    assert(states == seq![InstallState::Listing] + tail);
    assert(tail == seq![InstallState::Done] + states_after(context, InstallState::Done, later));
    assert forall|i: int| 1 <= i < states.len() implies #[trigger] states[i]
        == InstallState::Done by {
        if i >= 2 {
            assert(states[i] == states_after(context, InstallState::Done, later)[i - 2]);
        }
    }
}

/// A toolchain that the installer lists but whose binaries are missing is
/// uninstalled before it is installed. From the listing the machine goes to
/// the uninstall; the install follows it exactly when the uninstall
/// succeeded, and when it failed the installation ends there and no install
/// is ever pending.
pub proof fn lemma_repair_uninstalls_before_installing(
    context: InstallContext,
    listing: ExecResult,
    uninstalled: ExecResult,
    later: Seq<InstallEvent>,
)
    requires
        !context.tool_dir_has_binaries,
        lists_target(listing, target_in(context)),
    ensures
        decision(true, true, context.tool_dir_has_binaries) == InstallDecision::Repair,
        ({
            let events = seq![InstallEvent::Executed(listing), InstallEvent::Executed(uninstalled)]
                + later;
            let states = states_after(context, InstallState::Listing, events);
            &&& states.len() == events.len()
            &&& states[0] == InstallState::Uninstalling
            &&& succeeded(uninstalled) ==> states[1] == InstallState::Installing
            &&& !succeeded(uninstalled) ==> forall|i: int|
                1 <= i < states.len() ==> #[trigger] states[i] == InstallState::Failed(
                    InstallFailure::CommandFailed(MandatoryStep::Uninstall),
                )
        }),
        pending_action(context, InstallState::Uninstalling) == InstallActionModel::Execute(
            uninstall_command(channel_in(context)),
        ),
        pending_action(context, InstallState::Installing) == InstallActionModel::Execute(
            install_command(channel_in(context)),
        ),
{
    let listed = InstallEvent::Executed(listing);
    let reported = InstallEvent::Executed(uninstalled);
    let events = seq![listed, reported] + later;
    let after_listing = events.drop_first();
    assert(after_listing =~= seq![reported] + later);
    assert(after_listing.drop_first() =~= later);
    assert(events.first() == listed);
    assert(after_listing.first() == reported);
    let states = states_after(context, InstallState::Listing, events);
    let tail = states_after(context, InstallState::Uninstalling, after_listing);
    let second = next_state(context, InstallState::Uninstalling, reported);
    assert(states == seq![InstallState::Uninstalling] + tail);
    assert(tail == seq![second] + states_after(context, second, later));
    lemma_states_after_len(context, second, later);
    if !succeeded(uninstalled) {
        lemma_final_state_stays(context, second, later);
        assert forall|i: int| 1 <= i < states.len() implies #[trigger] states[i] == second by {
            if i >= 2 {
                assert(states[i] == states_after(context, second, later)[i - 2]);
            }
        }
    }
}

/// The machine passes through one state for each event.
pub proof fn lemma_states_after_len(
    context: InstallContext,
    state: InstallState,
    events: Seq<InstallEvent>,
)
    ensures
        states_after(context, state, events).len() == events.len(),
    decreases events.len(),
{
    if events.len() > 0 {
        lemma_states_after_len(
            context,
            next_state(context, state, events.first()),
            events.drop_first(),
        );
    }
}

/// Decides what has to happen for a toolchain to be available.
pub fn decide_install(
    installer_present: bool,
    listed: bool,
    tool_dir_has_binaries: bool,
) -> (decided: InstallDecision)
    ensures
        decided == decision(installer_present, listed, tool_dir_has_binaries),
{
    if !installer_present {
        InstallDecision::BootstrapInstall
    } else if listed {
        if tool_dir_has_binaries {
            InstallDecision::Skip
        } else {
            InstallDecision::Repair
        }
    } else {
        InstallDecision::Install
    }
}

impl InstallEvent {
    /// Whether the event reports a command that ran and ended with exit code
    /// zero.
    pub fn is_success(&self) -> (ok: bool)
        ensures
            ok == reports_success(*self),
    {
        match self {
            InstallEvent::Executed(result) => result.is_success(),
            _ => false,
        }
    }
}

impl InstallContext {
    /// The channel that the installer is asked for.
    pub fn channel(&self) -> (channel: String)
        ensures
            channel@ == channel_in(*self),
    {
        get_channel_from_version(&self.version)
    }

    /// The identity of the toolchain on this platform.
    pub fn target(&self) -> (target: String)
        ensures
            target@ == target_in(*self),
    {
        let mut target = get_channel_from_version(&self.version);
        target.append("-");
        target.append(self.triple.identity().as_str());
        target
    }
}

/// Whether the installer's listing names the target.
pub fn is_listed(listing: &ExecResult, target: &str) -> (listed: bool)
    ensures
        listed == lists_target(*listing, target@),
{
    match listing {
        ExecResult::Exited { exit_code, stdout } => *exit_code == 0 && any_line_has_prefix(
            stdout.as_str(),
            target,
        ),
        ExecResult::Failed => false,
    }
}

/// The path of the installer's setup program on a host.
pub fn bootstrap_script_path(os: HostOS) -> (path: String)
    ensures
        path@ == script_path(os),
{
    match os {
        HostOS::Windows => String::from_str("/proto/temp/rustup-init.exe"),
        _ => String::from_str("/proto/temp/rustup-init.sh"),
    }
}

/// The address of the installer's setup program for a host.
pub fn bootstrap_script_url(os: HostOS) -> (url: String)
    ensures
        url@ == script_url(os),
{
    match os {
        HostOS::Windows => String::from_str("https://win.rustup.rs"),
        _ => String::from_str("https://sh.rustup.rs"),
    }
}

/// A command of the installer on its toolchains: `rustup toolchain` and the
/// given words.
fn toolchain_command(words: Vec<String>, mode: ExecMode) -> (command: ExecCommand)
    ensures
        command@ == (ExecCommandModel {
            command: installer(),
            args: seq!["toolchain"@] + texts(words@),
            mode,
            set_executable: false,
        }),
{
    let mut args: Vec<String> = Vec::new();
    args.push(String::from_str("toolchain"));
    let mut words = words;
    let ghost given = words@;
    args.append(&mut words);
    assert(texts(args@) =~= seq!["toolchain"@] + texts(given));
    ExecCommand { command: String::from_str("rustup"), args, mode, set_executable: false }
}

/// The command that runs the installer's setup program.
pub fn bootstrap(os: HostOS) -> (command: ExecCommand)
    ensures
        command@ == bootstrap_command(os),
{
    let mut args: Vec<String> = Vec::new();
    args.push(String::from_str("--default-toolchain"));
    args.push(String::from_str("none"));
    args.push(String::from_str("-y"));
    assert(texts(args@) =~= seq!["--default-toolchain"@, "none"@, "-y"@]);
    ExecCommand {
        command: bootstrap_script_path(os),
        args,
        mode: ExecMode::Streamed,
        set_executable: true,
    }
}

/// The command that lists the installer's toolchains.
pub fn list_toolchains() -> (command: ExecCommand)
    ensures
        command@ == list_command(),
{
    let mut words: Vec<String> = Vec::new();
    words.push(String::from_str("list"));
    let command = toolchain_command(words, ExecMode::Capture);
    assert(command@.args =~= seq!["toolchain"@, "list"@]);
    command
}

/// The command that uninstalls a channel.
pub fn uninstall_toolchain(channel: String) -> (command: ExecCommand)
    ensures
        command@ == uninstall_command(channel@),
{
    let ghost name = channel@;
    let mut words: Vec<String> = Vec::new();
    words.push(String::from_str("uninstall"));
    words.push(channel);
    let command = toolchain_command(words, ExecMode::Inherit);
    assert(command@.args =~= seq!["toolchain"@, "uninstall"@, name]);
    command
}

/// The command that installs a channel, forced.
pub fn install_toolchain(channel: String) -> (command: ExecCommand)
    ensures
        command@ == install_command(channel@),
{
    let ghost name = channel@;
    let mut words: Vec<String> = Vec::new();
    words.push(String::from_str("install"));
    words.push(channel);
    words.push(String::from_str("--force"));
    let command = toolchain_command(words, ExecMode::Inherit);
    assert(command@.args =~= seq!["toolchain"@, "install"@, name, "--force"@]);
    command
}

/// The action that is pending in `state`.
pub fn install_action(context: &InstallContext, state: &InstallState) -> (action: InstallAction)
    ensures
        action@ == pending_action(*context, *state),
{
    match state {
        InstallState::Start => InstallAction::ProbeCommand { command: String::from_str("rustup") },
        InstallState::CheckingScript => InstallAction::CheckPath {
            path: bootstrap_script_path(context.triple.os()),
        },
        InstallState::FetchingScript => InstallAction::Fetch {
            url: bootstrap_script_url(context.triple.os()),
            path: bootstrap_script_path(context.triple.os()),
        },
        InstallState::Bootstrapping => InstallAction::Execute(bootstrap(context.triple.os())),
        InstallState::Listing => InstallAction::Execute(list_toolchains()),
        InstallState::Uninstalling => InstallAction::Execute(
            uninstall_toolchain(context.channel()),
        ),
        InstallState::Installing => InstallAction::Execute(install_toolchain(context.channel())),
        InstallState::Done => InstallAction::Finish { installed: true },
        InstallState::Failed(failure) => InstallAction::Abort(
            match failure {
                InstallFailure::InstallerMissing => FatalError::InstallerMissing,
                InstallFailure::CommandFailed(step) => FatalError::ExternalCommandFailed {
                    step: *step,
                    target: context.target(),
                },
            },
        ),
    }
}

} // verus!
