use rust_plugin::command::{ExecCommand, ExecMode, ExecResult};
use rust_plugin::error::{FatalError, MandatoryStep};
use rust_plugin::install::{
    bootstrap, bootstrap_script_path, bootstrap_script_url, decide_install, install_action,
    install_toolchain, is_listed, list_toolchains, uninstall_toolchain, InstallAction,
    InstallContext, InstallDecision, InstallEvent, InstallFailure, InstallState, InstallStep,
};
use rust_plugin::proto::{native_install, native_uninstall, uninstall_outcome};
use rust_plugin::triple::{derive_triple, HostArch, HostOS, PlatformTriple};
use rust_plugin::version::{UnresolvedVersionSpec, Version, VersionSpec};

fn exited(exit_code: i32, stdout: &str) -> InstallEvent {
    InstallEvent::Executed(ExecResult::Exited { exit_code, stdout: stdout.to_owned() })
}

fn linux_musl() -> PlatformTriple {
    let probe = ExecResult::Exited { exit_code: 0, stdout: "musl libc (aarch64)".to_owned() };
    derive_triple(HostArch::Arm64, HostOS::Linux, &probe).unwrap()
}

fn windows() -> PlatformTriple {
    derive_triple(HostArch::X64, HostOS::Windows, &ExecResult::Failed).unwrap()
}

fn context(version: VersionSpec, triple: PlatformTriple, has_binaries: bool) -> InstallContext {
    InstallContext { version, triple, tool_dir_has_binaries: has_binaries }
}

fn rustup(args: &[&str], mode: ExecMode) -> ExecCommand {
    ExecCommand {
        command: "rustup".to_owned(),
        args: args.iter().map(|arg| arg.to_string()).collect(),
        mode,
        set_executable: false,
    }
}

/// Drives the machine with the given events and returns every action that
/// was pending on the way, the last one included.
fn run(context: &InstallContext, events: Vec<InstallEvent>) -> (InstallState, Vec<InstallAction>) {
    let mut state = InstallState::Start;
    let mut actions = vec![install_action(context, &state)];
    for event in events {
        let InstallStep { state: next, action } = native_install(context, state, &event);
        state = next;
        actions.push(action);
    }
    (state, actions)
}

#[test]
fn canary_on_linux_arm64_musl_installs_nightly_once() {
    let spec = UnresolvedVersionSpec::parse("canary").unwrap();
    assert_eq!(spec, UnresolvedVersionSpec::Canary);
    let resolved = rust_plugin::proto::resolve_version(&spec).unwrap();
    assert_eq!(resolved, VersionSpec::Alias("nightly".to_owned()));

    let triple = linux_musl();
    assert_eq!(triple.identity(), "aarch64-unknown-linux-musl");
    let context = context(VersionSpec::Canary, triple, false);
    assert_eq!(context.channel(), "nightly");
    assert_eq!(context.target(), "nightly-aarch64-unknown-linux-musl");

    let listing = "stable-aarch64-unknown-linux-musl (default)\n";
    let (state, actions) = run(
        &context,
        vec![InstallEvent::CommandProbed { found: true }, exited(0, listing), exited(0, "")],
    );
    assert_eq!(state, InstallState::Done);
    assert_eq!(
        actions,
        vec![
            InstallAction::ProbeCommand { command: "rustup".to_owned() },
            InstallAction::Execute(rustup(&["toolchain", "list"], ExecMode::Capture)),
            InstallAction::Execute(rustup(
                &["toolchain", "install", "nightly", "--force"],
                ExecMode::Inherit
            )),
            InstallAction::Finish { installed: true },
        ]
    );
    let installs = actions
        .iter()
        .filter(|action| matches!(action, InstallAction::Execute(command) if command.args.contains(&"install".to_owned())))
        .count();
    assert_eq!(installs, 1);
}

#[test]
fn resolved_alias_installs_the_same_channel() {
    let context = context(VersionSpec::Alias("nightly".to_owned()), linux_musl(), false);
    assert_eq!(context.target(), "nightly-aarch64-unknown-linux-musl");
}

#[test]
fn second_install_of_a_healthy_toolchain_is_skipped() {
    let context = context(VersionSpec::Version(Version::new(1, 70, 0)), windows(), true);
    let listing = "stable-x86_64-pc-windows-msvc (default)\r\n1.70.0-x86_64-pc-windows-msvc\r\n";
    let (state, actions) =
        run(&context, vec![InstallEvent::CommandProbed { found: true }, exited(0, listing)]);
    assert_eq!(state, InstallState::Done);
    assert_eq!(
        actions,
        vec![
            InstallAction::ProbeCommand { command: "rustup".to_owned() },
            InstallAction::Execute(rustup(&["toolchain", "list"], ExecMode::Capture)),
            InstallAction::Finish { installed: true },
        ]
    );
}

#[test]
fn broken_toolchain_is_uninstalled_then_installed() {
    let context = context(VersionSpec::Alias("stable".to_owned()), windows(), false);
    let listing = "stable-x86_64-pc-windows-msvc (default)\n";
    let (state, actions) = run(
        &context,
        vec![
            InstallEvent::CommandProbed { found: true },
            exited(0, listing),
            exited(0, ""),
            exited(0, ""),
        ],
    );
    assert_eq!(state, InstallState::Done);
    assert_eq!(
        actions,
        vec![
            InstallAction::ProbeCommand { command: "rustup".to_owned() },
            InstallAction::Execute(rustup(&["toolchain", "list"], ExecMode::Capture)),
            InstallAction::Execute(rustup(&["toolchain", "uninstall", "stable"], ExecMode::Inherit)),
            InstallAction::Execute(rustup(
                &["toolchain", "install", "stable", "--force"],
                ExecMode::Inherit
            )),
            InstallAction::Finish { installed: true },
        ]
    );
}

#[test]
fn failed_uninstall_ends_the_repair() {
    let context = context(VersionSpec::Alias("stable".to_owned()), windows(), false);
    let (state, actions) = run(
        &context,
        vec![
            InstallEvent::CommandProbed { found: true },
            exited(0, "stable-x86_64-pc-windows-msvc\n"),
            exited(1, ""),
        ],
    );
    assert_eq!(state, InstallState::Failed(InstallFailure::CommandFailed(MandatoryStep::Uninstall)));
    assert_eq!(
        actions.last(),
        Some(&InstallAction::Abort(FatalError::ExternalCommandFailed {
            step: MandatoryStep::Uninstall,
            target: "stable-x86_64-pc-windows-msvc".to_owned(),
        }))
    );
    assert!(!actions.contains(&InstallAction::Execute(rustup(
        &["toolchain", "install", "stable", "--force"],
        ExecMode::Inherit
    ))));
}

#[test]
fn failed_install_is_fatal() {
    let context = context(VersionSpec::Alias("beta".to_owned()), linux_musl(), true);
    for failure in [exited(1, ""), exited(-1, ""), InstallEvent::Executed(ExecResult::Failed)] {
        let (state, actions) =
            run(&context, vec![InstallEvent::CommandProbed { found: true }, exited(0, ""), failure]);
        assert_eq!(
            state,
            InstallState::Failed(InstallFailure::CommandFailed(MandatoryStep::Install))
        );
        assert_eq!(
            actions.last(),
            Some(&InstallAction::Abort(FatalError::ExternalCommandFailed {
                step: MandatoryStep::Install,
                target: "beta-aarch64-unknown-linux-musl".to_owned(),
            }))
        );
    }
}

#[test]
fn failed_listing_counts_as_not_listed() {
    let context = context(VersionSpec::Alias("stable".to_owned()), windows(), true);
    let listing = "stable-x86_64-pc-windows-msvc\n";
    for event in [exited(1, listing), InstallEvent::Executed(ExecResult::Failed)] {
        let step = native_install(&context, InstallState::Listing, &event);
        assert_eq!(step.state, InstallState::Installing);
    }
}

#[test]
fn missing_installer_is_bootstrapped_on_unix() {
    let context = context(VersionSpec::Alias("stable".to_owned()), linux_musl(), false);
    let (state, actions) = run(
        &context,
        vec![
            InstallEvent::CommandProbed { found: false },
            InstallEvent::PathChecked { exists: false },
            InstallEvent::Fetched { stored: true },
            exited(0, ""),
            exited(0, ""),
            exited(0, ""),
        ],
    );
    assert_eq!(state, InstallState::Done);
    let script = "/proto/temp/rustup-init.sh".to_owned();
    assert_eq!(
        actions,
        vec![
            InstallAction::ProbeCommand { command: "rustup".to_owned() },
            InstallAction::CheckPath { path: script.clone() },
            InstallAction::Fetch { url: "https://sh.rustup.rs".to_owned(), path: script.clone() },
            InstallAction::Execute(ExecCommand {
                command: script,
                args: vec!["--default-toolchain".to_owned(), "none".to_owned(), "-y".to_owned()],
                mode: ExecMode::Streamed,
                set_executable: true,
            }),
            InstallAction::Execute(rustup(&["toolchain", "list"], ExecMode::Capture)),
            InstallAction::Execute(rustup(
                &["toolchain", "install", "stable", "--force"],
                ExecMode::Inherit
            )),
            InstallAction::Finish { installed: true },
        ]
    );
}

#[test]
fn cached_setup_program_is_not_fetched_again() {
    let context = context(VersionSpec::Alias("stable".to_owned()), windows(), false);
    let (state, actions) = run(
        &context,
        vec![
            InstallEvent::CommandProbed { found: false },
            InstallEvent::PathChecked { exists: true },
        ],
    );
    assert_eq!(state, InstallState::Bootstrapping);
    assert_eq!(actions[1], InstallAction::CheckPath { path: "/proto/temp/rustup-init.exe".to_owned() });
    assert_eq!(actions[2], InstallAction::Execute(bootstrap(HostOS::Windows)));
    assert_eq!(bootstrap(HostOS::Windows).command, "/proto/temp/rustup-init.exe");
}

#[test]
fn setup_program_by_system() {
    assert_eq!(bootstrap_script_path(HostOS::Windows), "/proto/temp/rustup-init.exe");
    assert_eq!(bootstrap_script_path(HostOS::Linux), "/proto/temp/rustup-init.sh");
    assert_eq!(bootstrap_script_path(HostOS::MacOS), "/proto/temp/rustup-init.sh");
    assert_eq!(bootstrap_script_url(HostOS::Windows), "https://win.rustup.rs");
    assert_eq!(bootstrap_script_url(HostOS::Linux), "https://sh.rustup.rs");
    assert_eq!(bootstrap_script_url(HostOS::MacOS), "https://sh.rustup.rs");
}

#[test]
fn installer_that_cannot_be_fetched_is_missing() {
    let context = context(VersionSpec::Alias("stable".to_owned()), linux_musl(), false);
    let (state, actions) = run(
        &context,
        vec![
            InstallEvent::CommandProbed { found: false },
            InstallEvent::PathChecked { exists: false },
            InstallEvent::Fetched { stored: false },
        ],
    );
    assert_eq!(state, InstallState::Failed(InstallFailure::InstallerMissing));
    assert_eq!(actions.last(), Some(&InstallAction::Abort(FatalError::InstallerMissing)));
}

#[test]
fn failed_bootstrap_is_fatal() {
    let context = context(VersionSpec::Alias("stable".to_owned()), linux_musl(), false);
    let step = native_install(&context, InstallState::Bootstrapping, &exited(2, ""));
    assert_eq!(
        step.state,
        InstallState::Failed(InstallFailure::CommandFailed(MandatoryStep::Bootstrap))
    );
    assert_eq!(
        step.action,
        InstallAction::Abort(FatalError::ExternalCommandFailed {
            step: MandatoryStep::Bootstrap,
            target: "stable-aarch64-unknown-linux-musl".to_owned(),
        })
    );
}

#[test]
fn final_states_are_never_left() {
    let context = context(VersionSpec::Alias("stable".to_owned()), linux_musl(), false);
    let failed = InstallState::Failed(InstallFailure::InstallerMissing);
    for event in [
        InstallEvent::CommandProbed { found: true },
        InstallEvent::PathChecked { exists: true },
        InstallEvent::Fetched { stored: true },
        exited(0, "stable-aarch64-unknown-linux-musl"),
    ] {
        let done = native_install(&context, InstallState::Done, &event);
        assert_eq!(done.state, InstallState::Done);
        assert_eq!(done.action, InstallAction::Finish { installed: true });
        let again = native_install(&context, failed, &event);
        assert_eq!(again.state, failed);
        assert_eq!(again.action, InstallAction::Abort(FatalError::InstallerMissing));
    }
}

#[test]
fn event_of_another_kind_is_a_negative_answer() {
    let context = context(VersionSpec::Alias("stable".to_owned()), linux_musl(), true);
    let found = InstallEvent::CommandProbed { found: true };
    assert_eq!(
        native_install(&context, InstallState::Start, &exited(0, "")).state,
        InstallState::CheckingScript
    );
    assert_eq!(
        native_install(&context, InstallState::CheckingScript, &found).state,
        InstallState::FetchingScript
    );
    assert_eq!(
        native_install(&context, InstallState::FetchingScript, &found).state,
        InstallState::Failed(InstallFailure::InstallerMissing)
    );
    assert_eq!(
        native_install(&context, InstallState::Listing, &found).state,
        InstallState::Installing
    );
    assert_eq!(
        native_install(&context, InstallState::Installing, &found).state,
        InstallState::Failed(InstallFailure::CommandFailed(MandatoryStep::Install))
    );
}

#[test]
fn decisions() {
    assert_eq!(decide_install(true, true, true), InstallDecision::Skip);
    assert_eq!(decide_install(true, true, false), InstallDecision::Repair);
    assert_eq!(decide_install(true, false, true), InstallDecision::Install);
    assert_eq!(decide_install(true, false, false), InstallDecision::Install);
    for listed in [true, false] {
        for has_binaries in [true, false] {
            assert_eq!(
                decide_install(false, listed, has_binaries),
                InstallDecision::BootstrapInstall
            );
        }
    }
}

#[test]
fn listing_is_read_line_by_line() {
    let ok = |text: &str| ExecResult::Exited { exit_code: 0, stdout: text.to_owned() };
    let target = "1.70.0-x86_64-pc-windows-msvc";
    assert!(is_listed(&ok("1.70.0-x86_64-pc-windows-msvc"), target));
    assert!(is_listed(&ok("stable-x\n1.70.0-x86_64-pc-windows-msvc (default)\n"), target));
    assert!(is_listed(&ok("stable-x\r\n1.70.0-x86_64-pc-windows-msvc\r\n"), target));
    assert!(!is_listed(&ok("  1.70.0-x86_64-pc-windows-msvc\n"), target));
    assert!(!is_listed(&ok("1.70.0-x86_64-pc-windows-msv\nc"), target));
    assert!(!is_listed(&ok("1.70.0-x86_64-pc-windows-\nmsvc"), target));
    assert!(!is_listed(&ok(""), target));
    assert!(!is_listed(&ExecResult::Failed, target));
    assert!(!is_listed(
        &ExecResult::Exited { exit_code: 1, stdout: target.to_owned() },
        target
    ));
}

#[test]
fn listing_agrees_with_std_lines() {
    let targets = ["a", "ab", "b\r", "", "\r", "ab\r", "c"];
    let outputs = [
        "", "a", "ab", "ab\n", "ab\r\n", "ab\r", "x\nab", "x\r\nab\r", "\n", "\r\n", "\n\nab",
        "x\rab\n", "b\r\r\n", "c\n\r", "\r",
    ];
    for output in outputs {
        for target in targets {
            let expected = output.lines().any(|line| line.starts_with(target));
            let result = ExecResult::Exited { exit_code: 0, stdout: output.to_owned() };
            assert_eq!(is_listed(&result, target), expected, "{output:?} {target:?}");
        }
    }
}

#[test]
fn installer_commands() {
    assert_eq!(list_toolchains(), rustup(&["toolchain", "list"], ExecMode::Capture));
    assert_eq!(
        uninstall_toolchain("nightly".to_owned()),
        rustup(&["toolchain", "uninstall", "nightly"], ExecMode::Inherit)
    );
    assert_eq!(
        install_toolchain("1.70.0".to_owned()),
        rustup(&["toolchain", "install", "1.70.0", "--force"], ExecMode::Inherit)
    );
}

#[test]
fn uninstall_asks_for_the_channel_of_the_version() {
    assert_eq!(
        native_uninstall(&VersionSpec::Canary),
        rustup(&["toolchain", "uninstall", "nightly"], ExecMode::Inherit)
    );
    assert_eq!(
        native_uninstall(&VersionSpec::Version(Version::new(1, 70, 0))),
        rustup(&["toolchain", "uninstall", "1.70.0"], ExecMode::Inherit)
    );
}

#[test]
fn uninstall_reports_what_the_installer_reported() {
    assert!(uninstall_outcome(&ExecResult::Exited { exit_code: 0, stdout: String::new() }));
    assert!(!uninstall_outcome(&ExecResult::Exited { exit_code: 1, stdout: String::new() }));
    assert!(!uninstall_outcome(&ExecResult::Failed));
}
