//! The entry points of the plugin's decision core.

use crate::command::{succeeded, texts, ExecCommand, ExecCommandModel, ExecMode, ExecResult};
use crate::error::{FatalError, MandatoryStep, Tolerated};
use crate::helpers::{channel_of, get_channel_from_version, is_non_version, is_non_version_channel};
use crate::install::{
    decide_install, install_action, is_final, is_listed, next_state, pending_action,
    uninstall_command, uninstall_toolchain, InstallContext, InstallDecision, InstallEvent,
    InstallFailure, InstallState, InstallStep,
};
use crate::inventory::{
    entry_adds, holds_version, installed_identity, inventory, lemma_any_malformed_entry_fails,
    lemma_first_malformed_entry_stands, models, reported_version, suffix_of, version_suffix,
    DirectoryEntry,
};
use crate::text::{has_prefix, same_text, starts_with};
use crate::triple::{triple_text, HostOS, PlatformTriple};
use crate::version::{
    is_canary, parse_outcome, parsed_spec, SpecError, SpecModel, UnresolvedVersionSpec, Version,
    VersionModel, VersionSpec,
};
use vstd::prelude::*;
use vstd::string::StringExecFns;

verus! {

/// The kinds of tool that a plugin can provide.
#[derive(Clone, Copy, Debug, PartialEq, Eq, Structural)]
pub enum PluginType {
    Language,
    DependencyManager,
    CLI,
}

/// How the host keeps the inventory of the tool.
#[derive(Clone, Debug, PartialEq, Eq)]
pub struct ToolInventoryMetadata {
    /// Whether progress bars are switched off while installing.
    pub disable_progress_bars: bool,
    /// The directory that holds the installed versions.
    pub override_dir: Option<String>,
    /// What follows the version in the name of a version's directory.
    pub version_suffix: Option<String>,
}

/// What the plugin tells the host about the tool.
#[derive(Clone, Debug, PartialEq, Eq)]
pub struct ToolMetadataOutput {
    pub name: String,
    pub type_of: PluginType,
    pub default_version: Option<UnresolvedVersionSpec>,
    pub inventory: ToolInventoryMetadata,
}

/// Describes the tool to the host: its name, the `stable` channel as its
/// default version, and an inventory that is the installer's own directory of
/// toolchains, whose names end with a hyphen and the platform triple.
pub fn register_tool(toolchains_dir: String, triple: &PlatformTriple) -> (metadata:
    ToolMetadataOutput)
    ensures
        metadata.name@ == "Rust"@,
        metadata.type_of == PluginType::Language,
        metadata.default_version matches Some(spec) && spec@ == SpecModel::Alias("stable"@),
        metadata.inventory.disable_progress_bars,
        metadata.inventory.override_dir == Some(toolchains_dir),
        metadata.inventory.version_suffix matches Some(suffix) && suffix@ == suffix_of(
            triple_text(*triple),
        ),
{
    ToolMetadataOutput {
        name: String::from_str("Rust"),
        type_of: PluginType::Language,
        default_version: Some(UnresolvedVersionSpec::Alias(String::from_str("stable"))),
        inventory: ToolInventoryMetadata {
            disable_progress_bars: true,
            override_dir: Some(toolchains_dir),
            version_suffix: Some(version_suffix(triple)),
        },
    }
}

/// What a specifier resolves to without consulting anything else: a channel
/// resolves to itself, the canary marker to the `nightly` channel, and a
/// concrete version or a requirement to nothing, which leaves the caller's
/// own specifier standing.
pub open spec fn resolved(initial: SpecModel) -> Option<SpecModel> {
    if is_non_version(initial) && initial is Alias {
        Some(initial)
    } else if is_canary(initial) {
        Some(SpecModel::Alias("nightly"@))
    } else {
        None
    }
}

/// The value of a specifier that may be absent.
pub open spec fn spec_of(version: Option<VersionSpec>) -> Option<SpecModel> {
    match version {
        Some(spec) => Some(spec@),
        None => None,
    }
}

/// Resolves a specifier by its shape alone.
///
/// A channel alias comes back unchanged, the canary marker comes back as
/// the alias `nightly`, and a concrete version has no override.
pub fn resolve_version(initial: &UnresolvedVersionSpec) -> (version: Option<VersionSpec>)
    ensures
        spec_of(version) == resolved(initial@),
        is_non_version(initial@) && initial@ is Alias ==> spec_of(version) == Some(initial@),
        initial@ is Canary ==> spec_of(version) == Some(SpecModel::Alias("nightly"@)),
        initial@ is Version ==> version is None,
{
    match initial {
        UnresolvedVersionSpec::Alias(alias) => {
            if is_non_version_channel(initial) {
                Some(VersionSpec::Alias(alias.clone()))
            } else if initial.is_canary() {
                Some(VersionSpec::Alias(String::from_str("nightly")))
            } else {
                None
            }
        },
        UnresolvedVersionSpec::Canary => Some(VersionSpec::Alias(String::from_str("nightly"))),
        _ => None,
    }
}

/// The three channel names and every dated nightly resolve to themselves:
/// `stable`, `beta`, `nightly`, and `nightly-` followed by any suffix.
pub proof fn lemma_channels_resolve_unchanged(suffix: Seq<char>)
    ensures
        resolved(SpecModel::Alias("stable"@)) == Some(SpecModel::Alias("stable"@)),
        resolved(SpecModel::Alias("beta"@)) == Some(SpecModel::Alias("beta"@)),
        resolved(SpecModel::Alias("nightly"@)) == Some(SpecModel::Alias("nightly"@)),
        resolved(SpecModel::Alias("nightly-"@ + suffix)) == Some(
            SpecModel::Alias("nightly-"@ + suffix),
        ),
{
    reveal_strlit("nightly");
    reveal_strlit("nightly-");
    let dated = "nightly-"@ + suffix;
    assert(dated.subrange(0, 7) =~= "nightly"@);
    assert("nightly"@.subrange(0, 7) =~= "nightly"@);
}

/// The names of the files that pin a toolchain, in the order in which they
/// are looked for.
pub fn detect_version_files() -> (files: Vec<String>)
    ensures
        texts(files@) == seq!["rust-toolchain.toml"@, "rust-toolchain"@],
{
    let mut files: Vec<String> = Vec::new();
    files.push(String::from_str("rust-toolchain.toml"));
    files.push(String::from_str("rust-toolchain"));
    assert(texts(files@) =~= seq!["rust-toolchain.toml"@, "rust-toolchain"@]);
    files
}

/// A tag of the toolchain's repository names a release that can still be
/// installed: neither one of the old `release-` tags nor a `0.` version.
pub open spec fn is_current_tag(tag: Seq<char>) -> bool {
    !starts_with(tag, "release-"@) && !starts_with(tag, "0."@)
}

/// Keeps the tags that name releases which can still be installed, in their
/// order.
pub fn load_versions(tags: &Vec<String>) -> (kept: Vec<String>)
    ensures
        texts(kept@) == texts(tags@).filter(|tag: Seq<char>| is_current_tag(tag)),
{
    let ghost keep = |tag: Seq<char>| is_current_tag(tag);
    let mut kept: Vec<String> = Vec::new();
    proof {
        reveal(Seq::filter);
        assert(texts(tags@).take(0) =~= Seq::<Seq<char>>::empty());
    }
    for i in 0..tags.len()
        invariant
            keep == (|tag: Seq<char>| is_current_tag(tag)),
            texts(kept@) == texts(tags@).take(i as int).filter(keep),
    {
        let tag = &tags[i];
        let ghost before = texts(kept@);
        let current = !has_prefix(tag.as_str(), "release-") && !has_prefix(tag.as_str(), "0.");
        if current {
            kept.push(tag.clone());
        }
        proof {
            reveal(Seq::filter);
            let upto = texts(tags@).take(i + 1);
            assert(upto.drop_last() =~= texts(tags@).take(i as int));
            assert(upto.last() == tag@);
            if current {
                assert(texts(kept@) =~= before.push(tag@));
            }
        }
    }
    assert(texts(tags@).take(tags.len() as int) =~= texts(tags@));
    kept
}

/// The kinds of file that can pin a toolchain.
#[derive(Clone, Copy, Debug, PartialEq, Eq, Structural)]
pub enum VersionFileKind {
    /// A `rust-toolchain` file: its content is the channel.
    Plain,
    /// A `rust-toolchain.toml` file: the channel is an entry of its table.
    Toml,
    /// Any other file: it pins nothing.
    Other,
}

/// The kind of the file with this name.
pub open spec fn kind_of(file: Seq<char>) -> VersionFileKind {
    if file == "rust-toolchain"@ {
        VersionFileKind::Plain
    } else if file == "rust-toolchain.toml"@ {
        VersionFileKind::Toml
    } else {
        VersionFileKind::Other
    }
}

/// The kind of the file with this name.
pub fn version_file_kind(file: &str) -> (kind: VersionFileKind)
    ensures
        kind == kind_of(file@),
{
    if same_text(file, "rust-toolchain") {
        VersionFileKind::Plain
    } else if same_text(file, "rust-toolchain.toml") {
        VersionFileKind::Toml
    } else {
        VersionFileKind::Other
    }
}

/// The text of a channel that may be absent.
pub open spec fn text_of(channel: Option<&str>) -> Option<Seq<char>> {
    match channel {
        Some(text) => Some(text@),
        None => None,
    }
}

/// The text in which a version file names its toolchain, if it names one.
///
/// `channel` is what the file holds: the whole content of a `rust-toolchain`
/// file, or the channel entry of a `rust-toolchain.toml` file where it has
/// one. An empty `rust-toolchain` file names nothing, and neither does a
/// file of another name.
pub open spec fn pinned_text(file: Seq<char>, channel: Option<Seq<char>>) -> Option<Seq<char>> {
    match kind_of(file) {
        VersionFileKind::Plain => match channel {
            Some(text) => if text.len() > 0 {
                Some(text)
            } else {
                None
            },
            None => None,
        },
        VersionFileKind::Toml => channel,
        VersionFileKind::Other => None,
    }
}

/// What reading a version file gives, given the text in which it names its
/// toolchain and what the parser makes of that text.
pub open spec fn version_file_outcome(pinned: Option<Seq<char>>, parsed: Option<SpecModel>) -> Result<
    Option<SpecModel>,
    Seq<char>,
> {
    match pinned {
        None => Ok(None),
        Some(text) => match parse_outcome(text, parsed) {
            Some(spec) => Ok(Some(spec)),
            None => Err(text),
        },
    }
}

/// The value of the result of reading a version file.
pub open spec fn version_file_result(
    result: Result<Option<UnresolvedVersionSpec>, SpecError>,
) -> Result<Option<SpecModel>, Seq<char>> {
    match result {
        Ok(Some(spec)) => Ok(Some(spec@)),
        Ok(None) => Ok(None),
        Err(error) => Err(error.text@),
    }
}

/// Reads the specifier that a version file pins.
///
/// Returns no specifier where the file names no toolchain, the specifier
/// where the parser reads one from the text, and the rejected text where it
/// does not.
pub fn parse_version_file(file: &str, channel: Option<&str>) -> (result: Result<
    Option<UnresolvedVersionSpec>,
    SpecError,
>)
    ensures
        version_file_result(result) == match pinned_text(file@, text_of(channel)) {
            Some(text) => version_file_outcome(Some(text), parsed_spec(text)),
            None => Ok(None),
        },
{
    let pinned: Option<&str> = match version_file_kind(file) {
        VersionFileKind::Plain => match channel {
            Some(text) => if text.is_empty() {
                None
            } else {
                Some(text)
            },
            None => None,
        },
        VersionFileKind::Toml => channel,
        VersionFileKind::Other => None,
    };
    match pinned {
        Some(text) => match UnresolvedVersionSpec::parse(text) {
            Ok(spec) => Ok(Some(spec)),
            Err(error) => Err(error),
        },
        None => Ok(None),
    }
}

/// Moves an installation on: from `state`, on the `event` that reports what
/// came of the action pending there, to the next state and its pending
/// action.
pub fn native_install(context: &InstallContext, state: InstallState, event: &InstallEvent) -> (step:
    InstallStep)
    ensures
        step.state == next_state(*context, state, *event),
        step.action@ == pending_action(*context, step.state),
        is_final(state) ==> step.state == state,
{
    let next = match state {
        InstallState::Start => match event {
            InstallEvent::CommandProbed { found: true } => InstallState::Listing,
            _ => InstallState::CheckingScript,
        },
        InstallState::CheckingScript => match event {
            InstallEvent::PathChecked { exists: true } => InstallState::Bootstrapping,
            _ => InstallState::FetchingScript,
        },
        InstallState::FetchingScript => match event {
            InstallEvent::Fetched { stored: true } => InstallState::Bootstrapping,
            _ => InstallState::Failed(InstallFailure::InstallerMissing),
        },
        InstallState::Bootstrapping => if event.is_success() {
            InstallState::Listing
        } else {
            InstallState::Failed(InstallFailure::CommandFailed(MandatoryStep::Bootstrap))
        },
        InstallState::Listing => {
            let listed = match event {
                InstallEvent::Executed(listing) => is_listed(listing, context.target().as_str()),
                _ => false,
            };
            match decide_install(true, listed, context.tool_dir_has_binaries) {
                InstallDecision::Skip => InstallState::Done,
                InstallDecision::Repair => InstallState::Uninstalling,
                _ => InstallState::Installing,
            }
        },
        InstallState::Uninstalling => if event.is_success() {
            InstallState::Installing
        } else {
            InstallState::Failed(InstallFailure::CommandFailed(MandatoryStep::Uninstall))
        },
        InstallState::Installing => if event.is_success() {
            InstallState::Done
        } else {
            InstallState::Failed(InstallFailure::CommandFailed(MandatoryStep::Install))
        },
        InstallState::Done => InstallState::Done,
        InstallState::Failed(failure) => InstallState::Failed(failure),
    };
    let action = install_action(context, &next);
    InstallStep { state: next, action }
}

/// The command that uninstalls the toolchain of `version`: the installer's
/// uninstall command for the channel that an installation of the same
/// version asks for.
pub fn native_uninstall(version: &VersionSpec) -> (command: ExecCommand)
    ensures
        command@ == uninstall_command(channel_of(version@)),
{
    uninstall_toolchain(get_channel_from_version(version))
}

/// What an uninstallation reports: whether the installer's command
/// succeeded, as it is.
pub fn uninstall_outcome(result: &ExecResult) -> (uninstalled: bool)
    ensures
        uninstalled == succeeded(*result),
{
    result.is_success()
}

/// How an executable of the tool is made available.
#[derive(Clone, Debug, PartialEq, Eq)]
pub struct ExecutableConfig {
    /// The file to execute, relative to the tool directory.
    pub exe_path: Option<String>,
    /// Whether the host links no binary for it.
    pub no_bin: bool,
    /// Whether the host generates no shim for it.
    pub no_shim: bool,
}

/// Where the executables of the tool and of its global packages are.
#[derive(Clone, Debug, PartialEq, Eq)]
pub struct LocateExecutablesOutput {
    /// The directories in which global packages are looked for, in order.
    pub globals_lookup_dirs: Vec<String>,
    /// What the names of global binaries begin with.
    pub globals_prefix: Option<String>,
    /// The primary executable.
    pub primary: Option<ExecutableConfig>,
}

/// The file name of an executable on a host: `name`, with `.exe` behind it
/// on Windows.
pub open spec fn exe_name_on(os: HostOS, name: Seq<char>) -> Seq<char> {
    if os == HostOS::Windows {
        name + ".exe"@
    } else {
        name
    }
}

/// The file name of the executable `name` on `os`.
pub fn exe_name(os: HostOS, name: &str) -> (file: String)
    ensures
        file@ == exe_name_on(os, name@),
{
    let mut file = String::from_str(name);
    match os {
        HostOS::Windows => file.append(".exe"),
        _ => {},
    }
    file
}

/// Locates the executables. The toolchain's binaries are provided through
/// the package manager's own directory, so the primary executable gets
/// neither a linked binary nor a shim; it is named all the same, so that the
/// host can tell that the installation worked.
pub fn locate_executables(os: HostOS) -> (located: LocateExecutablesOutput)
    ensures
        texts(located.globals_lookup_dirs@) == seq![
            "$CARGO_INSTALL_ROOT/bin"@,
            "$CARGO_HOME/bin"@,
            "$HOME/.cargo/bin"@,
        ],
        located.globals_prefix matches Some(prefix) && prefix@ == "cargo-"@,
        located.primary matches Some(primary) && primary.no_bin && primary.no_shim && (
        primary.exe_path matches Some(path) && path@ == exe_name_on(os, "bin/cargo"@)),
{
    let mut dirs: Vec<String> = Vec::new();
    dirs.push(String::from_str("$CARGO_INSTALL_ROOT/bin"));
    dirs.push(String::from_str("$CARGO_HOME/bin"));
    dirs.push(String::from_str("$HOME/.cargo/bin"));
    assert(texts(dirs@) =~= seq![
        "$CARGO_INSTALL_ROOT/bin"@,
        "$CARGO_HOME/bin"@,
        "$HOME/.cargo/bin"@,
    ]);
    LocateExecutablesOutput {
        globals_lookup_dirs: dirs,
        globals_prefix: Some(String::from_str("cargo-")),
        primary: Some(
            ExecutableConfig {
                exe_path: Some(exe_name(os, "bin/cargo")),
                no_bin: true,
                no_shim: true,
            },
        ),
    }
}

/// The command that installs a global package, forced, on the caller's
/// streams.
pub fn install_global(dependency: &str) -> (command: ExecCommand)
    ensures
        command@ == (ExecCommandModel {
            command: "cargo"@,
            args: seq!["install"@, "--force"@, dependency@],
            mode: ExecMode::Inherit,
            set_executable: false,
        }),
{
    let mut args: Vec<String> = Vec::new();
    args.push(String::from_str("install"));
    args.push(String::from_str("--force"));
    args.push(String::from_str(dependency));
    assert(texts(args@) =~= seq!["install"@, "--force"@, dependency@]);
    ExecCommand {
        command: String::from_str("cargo"),
        args,
        mode: ExecMode::Inherit,
        set_executable: false,
    }
}

/// The command that uninstalls a global package, on the caller's streams.
pub fn uninstall_global(dependency: &str) -> (command: ExecCommand)
    ensures
        command@ == (ExecCommandModel {
            command: "cargo"@,
            args: seq!["uninstall"@, dependency@],
            mode: ExecMode::Inherit,
            set_executable: false,
        }),
{
    let mut args: Vec<String> = Vec::new();
    args.push(String::from_str("uninstall"));
    args.push(String::from_str(dependency));
    assert(texts(args@) =~= seq!["uninstall"@, dependency@]);
    ExecCommand {
        command: String::from_str("cargo"),
        args,
        mode: ExecMode::Inherit,
        set_executable: false,
    }
}

/// What reconciliation reports for a listing of the installation root: no
/// override where the root cannot be listed or shows no concrete version of
/// this platform, the inventory where it shows some, and the name of the
/// first malformed entry where there is one.
pub open spec fn manifest(listing: Result<Vec<DirectoryEntry>, Tolerated>, triple: Seq<char>) -> Result<
    Option<Seq<VersionModel>>,
    Seq<char>,
> {
    match listing {
        Err(_) => Ok(None),
        Ok(entries) => match inventory(entries@, triple) {
            Err(name) => Err(name),
            Ok(found) => if found.len() == 0 {
                Ok(None)
            } else {
                Ok(Some(found))
            },
        },
    }
}

/// A malformed directory anywhere in the listing fails the reconciliation:
/// where some entry is a directory of this platform whose identity is
/// neither a channel nor a concrete version, no version is reported.
pub proof fn lemma_malformed_directory_fails_reconciliation(
    listing: Result<Vec<DirectoryEntry>, Tolerated>,
    triple: Seq<char>,
    index: int,
)
    requires
        listing matches Ok(entries) && 0 <= index < entries@.len() && entry_adds(
            entries@[index],
            triple,
        ) is Err,
    ensures
        manifest(listing, triple) is Err,
{
    let entries = listing->Ok_0@;
    lemma_any_malformed_entry_fails(entries, triple, index);
}

/// Reconstructs the installed versions of the current platform from a
/// listing of the installation root.
///
/// A root that cannot be listed gives no override and no error. An entry
/// counts where it is a directory and its name ends with the triple; its
/// identity must then be a channel or a concrete version, or the
/// reconciliation fails with the entry's name and reports no version at
/// all. Channels are left out: only concrete versions are reported, each
/// once, in the order of the listing.
pub fn sync_manifest(listing: &Result<Vec<DirectoryEntry>, Tolerated>, triple: &PlatformTriple) -> (result:
    Result<Option<Vec<Version>>, FatalError>)
    ensures
        match result {
            Ok(Some(versions)) => manifest(*listing, triple_text(*triple)) == Ok::<
                Option<Seq<VersionModel>>,
                Seq<char>,
            >(Some(models(versions@))),
            Ok(None) => manifest(*listing, triple_text(*triple)) == Ok::<
                Option<Seq<VersionModel>>,
                Seq<char>,
            >(None),
            Err(FatalError::MalformedInventoryEntry { name }) => manifest(
                *listing,
                triple_text(*triple),
            ) == Err::<Option<Seq<VersionModel>>, Seq<char>>(name@),
            Err(_) => false,
        },
        listing is Err ==> result == Ok::<Option<Vec<Version>>, FatalError>(None),
{
    let entries = match listing {
        Ok(entries) => entries,
        Err(_) => {
            return Ok(None);
        },
    };
    let suffix = triple.identity();
    let mut versions: Vec<Version> = Vec::new();
    proof {
        assert(entries@.take(0) =~= Seq::<DirectoryEntry>::empty());
        assert(models(versions@) =~= Seq::<VersionModel>::empty());
    }
    for i in 0..entries.len()
        invariant
            *listing == Ok::<Vec<DirectoryEntry>, Tolerated>(*entries),
            suffix@ == triple_text(*triple),
            inventory(entries@.take(i as int), suffix@) == Ok::<Seq<VersionModel>, Seq<char>>(
                models(versions@),
            ),
    {
        let entry = &entries[i];
        let ghost found = models(versions@);
        proof {
            assert(entries@.take(i + 1).drop_last() =~= entries@.take(i as int));
            assert(entries@.take(i + 1).last() == *entry);
        }
        if entry.is_dir {
            match installed_identity(entry.name.as_str(), suffix.as_str()) {
                Some(identity) => match UnresolvedVersionSpec::parse(identity.as_str()) {
                    Ok(spec) => match reported_version(spec) {
                        Ok(Some(version)) => {
                            if !holds_version(&versions, &version) {
                                versions.push(version);
                                assert(models(versions@) =~= found.push(version@));
                            }
                        },
                        Ok(None) => {},
                        Err(_) => {
                            proof {
                                assert(entry_adds(*entry, suffix@) is Err);
                                lemma_first_malformed_entry_stands(entries@, suffix@, i + 1);
                            }
                            return Err(
                                FatalError::MalformedInventoryEntry { name: entry.name.clone() },
                            );
                        },
                    },
                    Err(_) => {
                        proof {
                            assert(entry_adds(*entry, suffix@) is Err);
                            lemma_first_malformed_entry_stands(entries@, suffix@, i + 1);
                        }
                        return Err(FatalError::MalformedInventoryEntry { name: entry.name.clone() });
                    },
                },
                None => {},
            }
        }
    }
    assert(entries@.take(entries.len() as int) =~= entries@);
    if versions.len() == 0 {
        Ok(None)
    } else {
        Ok(Some(versions))
    }
}

} // verus!
