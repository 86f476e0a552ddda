//! The two channels of failure: failures that end an invocation, and
//! failures of best-effort steps that the core absorbs.

use crate::triple::{arch_name, os_name, rust_arch, HostArch, HostOS};
use vstd::prelude::*;
use vstd::string::StringExecFns;

verus! {

/// A mandatory external step of an installation.
#[derive(Clone, Copy, Debug, PartialEq, Eq, Structural)]
pub enum MandatoryStep {
    /// Running the installer's own setup program.
    Bootstrap,
    /// Force-uninstalling a broken toolchain.
    Uninstall,
    /// Installing the toolchain.
    Install,
}

/// A failure that ends the invocation. Each carries what the user needs to
/// act on it.
#[derive(Clone, Debug, PartialEq, Eq)]
pub enum FatalError {
    /// No installer exists for this architecture and operating system.
    UnsupportedTarget { architecture: HostArch, os: HostOS },
    /// The installer is not on the search path and could not be fetched.
    InstallerMissing,
    /// A mandatory external command did not succeed while the toolchain with
    /// the identity `target` was being installed.
    ExternalCommandFailed { step: MandatoryStep, target: String },
    /// A toolchain directory of this platform whose identity is neither a
    /// channel nor a concrete version.
    MalformedInventoryEntry { name: String },
}

/// The mathematical value of a [`FatalError`].
pub enum FatalErrorModel {
    UnsupportedTarget { architecture: HostArch, os: HostOS },
    InstallerMissing,
    ExternalCommandFailed { step: MandatoryStep, target: Seq<char> },
    MalformedInventoryEntry { name: Seq<char> },
}

impl View for FatalError {
    type V = FatalErrorModel;

    open spec fn view(&self) -> FatalErrorModel {
        match self {
            FatalError::UnsupportedTarget { architecture, os } => FatalErrorModel::UnsupportedTarget {
                architecture: *architecture,
                os: *os,
            },
            FatalError::InstallerMissing => FatalErrorModel::InstallerMissing,
            FatalError::ExternalCommandFailed { step, target } => FatalErrorModel::ExternalCommandFailed {
                step: *step,
                target: target@,
            },
            FatalError::MalformedInventoryEntry { name } => FatalErrorModel::MalformedInventoryEntry {
                name: name@,
            },
        }
    }
}

/// A failure of a best-effort step. None of these ends an invocation: each
/// is read as the negative answer of the step that reported it.
#[derive(Clone, Copy, Debug, PartialEq, Eq, Structural)]
pub enum Tolerated {
    /// The installation root cannot be listed.
    InaccessiblePath,
}

/// What the failure of a mandatory step is called in a message.
pub open spec fn step_text(step: MandatoryStep) -> Seq<char> {
    match step {
        MandatoryStep::Bootstrap => "the setup of rustup failed"@,
        MandatoryStep::Uninstall => "rustup toolchain uninstall failed"@,
        MandatoryStep::Install => "rustup toolchain install failed"@,
    }
}

/// What a failure says to the user. It names what the user has to act on:
/// the host that has no installer, the installer that is missing, the
/// command that failed and the toolchain it failed for, the directory that
/// is malformed.
pub open spec fn message_text(error: FatalErrorModel) -> Seq<char> {
    match error {
        FatalErrorModel::UnsupportedTarget { architecture, os } => "no toolchain is built for "@
            + arch_name(architecture) + " on "@ + os_name(os),
        FatalErrorModel::InstallerMissing => "rustup is required and was not found on PATH"@,
        FatalErrorModel::ExternalCommandFailed { step, target } => step_text(step) + " for "@
            + target,
        FatalErrorModel::MalformedInventoryEntry { name } => "malformed toolchain directory: "@
            + name,
    }
}

impl FatalError {
    /// The message for the user.
    pub fn message(&self) -> (text: String)
        ensures
            text@ == message_text(self@),
    {
        match self {
            FatalError::UnsupportedTarget { architecture, os } => {
                let mut text = String::from_str("no toolchain is built for ");
                text.append(rust_arch(*architecture).as_str());
                text.append(" on ");
                text.append(os.name());
                text
            },
            FatalError::InstallerMissing => String::from_str(
                "rustup is required and was not found on PATH",
            ),
            FatalError::ExternalCommandFailed { step, target } => {
                let mut text = match step {
                    MandatoryStep::Bootstrap => String::from_str("the setup of rustup failed"),
                    MandatoryStep::Uninstall => String::from_str(
                        "rustup toolchain uninstall failed",
                    ),
                    MandatoryStep::Install => String::from_str("rustup toolchain install failed"),
                };
                text.append(" for ");
                text.append(target.as_str());
                text
            },
            FatalError::MalformedInventoryEntry { name } => {
                let mut text = String::from_str("malformed toolchain directory: ");
                text.append(name.as_str());
                text
            },
        }
    }
}

} // verus!
