//! The platform triple: the architecture, the operating system and, on
//! Linux, the C library, joined by hyphens into the identity under which the
//! installer files a toolchain.

use crate::command::{texts, ExecCommand, ExecMode, ExecResult};
use crate::error::FatalError;
use crate::text::{contains, contains_text};
use vstd::prelude::*;
use vstd::string::StringExecFns;

verus! {

/// The architecture of the host.
#[derive(Clone, Copy, Debug, PartialEq, Eq, Structural)]
pub enum HostArch {
    X86,
    X64,
    Arm,
    Arm64,
    LongArm64,
    M68k,
    Mips,
    Mips64,
    Powerpc,
    Powerpc64,
    Riscv64,
    S390x,
    Sparc64,
}

/// The operating system of the host.
#[derive(Clone, Copy, Debug, PartialEq, Eq, Structural)]
pub enum HostOS {
    Android,
    Dragonfly,
    FreeBSD,
    IOS,
    Linux,
    MacOS,
    NetBSD,
    OpenBSD,
    Solaris,
    Windows,
}

/// The C library of a Linux host.
#[derive(Clone, Copy, Debug, PartialEq, Eq, Structural)]
pub enum LibcVariant {
    Gnu,
    Musl,
}

/// The platform that a toolchain is built for.
///
/// The operating system is always one that the installer supports, and the
/// C library is present exactly on Linux.
#[derive(Clone, Copy, Debug, PartialEq, Eq)]
pub struct PlatformTriple {
    architecture: HostArch,
    os: HostOS,
    libc_variant: Option<LibcVariant>,
}

/// The installer has toolchains for `os`.
pub open spec fn is_supported_os(os: HostOS) -> bool {
    os == HostOS::Linux || os == HostOS::MacOS || os == HostOS::Windows
}

/// The installer's name for an architecture.
pub open spec fn arch_name(arch: HostArch) -> Seq<char> {
    match arch {
        HostArch::X86 => "x86"@,
        HostArch::X64 => "x86_64"@,
        HostArch::Arm => "arm"@,
        HostArch::Arm64 => "aarch64"@,
        HostArch::LongArm64 => "loongarch64"@,
        HostArch::M68k => "m68k"@,
        HostArch::Mips => "mips"@,
        HostArch::Mips64 => "mips64"@,
        HostArch::Powerpc => "powerpc"@,
        HostArch::Powerpc64 => "powerpc64"@,
        HostArch::Riscv64 => "riscv64"@,
        HostArch::S390x => "s390x"@,
        HostArch::Sparc64 => "sparc64"@,
    }
}

/// The vendor and system part of the triple of an operating system that the
/// installer supports; empty for every other operating system, which has no
/// triple.
pub open spec fn os_part(os: HostOS) -> Seq<char> {
    match os {
        HostOS::Linux => "unknown-linux"@,
        HostOS::MacOS => "apple-darwin"@,
        HostOS::Windows => "pc-windows-msvc"@,
        _ => Seq::empty(),
    }
}

/// The name of an operating system.
pub open spec fn os_name(os: HostOS) -> Seq<char> {
    match os {
        HostOS::Android => "android"@,
        HostOS::Dragonfly => "dragonfly"@,
        HostOS::FreeBSD => "freebsd"@,
        HostOS::IOS => "ios"@,
        HostOS::Linux => "linux"@,
        HostOS::MacOS => "macos"@,
        HostOS::NetBSD => "netbsd"@,
        HostOS::OpenBSD => "openbsd"@,
        HostOS::Solaris => "solaris"@,
        HostOS::Windows => "windows"@,
    }
}

/// The name of a C library.
pub open spec fn libc_name(libc: LibcVariant) -> Seq<char> {
    match libc {
        LibcVariant::Gnu => "gnu"@,
        LibcVariant::Musl => "musl"@,
    }
}

/// The C library that the dynamic-linker probe shows: musl where the probe
/// succeeded and its output names musl, the GNU library in every other case.
pub open spec fn detected_libc(probe: ExecResult) -> LibcVariant {
    match probe {
        ExecResult::Exited { exit_code, stdout } => if exit_code == 0 && contains_text(
            stdout@,
            "musl"@,
        ) {
            LibcVariant::Musl
        } else {
            LibcVariant::Gnu
        },
        ExecResult::Failed => LibcVariant::Gnu,
    }
}

/// The C library of the triple of a host: the one that the probe shows on
/// Linux, none elsewhere.
pub open spec fn expected_libc(os: HostOS, probe: ExecResult) -> Option<LibcVariant> {
    if os == HostOS::Linux {
        Some(detected_libc(probe))
    } else {
        None
    }
}

/// `triple` is the triple of the host with this architecture, operating
/// system and probe result.
pub open spec fn is_triple_of(
    triple: PlatformTriple,
    arch: HostArch,
    os: HostOS,
    probe: ExecResult,
) -> bool {
    &&& triple.architecture() == arch
    &&& triple.os() == os
    &&& triple.libc_variant() == expected_libc(os, probe)
}

/// The part of the identity that does not depend on the C library: the
/// architecture and the operating system, joined by a hyphen.
pub open spec fn base_text(triple: PlatformTriple) -> Seq<char> {
    arch_name(triple.architecture()) + seq!['-'] + os_part(triple.os())
}

/// The identity of a triple: its parts joined by hyphens.
pub open spec fn triple_text(triple: PlatformTriple) -> Seq<char> {
    base_text(triple) + match triple.libc_variant() {
        Some(libc) => seq!['-'] + libc_name(libc),
        None => Seq::empty(),
    }
}

/// Calls `HostArch::to_rust_arch` of `proto_pdk` on the same architecture.
///
/// Trusted: the result is the installer's name for the architecture, which
/// the outside source gives as `x86_64`, `aarch64` and `loongarch64` for the
/// three 64-bit families it renames, and the variant's name in lower case
/// for every other architecture.
#[verifier::external_body]
pub(crate) fn rust_arch(arch: HostArch) -> (name: String)
    ensures
        name@ == arch_name(arch),
{
    let outside = match arch {
        HostArch::X86 => proto_pdk::HostArch::X86, HostArch::X64 => proto_pdk::HostArch::X64,
        HostArch::Arm => proto_pdk::HostArch::Arm, HostArch::Arm64 => proto_pdk::HostArch::Arm64,
        HostArch::LongArm64 => proto_pdk::HostArch::LongArm64,
        HostArch::M68k => proto_pdk::HostArch::M68k, HostArch::Mips => proto_pdk::HostArch::Mips,
        HostArch::Mips64 => proto_pdk::HostArch::Mips64,
        HostArch::Powerpc => proto_pdk::HostArch::Powerpc,
        HostArch::Powerpc64 => proto_pdk::HostArch::Powerpc64,
        HostArch::Riscv64 => proto_pdk::HostArch::Riscv64,
        HostArch::S390x => proto_pdk::HostArch::S390x,
        HostArch::Sparc64 => proto_pdk::HostArch::Sparc64,
    };
    outside.to_rust_arch()
}

impl PlatformTriple {
    /// What holds of every triple.
    #[verifier::type_invariant]
    pub closed spec fn well_formed(self) -> bool {
        &&& is_supported_os(self.os)
        &&& (self.libc_variant is Some <==> self.os == HostOS::Linux)
    }

    /// The architecture.
    pub closed spec fn spec_architecture(&self) -> HostArch {
        self.architecture
    }

    /// The operating system.
    pub closed spec fn spec_os(&self) -> HostOS {
        self.os
    }

    /// The C library, present exactly on Linux.
    pub closed spec fn spec_libc_variant(&self) -> Option<LibcVariant> {
        self.libc_variant
    }

    /// The architecture.
    #[verifier::when_used_as_spec(spec_architecture)]
    pub fn architecture(&self) -> (arch: HostArch)
        ensures
            arch == self.spec_architecture(),
    {
        self.architecture
    }

    /// The operating system, always a supported one.
    #[verifier::when_used_as_spec(spec_os)]
    pub fn os(&self) -> (os: HostOS)
        ensures
            os == self.spec_os(),
            is_supported_os(os),
    {
        proof {
            use_type_invariant(self);
        }
        self.os
    }

    /// The C library, present exactly on Linux.
    #[verifier::when_used_as_spec(spec_libc_variant)]
    pub fn libc_variant(&self) -> (libc: Option<LibcVariant>)
        ensures
            libc == self.spec_libc_variant(),
            libc is Some <==> self.spec_os() == HostOS::Linux,
    {
        proof {
            use_type_invariant(self);
        }
        self.libc_variant
    }

    /// The identity of the triple, as the installer writes it.
    pub fn identity(&self) -> (text: String)
        ensures
            text@ == triple_text(*self),
    {
        proof {
            use_type_invariant(self);
            reveal_strlit("-");
        }
        let mut text = rust_arch(self.architecture);
        text.append("-");
        match self.os {
            HostOS::Linux => text.append("unknown-linux"),
            HostOS::MacOS => text.append("apple-darwin"),
            HostOS::Windows => text.append("pc-windows-msvc"),
            _ => {},
        }
        match self.libc_variant {
            Some(LibcVariant::Gnu) => {
                text.append("-");
                text.append("gnu");
            },
            Some(LibcVariant::Musl) => {
                text.append("-");
                text.append("musl");
            },
            None => {},
        }
        assert(text@ =~= triple_text(*self));
        text
    }
}

impl HostOS {
    /// The name of the operating system.
    pub fn name(&self) -> (name: &'static str)
        ensures
            name@ == os_name(*self),
    {
        match self {
            HostOS::Android => "android",
            HostOS::Dragonfly => "dragonfly",
            HostOS::FreeBSD => "freebsd",
            HostOS::IOS => "ios",
            HostOS::Linux => "linux",
            HostOS::MacOS => "macos",
            HostOS::NetBSD => "netbsd",
            HostOS::OpenBSD => "openbsd",
            HostOS::Solaris => "solaris",
            HostOS::Windows => "windows",
        }
    }
}

/// Whether the C library has to be probed on `os`: only Linux has more than
/// one.
pub fn needs_libc_probe(os: HostOS) -> (needed: bool)
    ensures
        needed == (os == HostOS::Linux),
{
    match os {
        HostOS::Linux => true,
        _ => false,
    }
}

/// The dynamic-linker version probe, whose captured output tells the C
/// libraries apart.
pub fn libc_probe() -> (probe: ExecCommand)
    ensures
        probe@.command == "ldd"@,
        probe@.args == seq!["--version"@],
        probe@.mode == ExecMode::Capture,
        !probe@.set_executable,
{
    let mut args: Vec<String> = Vec::new();
    args.push(String::from_str("--version"));
    assert(texts(args@) =~= seq!["--version"@]);
    ExecCommand {
        command: String::from_str("ldd"),
        args,
        mode: ExecMode::Capture,
        set_executable: false,
    }
}

/// The C library that a probe shows.
pub fn detect_libc(probe: &ExecResult) -> (libc: LibcVariant)
    ensures
        libc == detected_libc(*probe),
{
    match probe {
        ExecResult::Exited { exit_code, stdout } => {
            if *exit_code == 0 && contains(stdout.as_str(), "musl") {
                LibcVariant::Musl
            } else {
                LibcVariant::Gnu
            }
        },
        ExecResult::Failed => LibcVariant::Gnu,
    }
}

/// Derives the platform triple of a host from its architecture, its
/// operating system and the result of the C library probe.
///
/// The probe is read on Linux only, and its failure never fails the
/// derivation: it selects the GNU library. A host other than Linux, macOS
/// and Windows has no installer.
pub fn derive_triple(arch: HostArch, os: HostOS, probe: &ExecResult) -> (result: Result<
    PlatformTriple,
    FatalError,
>)
    ensures
        match result {
            Ok(triple) => is_supported_os(os) && is_triple_of(triple, arch, os, *probe),
            Err(error) => !is_supported_os(os) && error == (FatalError::UnsupportedTarget {
                architecture: arch,
                os,
            }),
        },
{
    match os {
        HostOS::Linux => Ok(
            PlatformTriple { architecture: arch, os, libc_variant: Some(detect_libc(probe)) },
        ),
        HostOS::MacOS | HostOS::Windows => Ok(
            PlatformTriple { architecture: arch, os, libc_variant: None },
        ),
        _ => Err(FatalError::UnsupportedTarget { architecture: arch, os }),
    }
}

/// The derivation is a function of architecture and operating system but
/// for the C library: two triples of the same host, derived from whatever
/// probe results, agree on the architecture, on the operating system and on
/// the text before the C library.
pub proof fn lemma_triple_base_ignores_probe(
    arch: HostArch,
    os: HostOS,
    first_probe: ExecResult,
    second_probe: ExecResult,
    first: PlatformTriple,
    second: PlatformTriple,
)
    requires
        is_triple_of(first, arch, os, first_probe),
        is_triple_of(second, arch, os, second_probe),
    ensures
        first.architecture() == second.architecture(),
        first.os() == second.os(),
        base_text(first) == base_text(second),
        os != HostOS::Linux ==> triple_text(first) == triple_text(second),
{
}

} // verus!
