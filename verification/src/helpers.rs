//! Channels: the names under which the installer knows a toolchain, and the
//! test that tells a channel from a concrete version.

use crate::text::{has_prefix, same_text, starts_with};
use crate::version::{is_canary, spec_text, SpecModel, UnresolvedVersionSpec, VersionSpec};
use vstd::prelude::*;
use vstd::string::StringExecFns;

verus! {

/// `alias` names a channel: `stable`, `beta`, or anything that begins with
/// `nightly`. The match is by prefix, so it accepts dated nightlies and any
/// other text that merely begins that way.
pub open spec fn is_channel_name(alias: Seq<char>) -> bool {
    alias == "stable"@ || alias == "beta"@ || starts_with(alias, "nightly"@)
}

/// The specifier stands for a channel and not for a concrete version: the
/// canary marker, or an alias that names a channel.
pub open spec fn is_non_version(spec: SpecModel) -> bool {
    match spec {
        SpecModel::Canary => true,
        SpecModel::Alias(alias) => is_channel_name(alias),
        _ => false,
    }
}

/// The channel that the installer is asked for: `nightly` for the canary
/// marker, the text of the specifier for everything else.
pub open spec fn channel_of(spec: SpecModel) -> Seq<char> {
    if is_canary(spec) {
        "nightly"@
    } else {
        spec_text(spec)
    }
}

/// The channel to hand to the installer for `spec`.
pub fn get_channel_from_version(spec: &VersionSpec) -> (channel: String)
    ensures
        channel@ == channel_of(spec@),
{
    if spec.is_canary() {
        String::from_str("nightly")
    } else {
        spec.to_string()
    }
}

/// Whether `alias` names a channel.
pub fn names_channel(alias: &str) -> (is_channel: bool)
    ensures
        is_channel == is_channel_name(alias@),
{
    same_text(alias, "stable") || same_text(alias, "beta") || has_prefix(alias, "nightly")
}

/// Whether `spec` stands for a channel and not for a concrete version.
pub fn is_non_version_channel(spec: &UnresolvedVersionSpec) -> (non_version: bool)
    ensures
        non_version == is_non_version(spec@),
{
    match spec {
        UnresolvedVersionSpec::Canary => true,
        UnresolvedVersionSpec::Alias(value) => names_channel(value.as_str()),
        _ => false,
    }
}

} // verus!
