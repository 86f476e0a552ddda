//! Version specifiers: concrete versions, channel aliases, the canary marker
//! and requirements, with their textual forms and the parser that reads one
//! from text.

use crate::text::{contains_char, decimal, decimal_text, same_text};
use vstd::prelude::*;
use vstd::string::StringExecFns;

verus! {

/// A concrete release.
#[derive(Clone, Debug, PartialEq, Eq)]
pub struct Version {
    pub major: u64,
    pub minor: u64,
    pub patch: u64,
    /// The pre-release identifiers, empty when there are none.
    pub pre: String,
    /// The build metadata, empty when there is none.
    pub build: String,
}

/// The mathematical value of a [`Version`].
pub struct VersionModel {
    pub major: nat,
    pub minor: nat,
    pub patch: nat,
    pub pre: Seq<char>,
    pub build: Seq<char>,
}

impl View for Version {
    type V = VersionModel;

    open spec fn view(&self) -> VersionModel {
        VersionModel {
            major: self.major as nat,
            minor: self.minor as nat,
            patch: self.patch as nat,
            pre: self.pre@,
            build: self.build@,
        }
    }
}

/// The mathematical value of a specifier, resolved or not.
pub enum SpecModel {
    /// The rolling-latest marker.
    Canary,
    /// A named channel or another alias.
    Alias(Seq<char>),
    /// A partial version or a range, kept as text.
    Req(Seq<char>),
    /// A concrete release.
    Version(VersionModel),
}

/// A specifier as a user or a configuration file wrote it.
#[derive(Clone, Debug, PartialEq, Eq)]
pub enum UnresolvedVersionSpec {
    /// The rolling-latest marker.
    Canary,
    /// A named channel or another alias.
    Alias(String),
    /// A partial version or a range, kept as text.
    Req(String),
    /// A concrete release.
    Version(Version),
}

impl View for UnresolvedVersionSpec {
    type V = SpecModel;

    open spec fn view(&self) -> SpecModel {
        match self {
            UnresolvedVersionSpec::Canary => SpecModel::Canary,
            UnresolvedVersionSpec::Alias(alias) => SpecModel::Alias(alias@),
            UnresolvedVersionSpec::Req(req) => SpecModel::Req(req@),
            UnresolvedVersionSpec::Version(version) => SpecModel::Version(version@),
        }
    }
}

/// A specifier that names what to install: a channel or a concrete release.
#[derive(Clone, Debug, PartialEq, Eq)]
pub enum VersionSpec {
    /// The rolling-latest marker.
    Canary,
    /// A named channel or another alias.
    Alias(String),
    /// A concrete release.
    Version(Version),
}

impl View for VersionSpec {
    type V = SpecModel;

    open spec fn view(&self) -> SpecModel {
        match self {
            VersionSpec::Canary => SpecModel::Canary,
            VersionSpec::Alias(alias) => SpecModel::Alias(alias@),
            VersionSpec::Version(version) => SpecModel::Version(version@),
        }
    }
}

/// A text that is no specifier.
#[derive(Clone, Debug, PartialEq, Eq)]
pub struct SpecError {
    /// The text that was rejected.
    pub text: String,
}

/// The text of a concrete release: the three numbers joined by dots, then a
/// hyphen and the pre-release identifiers if there are any, then a plus sign
/// and the build metadata if there is any.
pub open spec fn version_text(version: VersionModel) -> Seq<char> {
    decimal(version.major) + seq!['.'] + decimal(version.minor) + seq!['.'] + decimal(
        version.patch,
    ) + (if version.pre.len() > 0 {
        seq!['-'] + version.pre
    } else {
        Seq::empty()
    }) + (if version.build.len() > 0 {
        seq!['+'] + version.build
    } else {
        Seq::empty()
    })
}

/// The text of a specifier.
pub open spec fn spec_text(spec: SpecModel) -> Seq<char> {
    match spec {
        SpecModel::Canary => "canary"@,
        SpecModel::Alias(alias) => alias,
        SpecModel::Req(req) => req,
        SpecModel::Version(version) => version_text(version),
    }
}

/// The specifier is the canary marker, as a variant or as an alias.
pub open spec fn is_canary(spec: SpecModel) -> bool {
    match spec {
        SpecModel::Canary => true,
        SpecModel::Alias(alias) => alias == "canary"@,
        _ => false,
    }
}

impl Version {
    /// A release without pre-release identifiers or build metadata.
    pub fn new(major: u64, minor: u64, patch: u64) -> (version: Version)
        ensures
            version@ == (VersionModel {
                major: major as nat,
                minor: minor as nat,
                patch: patch as nat,
                pre: Seq::empty(),
                build: Seq::empty(),
            }),
    {
        Version { major, minor, patch, pre: String::new(), build: String::new() }
    }

    /// Whether two versions have the same value.
    pub fn same(&self, other: &Version) -> (same: bool)
        ensures
            same == (self@ == other@),
    {
        self.major == other.major && self.minor == other.minor && self.patch == other.patch
            && same_text(self.pre.as_str(), other.pre.as_str()) && same_text(
            self.build.as_str(),
            other.build.as_str(),
        )
    }

    /// The text of the release.
    pub fn to_string(&self) -> (text: String)
        ensures
            text@ == version_text(self@),
    {
        proof {
            reveal_strlit(".");
            reveal_strlit("-");
            reveal_strlit("+");
        }
        let mut text = decimal_text(self.major);
        text.append(".");
        text.append(decimal_text(self.minor).as_str());
        text.append(".");
        text.append(decimal_text(self.patch).as_str());
        if !self.pre.as_str().is_empty() {
            text.append("-");
            text.append(self.pre.as_str());
        }
        if !self.build.as_str().is_empty() {
            text.append("+");
            text.append(self.build.as_str());
        }
        assert(text@ =~= version_text(self@));
        text
    }
}

impl VersionSpec {
    /// Whether the specifier is the canary marker, as a variant or as an
    /// alias.
    pub fn is_canary(&self) -> (canary: bool)
        ensures
            canary == is_canary(self@),
    {
        match self {
            VersionSpec::Canary => true,
            VersionSpec::Alias(alias) => same_text(alias.as_str(), "canary"),
            VersionSpec::Version(_) => false,
        }
    }

    /// The text of the specifier.
    pub fn to_string(&self) -> (text: String)
        ensures
            text@ == spec_text(self@),
    {
        match self {
            VersionSpec::Canary => String::from_str("canary"),
            VersionSpec::Alias(alias) => alias.clone(),
            VersionSpec::Version(version) => version.to_string(),
        }
    }
}

/// The error with which the parser rejects a text. Nothing is read from it.
#[verifier::external_type_specification]
#[verifier::external_body]
pub struct ExSemverError(semver::Error);

/// What the specifier parser of `proto_pdk` makes of a text: the specifier
/// that it reads, or `None` where it rejects the text.
pub uninterp spec fn parsed_spec(text: Seq<char>) -> Option<SpecModel>;

/// Calls `UnresolvedVersionSpec::parse`, which `proto_pdk` hands on from
/// `version_spec`, and carries its result over, variant by variant; a
/// requirement or a list of requirements comes back as its text.
///
/// Trusted: the parser is a function of the text alone, so its result has a
/// name, [`parsed_spec`], of which nothing more is claimed. Texts with a
/// vertical bar are left out because the parser orders the alternatives of
/// such a text by a comparison whose arithmetic can overflow.
#[verifier::external_body]
fn parse_with_proto(text: &str) -> (parsed: Result<UnresolvedVersionSpec, semver::Error>)
    requires
        !text@.contains('|'),
    ensures
        match parsed {
            Ok(spec) => parsed_spec(text@) == Some(spec@),
            Err(_) => parsed_spec(text@) is None,
        },
{
    match proto_pdk::UnresolvedVersionSpec::parse(text) {
        Ok(proto_pdk::UnresolvedVersionSpec::Canary) => Ok(UnresolvedVersionSpec::Canary),
        Ok(proto_pdk::UnresolvedVersionSpec::Alias(alias)) => Ok(UnresolvedVersionSpec::Alias(alias)),
        Ok(proto_pdk::UnresolvedVersionSpec::Version(v)) => Ok(UnresolvedVersionSpec::Version(Version {
            major: v.major, minor: v.minor, patch: v.patch,
            pre: v.pre.as_str().to_owned(), build: v.build.as_str().to_owned(),
        })),
        Ok(other) => Ok(UnresolvedVersionSpec::Req(other.to_string())),
        Err(error) => Err(error),
    }
}

/// What [`UnresolvedVersionSpec::parse`] returns for `text`, given what the
/// parser makes of it: a text with a vertical bar is rejected unseen, any
/// other text is what the parser says.
pub open spec fn parse_outcome(text: Seq<char>, parsed: Option<SpecModel>) -> Option<SpecModel> {
    if text.contains('|') {
        None
    } else {
        parsed
    }
}

impl UnresolvedVersionSpec {
    /// Reads a specifier from `text`.
    ///
    /// Succeeds exactly where `text` holds no vertical bar and the parser
    /// accepts it; the error carries the rejected text. A vertical bar
    /// separates the alternatives of a list of requirements, which no
    /// toolchain is named by and which the parser cannot be trusted to order
    /// without overflow, so such a text is never handed to it.
    pub fn parse(text: &str) -> (result: Result<UnresolvedVersionSpec, SpecError>)
        ensures
            match result {
                Ok(spec) => parse_outcome(text@, parsed_spec(text@)) == Some(spec@),
                Err(error) => parse_outcome(text@, parsed_spec(text@)) is None && error.text@
                    == text@,
            },
    {
        if contains_char(text, '|') {
            return Err(SpecError { text: String::from_str(text) });
        }
        match parse_with_proto(text) {
            Ok(spec) => Ok(spec),
            Err(_) => Err(SpecError { text: String::from_str(text) }),
        }
    }

    /// Whether the specifier is the canary marker, as a variant or as an
    /// alias.
    pub fn is_canary(&self) -> (canary: bool)
        ensures
            canary == is_canary(self@),
    {
        match self {
            UnresolvedVersionSpec::Canary => true,
            UnresolvedVersionSpec::Alias(alias) => same_text(alias.as_str(), "canary"),
            _ => false,
        }
    }

    /// The text of the specifier.
    pub fn to_string(&self) -> (text: String)
        ensures
            text@ == spec_text(self@),
    {
        match self {
            UnresolvedVersionSpec::Canary => String::from_str("canary"),
            UnresolvedVersionSpec::Alias(alias) => alias.clone(),
            UnresolvedVersionSpec::Req(req) => req.clone(),
            UnresolvedVersionSpec::Version(version) => version.to_string(),
        }
    }
}

} // verus!
