//! The inventory of installed toolchains, read off the names of the
//! directories under the installation root.
//!
//! A toolchain directory is named by an identity, a hyphen and the platform
//! triple. Only the directories of the current platform count. The identity
//! of such a directory is a channel, which is left out, or a concrete
//! version, which is reported; a directory with any other identity is
//! malformed and fails the reconciliation.

use crate::helpers::{is_non_version, is_non_version_channel};
use crate::text::{ends_with, has_suffix};
use crate::triple::{triple_text, PlatformTriple};
use crate::version::{
    parse_outcome, parsed_spec, SpecModel, UnresolvedVersionSpec, Version, VersionModel,
};
use vstd::prelude::*;
use vstd::string::{StrSliceExecFns, StringExecFns};

verus! {

/// An entry under the installation root.
#[derive(Clone, Debug, PartialEq, Eq)]
pub struct DirectoryEntry {
    /// The entry's file name.
    pub name: String,
    /// Whether the entry is a directory.
    pub is_dir: bool,
}

/// The identity that the name of a toolchain directory carries for a
/// platform, or `None` where the name does not end with the triple.
///
/// The identity is the name without the triple and without the hyphen in
/// front of it. A name that ends with the triple but has no hyphen there is
/// its own identity.
pub open spec fn identity_in(name: Seq<char>, triple: Seq<char>) -> Option<Seq<char>> {
    if !ends_with(name, triple) {
        None
    } else if ends_with(name, suffix_of(triple)) {
        Some(name.subrange(0, name.len() - triple.len() - 1))
    } else {
        Some(name)
    }
}

/// What a specifier adds to the inventory when it is the identity of a
/// toolchain directory: a channel adds nothing, a concrete version adds
/// itself, and anything else, such as a partial version, a range or an alias
/// that names no channel, is malformed.
pub open spec fn reportable(spec: SpecModel) -> Result<Option<VersionModel>, ()> {
    if is_non_version(spec) {
        Ok(None)
    } else {
        match spec {
            SpecModel::Version(version) => Ok(Some(version)),
            _ => Err(()),
        }
    }
}

/// What one entry adds to the inventory, given what the parser makes of its
/// identity: nothing where it is no directory of this platform, an error
/// where the parser rejects its identity, and else what the specifier adds.
pub open spec fn entry_version(
    identity: Option<Seq<char>>,
    is_dir: bool,
    parsed: Option<SpecModel>,
) -> Result<Option<VersionModel>, ()> {
    if !is_dir {
        Ok(None)
    } else {
        match identity {
            None => Ok(None),
            Some(text) => match parse_outcome(text, parsed) {
                Some(spec) => reportable(spec),
                None => Err(()),
            },
        }
    }
}

/// What the entry `entry` adds to the inventory of the platform `triple`.
pub open spec fn entry_adds(entry: DirectoryEntry, triple: Seq<char>) -> Result<
    Option<VersionModel>,
    (),
> {
    let identity = identity_in(entry.name@, triple);
    entry_version(
        identity,
        entry.is_dir,
        match identity {
            Some(text) => parsed_spec(text),
            None => None,
        },
    )
}

/// The inventory that a listing shows for a platform: the concrete versions
/// of its toolchain directories in the order of the listing, each once; or
/// the name of the first malformed entry, whose identity is neither a
/// channel nor a concrete version.
pub open spec fn inventory(entries: Seq<DirectoryEntry>, triple: Seq<char>) -> Result<
    Seq<VersionModel>,
    Seq<char>,
>
    decreases entries.len(),
{
    if entries.len() == 0 {
        Ok(Seq::empty())
    } else {
        match inventory(entries.drop_last(), triple) {
            Err(name) => Err(name),
            Ok(found) => match entry_adds(entries.last(), triple) {
                Err(_) => Err(entries.last().name@),
                Ok(Some(version)) => if found.contains(version) {
                    Ok(found)
                } else {
                    Ok(found.push(version))
                },
                Ok(None) => Ok(found),
            },
        }
    }
}

/// Channels are left out of the inventory: a listing shows the same with
/// and without a directory whose identity the parser reads as a channel.
pub proof fn lemma_channels_are_left_out(
    entries: Seq<DirectoryEntry>,
    entry: DirectoryEntry,
    triple: Seq<char>,
)
    requires
        identity_in(entry.name@, triple) matches Some(identity) && (parse_outcome(
            identity,
            parsed_spec(identity),
        ) matches Some(spec) && is_non_version(spec)),
    ensures
        entry_adds(entry, triple) == Ok::<Option<VersionModel>, ()>(None),
        inventory(entries.push(entry), triple) == inventory(entries, triple),
{
    assert(entries.push(entry).drop_last() =~= entries);
}

/// A directory of this platform whose identity is neither a channel nor a
/// concrete version fails the reconciliation: whether the parser rejects the
/// identity or reads something else from it, a listing that was sound so far
/// shows the name of that directory and no version.
pub proof fn lemma_malformed_directory_fails(
    entries: Seq<DirectoryEntry>,
    entry: DirectoryEntry,
    triple: Seq<char>,
)
    requires
        inventory(entries, triple) is Ok,
        entry.is_dir,
        identity_in(entry.name@, triple) matches Some(identity) && (parse_outcome(
            identity,
            parsed_spec(identity),
        ) matches Some(spec) ==> !is_non_version(spec) && !(spec is Version)),
    ensures
        entry_adds(entry, triple) is Err,
        inventory(entries.push(entry), triple) == Err::<Seq<VersionModel>, Seq<char>>(
            entry.name@,
        ),
{
    assert(entries.push(entry).drop_last() =~= entries);
}

/// Once an entry is malformed, the entries after it change nothing.
pub proof fn lemma_first_malformed_entry_stands(
    entries: Seq<DirectoryEntry>,
    triple: Seq<char>,
    upto: int,
)
    requires
        0 <= upto <= entries.len(),
        inventory(entries.take(upto), triple) is Err,
    ensures
        inventory(entries, triple) == inventory(entries.take(upto), triple),
    decreases entries.len() - upto,
{
    if upto < entries.len() {
        assert(entries.take(upto + 1).drop_last() =~= entries.take(upto));
        lemma_first_malformed_entry_stands(entries, triple, upto + 1);
    } else {
        assert(entries.take(upto) =~= entries);
    }
}

/// Entries that are all sound give an inventory.
pub proof fn lemma_sound_entries_give_inventory(entries: Seq<DirectoryEntry>, triple: Seq<char>)
    requires
        forall|k: int| 0 <= k < entries.len() ==> entry_adds(#[trigger] entries[k], triple) is Ok,
    ensures
        inventory(entries, triple) is Ok,
    decreases entries.len(),
{
    if entries.len() > 0 {
        let before = entries.drop_last();
        assert forall|k: int| 0 <= k < before.len() implies entry_adds(
            #[trigger] before[k],
            triple,
        ) is Ok by {
            assert(before[k] == entries[k]);
        }
        lemma_sound_entries_give_inventory(before, triple);
        assert(entry_adds(entries[entries.len() - 1], triple) is Ok);
    }
}

/// The reconciliation fails with the name of the first malformed entry:
/// where the entry at `index` is malformed and every entry before it is
/// sound, the listing shows that entry's name and no version.
pub proof fn lemma_first_malformed_entry_is_named(
    entries: Seq<DirectoryEntry>,
    triple: Seq<char>,
    index: int,
)
    requires
        0 <= index < entries.len(),
        entry_adds(entries[index], triple) is Err,
        forall|k: int| 0 <= k < index ==> entry_adds(#[trigger] entries[k], triple) is Ok,
    ensures
        inventory(entries, triple) == Err::<Seq<VersionModel>, Seq<char>>(entries[index].name@),
{
    let before = entries.take(index);
    let upto = entries.take(index + 1);
    assert forall|k: int| 0 <= k < before.len() implies entry_adds(
        #[trigger] before[k],
        triple,
    ) is Ok by {
        assert(before[k] == entries[k]);
    }
    lemma_sound_entries_give_inventory(before, triple);
    assert(upto.drop_last() =~= before);
    assert(upto.last() == entries[index]);
    lemma_first_malformed_entry_stands(entries, triple, index + 1);
}

/// A malformed entry anywhere in a listing leaves no inventory.
pub proof fn lemma_any_malformed_entry_fails(
    entries: Seq<DirectoryEntry>,
    triple: Seq<char>,
    index: int,
)
    requires
        0 <= index < entries.len(),
        entry_adds(entries[index], triple) is Err,
    ensures
        inventory(entries, triple) is Err,
{
    let upto = entries.take(index + 1);
    assert(upto.drop_last() =~= entries.take(index));
    assert(upto.last() == entries[index]);
    lemma_first_malformed_entry_stands(entries, triple, index + 1);
}

/// The values of a sequence of versions.
pub open spec fn models(versions: Seq<Version>) -> Seq<VersionModel> {
    versions.map_values(|version: Version| version@)
}

/// What follows the identity in the name of a toolchain directory of a
/// platform: a hyphen and the triple.
pub open spec fn suffix_of(triple: Seq<char>) -> Seq<char> {
    "-"@ + triple
}

/// What follows the identity in the name of a toolchain directory of
/// `triple`.
pub fn version_suffix(triple: &PlatformTriple) -> (suffix: String)
    ensures
        suffix@ == suffix_of(triple_text(*triple)),
{
    let mut suffix = String::from_str("-");
    suffix.append(triple.identity().as_str());
    suffix
}

/// The identity that a directory name carries for a platform.
pub fn installed_identity(name: &str, triple: &str) -> (identity: Option<String>)
    ensures
        match identity {
            Some(text) => identity_in(name@, triple@) == Some(text@),
            None => identity_in(name@, triple@) is None,
        },
{
    if !has_suffix(name, triple) {
        return None;
    }
    let mut hyphenated = String::from_str("-");
    hyphenated.append(triple);
    proof {
        reveal_strlit("-");
        assert(hyphenated@.len() == triple@.len() + 1);
    }
    if has_suffix(name, hyphenated.as_str()) {
        let name_len = name.unicode_len();
        let suffix_len = hyphenated.as_str().unicode_len();
        Some(String::from_str(name.substring_char(0, name_len - suffix_len)))
    } else {
        Some(String::from_str(name))
    }
}

/// What a specifier adds to the inventory when it is the identity of a
/// toolchain directory: `Ok(None)` for a channel, the version for a concrete
/// version, and `Err` for anything else.
pub fn reported_version(spec: UnresolvedVersionSpec) -> (added: Result<Option<Version>, ()>)
    ensures
        match added {
            Ok(Some(version)) => reportable(spec@) == Ok::<Option<VersionModel>, ()>(
                Some(version@),
            ),
            Ok(None) => reportable(spec@) == Ok::<Option<VersionModel>, ()>(None),
            Err(_) => reportable(spec@) is Err,
        },
{
    if is_non_version_channel(&spec) {
        return Ok(None);
    }
    match spec {
        UnresolvedVersionSpec::Version(version) => Ok(Some(version)),
        _ => Err(()),
    }
}

/// Whether `version` is among `versions`.
pub fn holds_version(versions: &Vec<Version>, version: &Version) -> (found: bool)
    ensures
        found == models(versions@).contains(version@),
{
    for i in 0..versions.len()
        invariant
            forall|k: int| 0 <= k < i ==> models(versions@)[k] != version@,
    {
        if versions[i].same(version) {
            assert(models(versions@)[i as int] == version@);
            return true;
        }
    }
    false
}

} // verus!
