//! Finding the default profile directory in the master configuration.
use crate::errors::{BrowsercookieError, ErrorKind};
use ini::Ini;
use std::path::PathBuf;
use vstd::prelude::*;
use vstd::string::StringExecFns;

verus! {

/// One section of an ini document: its name, which the leading general
/// section lacks, and its keys with their values in file order.
#[derive(Debug)]
pub struct IniSection {
    pub name: Option<String>,
    pub entries: Vec<(String, String)>,
}

/// The sections that the `ini` parser reads from `text`, in the order in
/// which it hands them out (the general section, then the others in
/// file order), or nothing where the text is not valid ini.
pub uninterp spec fn ini_document(text: Seq<char>) -> Option<Vec<IniSection>>;

/// The path without its last component, as `PathBuf::pop` leaves it
/// under the path syntax of the platform that the library is built for.
pub uninterp spec fn path_parent(path: Seq<char>) -> Seq<char>;

/// The path that `PathBuf::push` makes of `base` when given `child`,
/// under the path syntax of the platform that the library is built for.
pub uninterp spec fn path_joined(base: Seq<char>, child: Seq<char>) -> Seq<char>;

/// Calls `Ini::load_from_str` and copies out each section that
/// `Ini::iter` yields, with the pairs that its `Properties::iter`
/// yields. The contract claims only that the outcome is a function of
/// the text.
#[verifier::external_body]
fn parse_ini(text: &str) -> (sections: Option<Vec<IniSection>>)
    ensures
        sections == ini_document(text@),
{
    match Ini::load_from_str(text) {
        Ok(ini) => Some(
            ini.iter().map(|(name, properties)| IniSection {
                name: name.map(String::from),
                entries: properties.iter().map(|(k, v)| (String::from(k), String::from(v))).collect(),
            }).collect(),
        ),
        Err(_) => None,
    }
}

/// Calls `PathBuf::pop` on the path: the last component is removed where
/// there is one. The contract claims only that the outcome is a function
/// of the path.
#[verifier::external_body]
fn parent_dir(path: &str) -> (parent: String)
    ensures
        parent@ == path_parent(path@),
{
    let mut buffer = PathBuf::from(path);
    buffer.pop();
    buffer.to_string_lossy().into_owned()
}

/// Calls `PathBuf::push` on `base` with `child`. The contract claims only
/// that the outcome is a function of the two.
#[verifier::external_body]
fn join_path(base: &str, child: &str) -> (joined: String)
    ensures
        joined@ == path_joined(base@, child@),
{
    let mut buffer = PathBuf::from(base);
    buffer.push(child);
    buffer.to_string_lossy().into_owned()
}

/// Whether `text` begins with `prefix`.
pub open spec fn has_prefix(text: Seq<char>, prefix: Seq<char>) -> bool {
    prefix.len() <= text.len() && text.subrange(0, prefix.len() as int) == prefix
}

/// The first value stored under `key` among `entries[from..]`.
pub open spec fn value_from(entries: Seq<(String, String)>, key: Seq<char>, from: int) -> Option<
    Seq<char>,
>
    decreases entries.len() - from,
{
    if from < 0 || from >= entries.len() {
        None
    } else if entries[from].0@ == key {
        Some(entries[from].1@)
    } else {
        value_from(entries, key, from + 1)
    }
}

impl IniSection {
    /// The first value that the section stores under `key`.
    pub open spec fn value_of(self, key: Seq<char>) -> Option<Seq<char>> {
        value_from(self.entries@, key, 0)
    }

    /// Whether the section binds a profile to one installation: its name
    /// begins with `Install`.
    pub open spec fn is_install(self) -> bool {
        self.name is Some && has_prefix(self.name.unwrap()@, "Install"@)
    }

    /// The directory that an installation section pins by its `Default`
    /// key.
    pub open spec fn pinned(self) -> Option<Seq<char>> {
        if self.is_install() {
            self.value_of("Default"@)
        } else {
            None
        }
    }

    /// The `Path` of a section that carries both a `Default` and a
    /// `Path` key.
    pub open spec fn marked(self) -> Option<Seq<char>> {
        if self.value_of("Default"@) is Some {
            self.value_of("Path"@)
        } else {
            None
        }
    }

    /// Looks up the first value stored under `key`.
    pub fn get(&self, key: &str) -> (found: Option<&String>)
        ensures
            found is Some <==> self.value_of(key@) is Some,
            found is Some ==> found.unwrap()@ == self.value_of(key@).unwrap(),
    {
        let wanted = key.to_owned();
        let mut i: usize = 0;
        while i < self.entries.len()
            invariant
                i <= self.entries@.len(),
                wanted@ == key@,
                value_from(self.entries@, key@, 0) == value_from(self.entries@, key@, i as int),
            decreases self.entries@.len() - i,
        {
            let hit = self.entries[i].0 == wanted;
            assert(hit == (self.entries@[i as int].0@ == key@));
            if hit {
                assert(value_from(self.entries@, key@, i as int) == Some(
                    self.entries@[i as int].1@,
                ));
                return Some(&self.entries[i].1);
            }
            i += 1;
        }
        None
    }

    /// Reads the directory that an installation section pins.
    pub fn pinned_directory(&self) -> (found: Option<&String>)
        ensures
            found is Some <==> self.pinned() is Some,
            found is Some ==> found.unwrap()@ == self.pinned().unwrap(),
    {
        let install = match &self.name {
            Some(name) => starts_with(name.as_str(), "Install"),
            None => false,
        };
        if install {
            self.get("Default")
        } else {
            None
        }
    }

    /// Reads the `Path` of a section that is marked as the default.
    pub fn marked_directory(&self) -> (found: Option<&String>)
        ensures
            found is Some <==> self.marked() is Some,
            found is Some ==> found.unwrap()@ == self.marked().unwrap(),
    {
        match self.get("Default") {
            Some(_) => self.get("Path"),
            None => None,
        }
    }
}

/// Tests whether `text` begins with `prefix`.
pub fn starts_with(text: &str, prefix: &str) -> (found: bool)
    ensures
        found == has_prefix(text@, prefix@),
{
    let wanted = prefix.unicode_len();
    if text.unicode_len() < wanted {
        return false;
    }
    let mut i: usize = 0;
    while i < wanted
        invariant
            i <= wanted,
            wanted == prefix@.len(),
            wanted <= text@.len(),
            forall|j: int| 0 <= j < i ==> text@[j] == prefix@[j],
        decreases wanted - i,
    {
        if text.get_char(i) != prefix.get_char(i) {
            assert(text@.subrange(0, wanted as int)[i as int] != prefix@[i as int]);
            return false;
        }
        i += 1;
    }
    assert(text@.subrange(0, wanted as int) =~= prefix@);
    true
}

/// The directory that the first installation section with a `Default`
/// key among `sections[from..]` pins.
pub open spec fn first_pinned(sections: Seq<IniSection>, from: int) -> Option<Seq<char>>
    decreases sections.len() - from,
{
    if from < 0 || from >= sections.len() {
        None
    } else if sections[from].pinned() is Some {
        sections[from].pinned()
    } else {
        first_pinned(sections, from + 1)
    }
}

/// The `Path` of the first section among `sections[from..]` that carries
/// both a `Default` and a `Path` key.
pub open spec fn first_marked(sections: Seq<IniSection>, from: int) -> Option<Seq<char>>
    decreases sections.len() - from,
{
    if from < 0 || from >= sections.len() {
        None
    } else if sections[from].marked() is Some {
        sections[from].marked()
    } else {
        first_marked(sections, from + 1)
    }
}

/// The profile directory that the sections select, relative to the
/// configuration's own directory: the installation-pinned one where
/// there is any, else that of the first section marked as default.
pub open spec fn chosen_directory(sections: Seq<IniSection>) -> Option<Seq<char>> {
    match first_pinned(sections, 0) {
        Some(directory) => Some(directory),
        None => first_marked(sections, 0),
    }
}

/// The default profile path for a master configuration at `master` that
/// reads `text`, or nothing where the text is not valid ini. Where no
/// section selects a directory it is the configuration's own directory.
pub open spec fn default_profile(master: Seq<char>, text: Seq<char>) -> Option<Seq<char>> {
    match ini_document(text) {
        None => None,
        Some(sections) => match chosen_directory(sections@) {
            Some(directory) => Some(path_joined(path_parent(master), directory)),
            None => Some(path_parent(master)),
        },
    }
}

/// Selects the profile directory among the sections of a master
/// configuration.
pub fn choose_directory(sections: &Vec<IniSection>) -> (found: Option<&String>)
    ensures
        found is Some <==> chosen_directory(sections@) is Some,
        found is Some ==> found.unwrap()@ == chosen_directory(sections@).unwrap(),
{
    let mut i: usize = 0;
    while i < sections.len()
        invariant
            i <= sections@.len(),
            first_pinned(sections@, 0) == first_pinned(sections@, i as int),
        decreases sections@.len() - i,
    {
        match sections[i].pinned_directory() {
            Some(directory) => {
                assert(first_pinned(sections@, i as int) == sections@[i as int].pinned());
                return Some(directory);
            },
            None => {},
        }
        i += 1;
    }
    let mut k: usize = 0;
    while k < sections.len()
        invariant
            k <= sections@.len(),
            first_pinned(sections@, 0) is None,
            first_marked(sections@, 0) == first_marked(sections@, k as int),
        decreases sections@.len() - k,
    {
        match sections[k].marked_directory() {
            Some(directory) => {
                assert(first_marked(sections@, k as int) == sections@[k as int].marked());
                return Some(directory);
            },
            None => {},
        }
        k += 1;
    }
    None
}

/// Resolves the default profile path from the master configuration's
/// own path and its text. Fails with `InvalidProfile` exactly where the
/// text is not valid ini.
pub fn get_default_profile_path(master_profile: &str, contents: &str) -> (outcome: Result<
    String,
    BrowsercookieError,
>)
    ensures
        outcome is Ok <==> default_profile(master_profile@, contents@) is Some,
        outcome is Ok ==> outcome.unwrap()@ == default_profile(master_profile@, contents@).unwrap(),
        outcome is Err ==> outcome.unwrap_err().kind() == ErrorKind::InvalidProfile,
{
    let sections = match parse_ini(contents) {
        Some(sections) => sections,
        None => {
            return Err(
                BrowsercookieError::new(
                    ErrorKind::InvalidProfile,
                    "Unable to parse firefox ini profile",
                ),
            );
        },
    };
    let parent = parent_dir(master_profile);
    match choose_directory(&sections) {
        Some(directory) => Ok(join_path(parent.as_str(), directory.as_str())),
        None => Ok(parent),
    }
}

/// The path of the recovery snapshot below a profile directory.
pub open spec fn recovery_location(profile: Seq<char>) -> Seq<char> {
    path_joined(profile, "sessionstore-backups/recovery.jsonlz4"@)
}

/// The path of the cookie database below a profile directory.
pub open spec fn cookie_store_location(profile: Seq<char>) -> Seq<char> {
    path_joined(profile, "cookies.sqlite"@)
}

/// Where the recovery snapshot of a profile lies.
pub fn recovery_path(profile: &str) -> (path: String)
    ensures
        path@ == recovery_location(profile@),
{
    join_path(profile, "sessionstore-backups/recovery.jsonlz4")
}

/// Where the cookie database of a profile lies.
pub fn cookie_store_path(profile: &str) -> (path: String)
    ensures
        path@ == cookie_store_location(profile@),
{
    join_path(profile, "cookies.sqlite")
}

} // verus!
