//! Loading the cookies of one Firefox profile from what was read of it.
use crate::errors::{BrowsercookieError, ErrorKind};
use crate::filter::FilterCriterion;
use crate::jar::{jar_contents, merged};
use crate::profile::{default_profile, get_default_profile_path};
use crate::record::CookieModel;
use crate::recovery::{load_from_recovery, recovery_candidates};
use crate::store::{load_from_sqlite, row_cookies, StoreRow};
use cookie::CookieJar;
use vstd::prelude::*;

verus! {

/// The master profile configuration: where it lies and what it reads.
#[derive(Debug)]
pub struct MasterProfile {
    pub path: String,
    pub contents: String,
}

/// What was read of one profile directory. A source that is absent, or
/// that could not be read, is `None`.
#[derive(Debug)]
pub struct ProfileSources {
    /// The profile directory that the sources were read from.
    pub profile: String,
    /// The bytes of the profile's recovery file.
    pub recovery: Option<Vec<u8>>,
    /// The rows of the profile's cookie database.
    pub store: Option<Vec<StoreRow>>,
}

/// What was read of a Firefox installation at one point in time.
#[derive(Debug)]
pub struct FirefoxSnapshot {
    /// The master profile configuration, if it exists.
    pub master: Option<MasterProfile>,
    /// The sources of the profile directory that was read, if any was.
    pub sources: Option<ProfileSources>,
}

impl FirefoxSnapshot {
    /// The sources that a load may use: those that were read from the
    /// very directory that the master configuration resolves to.
    pub open spec fn usable_sources(self) -> Option<ProfileSources> {
        match (self.master, self.sources) {
            (Some(master), Some(sources)) => if default_profile(master.path@, master.contents@)
                == Some(sources.profile@) {
                Some(sources)
            } else {
                None
            },
            _ => None,
        }
    }

    /// The candidates of the recovery file, where there is one and it
    /// is a valid container.
    pub open spec fn recovery_cookies(self) -> Option<Seq<CookieModel>> {
        match self.usable_sources() {
            Some(sources) => match sources.recovery {
                Some(bytes) => recovery_candidates(bytes@),
                None => None,
            },
            None => None,
        }
    }

    /// The candidates of the cookie database, where it could be read.
    pub open spec fn store_cookies(self) -> Option<Seq<CookieModel>> {
        match self.usable_sources() {
            Some(sources) => match sources.store {
                Some(rows) => Some(row_cookies(rows@)),
                None => None,
            },
            None => None,
        }
    }

    /// Why no load can be attempted, if so: the master configuration is
    /// missing or is not valid ini.
    pub open spec fn profile_failure(self) -> Option<ErrorKind> {
        match self.master {
            None => Some(ErrorKind::ProfileMissing),
            Some(master) => if default_profile(master.path@, master.contents@) is None {
                Some(ErrorKind::InvalidProfile)
            } else {
                None
            },
        }
    }
}

/// What a load makes of `contents`: the cookies of the resolved
/// profile's recovery file that the criterion keeps are merged first,
/// then those of its database. A source that cannot be used is passed
/// over; the load fails where the profile cannot be resolved or neither
/// source can be used.
pub open spec fn load_outcome(
    contents: Map<Seq<char>, CookieModel>,
    criterion: FilterCriterion,
    snapshot: FirefoxSnapshot,
) -> Result<Map<Seq<char>, CookieModel>, ErrorKind> {
    match snapshot.profile_failure() {
        Some(kind) => Err(kind),
        None => match (snapshot.recovery_cookies(), snapshot.store_cookies()) {
            (None, None) => Err(ErrorKind::InvalidCookieStore),
            (Some(recovered), None) => Ok(merged(contents, criterion, recovered)),
            (None, Some(stored)) => Ok(merged(contents, criterion, stored)),
            (Some(recovered), Some(stored)) => Ok(
                merged(merged(contents, criterion, recovered), criterion, stored),
            ),
        },
    }
}

/// Loads the cookies of a snapshot that the criterion keeps into the
/// jar. On failure the jar stays as it was.
pub fn load(jar: &mut CookieJar, criterion: &FilterCriterion, snapshot: &FirefoxSnapshot) -> (outcome:
    Result<(), BrowsercookieError>)
    ensures
        match load_outcome(jar_contents(*old(jar)), *criterion, *snapshot) {
            Ok(contents) => outcome is Ok && jar_contents(*final(jar)) == contents,
            Err(kind) => outcome is Err && outcome.unwrap_err().kind() == kind && jar_contents(
                *final(jar),
            ) == jar_contents(*old(jar)),
        },
{
    let master = match &snapshot.master {
        Some(master) => master,
        None => {
            return Err(
                BrowsercookieError::new(
                    ErrorKind::ProfileMissing,
                    "Firefox profile path doesn't exist",
                ),
            );
        },
    };
    let profile = match get_default_profile_path(
        master.path.as_str(),
        master.contents.as_str(),
    ) {
        Ok(profile) => profile,
        Err(error) => {
            return Err(error);
        },
    };
    let sources = match &snapshot.sources {
        Some(sources) => if sources.profile == profile {
            sources
        } else {
            return Err(no_usable_source());
        },
        None => {
            return Err(no_usable_source());
        },
    };
    assert(snapshot.usable_sources() == Some(*sources));
    let recovered = match &sources.recovery {
        Some(bytes) => load_from_recovery(bytes.as_slice(), jar, criterion).is_ok(),
        None => false,
    };
    match &sources.store {
        Some(rows) => {
            load_from_sqlite(rows, jar, criterion);
            Ok(())
        },
        None => if recovered {
            Ok(())
        } else {
            Err(no_usable_source())
        },
    }
}

/// The error of a load that found no source it could use.
fn no_usable_source() -> (error: BrowsercookieError)
    ensures
        error.kind() == ErrorKind::InvalidCookieStore,
        error.spec_message() == "Firefox cookie sources are unusable"@,
{
    BrowsercookieError::new(ErrorKind::InvalidCookieStore, "Firefox cookie sources are unusable")
}

} // verus!
