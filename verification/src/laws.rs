//! Laws that relate the parts of the library to each other.
use crate::errors::ErrorKind;
use crate::filter::FilterCriterion;
use crate::finder::{browsers_outcome, find_outcome, Browser};
use crate::firefox::{load_outcome, FirefoxSnapshot};
use crate::jar::{merged, no_cookies};
use crate::json::{json_document, Json};
use crate::profile::{
    chosen_directory, default_profile, first_pinned, ini_document, path_joined, path_parent,
    IniSection,
};
use crate::record::{names, CookieModel};
use crate::recovery::{
    begins_with_signature, decoded, decoded_record, expected_size, is_container,
    lz4_decompressed, payload, recovery_candidates, size_hint,
};
use vstd::prelude::*;

verus! {

/// A buffer that does not begin with the signature holds no candidates,
/// whatever else it holds.
pub proof fn lemma_signature_required(bytes: Seq<u8>)
    requires
        !begins_with_signature(bytes),
    ensures
        recovery_candidates(bytes) is None,
{
}

/// Every item that decodes appears among the decoded cookies with the
/// field values it was decoded to, also where other items fail to
/// decode.
pub proof fn lemma_decoded_keeps_valid_items(items: Seq<Json>, i: int)
    requires
        0 <= i < items.len(),
        decoded_record(items[i]) is Some,
    ensures
        decoded(items).contains(decoded_record(items[i]).unwrap()),
    decreases items.len(),
{
    let wanted = decoded_record(items[i]).unwrap();
    if i == items.len() - 1 {
        let rest = decoded(items.drop_last());
        assert(decoded(items) == rest.push(wanted));
        assert(rest.push(wanted)[rest.len() as int] == wanted);
    } else {
        lemma_decoded_keeps_valid_items(items.drop_last(), i);
        let rest = decoded(items.drop_last());
        let k = choose|k: int| 0 <= k < rest.len() && rest[k] == wanted;
        assert(decoded(items)[k] == wanted);
    }
}

/// Every decoded cookie is what some item decodes to: an item that does
/// not decode leaves nothing behind.
pub proof fn lemma_decoded_adds_nothing(items: Seq<Json>, k: int)
    requires
        0 <= k < decoded(items).len(),
    ensures
        exists|i: int|
            0 <= i < items.len() && decoded_record(#[trigger] items[i]) == Some(decoded(items)[k]),
    decreases items.len(),
{
    if items.len() > 0 {
        let rest = decoded(items.drop_last());
        if k < rest.len() {
            lemma_decoded_adds_nothing(items.drop_last(), k);
            let i = choose|i: int|
                0 <= i < items.drop_last().len() && decoded_record(
                    #[trigger] items.drop_last()[i],
                ) == Some(rest[k]);
            assert(items[i] == items.drop_last()[i]);
        } else {
            assert(decoded_record(items[items.len() - 1]) == Some(decoded(items)[k]));
        }
    }
}

/// Decoding a well-formed container loses no valid cookie: where the
/// container's block decompresses to a document with a `cookies` array,
/// each item of the array that decodes is among the candidates.
pub proof fn lemma_container_keeps_valid_items(
    bytes: Seq<u8>,
    plain: Seq<u8>,
    doc: Json,
    items: Seq<Json>,
    i: int,
)
    requires
        is_container(bytes),
        lz4_decompressed(payload(bytes), expected_size(size_hint(bytes))) == Some(plain),
        json_document(plain) == Some(doc),
        doc.array_member("cookies"@) == Some(items),
        0 <= i < items.len(),
        decoded_record(items[i]) is Some,
    ensures
        recovery_candidates(bytes) == Some(decoded(items)),
        decoded(items).contains(decoded_record(items[i]).unwrap()),
{
    lemma_decoded_keeps_valid_items(items, i);
}

/// An installation section that pins a directory wins over every
/// section that is merely marked as default, wherever either stands:
/// the first such installation section decides.
pub proof fn lemma_pinned_directory_wins(sections: Seq<IniSection>, i: int)
    requires
        0 <= i < sections.len(),
        sections[i].pinned() is Some,
        forall|j: int| 0 <= j < i ==> (#[trigger] sections[j]).pinned() is None,
    ensures
        chosen_directory(sections) == sections[i].pinned(),
{
    lemma_first_pinned_skips(sections, i, 0);
}

proof fn lemma_first_pinned_skips(sections: Seq<IniSection>, i: int, from: int)
    requires
        0 <= from <= i < sections.len(),
        sections[i].pinned() is Some,
        forall|j: int| 0 <= j < i ==> (#[trigger] sections[j]).pinned() is None,
    ensures
        first_pinned(sections, from) == sections[i].pinned(),
    decreases i - from,
{
    if from < i {
        lemma_first_pinned_skips(sections, i, from + 1);
    }
}

/// The resolved profile path of a configuration with an installation
/// section that pins a directory is that directory below the
/// configuration's own.
pub proof fn lemma_pinned_profile_path(
    master: Seq<char>,
    text: Seq<char>,
    sections: Vec<IniSection>,
    i: int,
)
    requires
        ini_document(text) == Some(sections),
        0 <= i < sections@.len(),
        sections@[i].pinned() is Some,
        forall|j: int| 0 <= j < i ==> (#[trigger] sections@[j]).pinned() is None,
    ensures
        default_profile(master, text) == Some(
            path_joined(path_parent(master), sections@[i].pinned().unwrap()),
        ),
{
    lemma_pinned_directory_wins(sections@, i);
}

/// Where the criterion keeps every candidate, merging adds exactly the
/// candidates' names to those that were there: cookies of one name
/// collapse into one entry.
pub proof fn lemma_merged_names(
    contents: Map<Seq<char>, CookieModel>,
    criterion: FilterCriterion,
    candidates: Seq<CookieModel>,
)
    requires
        criterion.accepts_all(candidates),
    ensures
        merged(contents, criterion, candidates).dom() == contents.dom().union(names(candidates)),
    decreases candidates.len(),
{
    let after = merged(contents, criterion, candidates).dom();
    let wanted = contents.dom().union(names(candidates));
    if candidates.len() == 0 {
        assert(after =~= wanted);
    } else {
        let front = candidates.drop_last();
        let cookie = candidates.last();
        assert(criterion.accepts_all(front)) by {
            assert forall|i: int| 0 <= i < front.len() implies criterion.accepts(
                #[trigger] front[i],
            ) by {
                assert(front[i] == candidates[i]);
            }
        }
        lemma_merged_names(contents, criterion, front);
        assert(criterion.accepts(cookie));
        assert forall|name: Seq<char>| after.contains(name) == wanted.contains(name) by {
            if names(front).contains(name) {
                let i = choose|i: int| 0 <= i < front.len() && front[i].name == name;
                assert(candidates[i].name == name);
            }
            if name == cookie.name {
                assert(candidates[candidates.len() - 1].name == name);
            }
            if names(candidates).contains(name) {
                let i = choose|i: int| 0 <= i < candidates.len() && candidates[i].name == name;
                if i < front.len() {
                    assert(front[i].name == name);
                }
            }
        }
        assert(after =~= wanted);
    }
}

/// The last kept candidate of a name is the one that the jar holds
/// under that name afterwards.
pub proof fn lemma_merged_last_wins(
    contents: Map<Seq<char>, CookieModel>,
    criterion: FilterCriterion,
    candidates: Seq<CookieModel>,
    i: int,
)
    requires
        0 <= i < candidates.len(),
        criterion.accepts(candidates[i]),
        forall|j: int|
            i < j < candidates.len() && criterion.accepts(#[trigger] candidates[j])
                ==> candidates[j].name != candidates[i].name,
    ensures
        merged(contents, criterion, candidates).contains_key(candidates[i].name),
        merged(contents, criterion, candidates)[candidates[i].name] == candidates[i],
    decreases candidates.len(),
{
    if i < candidates.len() - 1 {
        let front = candidates.drop_last();
        assert(front[i] == candidates[i]);
        assert forall|j: int| i < j < front.len() && criterion.accepts(#[trigger] front[j]) implies front[j].name
            != front[i].name by {
            assert(front[j] == candidates[j]);
        }
        lemma_merged_last_wins(contents, criterion, front, i);
        assert(candidates.last() == candidates[candidates.len() - 1]);
    }
}

/// A name that no kept candidate bears stays as it was: what the
/// criterion rejects leaves no trace in the jar.
pub proof fn lemma_merged_leaves_other_names(
    contents: Map<Seq<char>, CookieModel>,
    criterion: FilterCriterion,
    candidates: Seq<CookieModel>,
    name: Seq<char>,
)
    requires
        forall|j: int|
            0 <= j < candidates.len() && criterion.accepts(#[trigger] candidates[j])
                ==> candidates[j].name != name,
    ensures
        merged(contents, criterion, candidates).contains_key(name) == contents.contains_key(name),
        contents.contains_key(name) ==> merged(contents, criterion, candidates)[name]
            == contents[name],
    decreases candidates.len(),
{
    if candidates.len() > 0 {
        let front = candidates.drop_last();
        assert forall|j: int| 0 <= j < front.len() && criterion.accepts(#[trigger] front[j]) implies front[j].name
            != name by {
            assert(front[j] == candidates[j]);
        }
        lemma_merged_leaves_other_names(contents, criterion, front, name);
        assert(candidates.last() == candidates[candidates.len() - 1]);
    }
}

/// A finder with one criterion and one browser does what one load
/// does, starting from an empty jar or any other.
pub proof fn lemma_single_find_is_one_load(
    contents: Map<Seq<char>, CookieModel>,
    criterion: FilterCriterion,
    snapshot: FirefoxSnapshot,
)
    ensures
        find_outcome(contents, seq![criterion], 0, seq![Browser::Firefox], snapshot)
            == load_outcome(contents, criterion, snapshot),
{
    let criteria = seq![criterion];
    let browsers = seq![Browser::Firefox];
    reveal_with_fuel(find_outcome, 3);
    reveal_with_fuel(browsers_outcome, 3);
    assert(criteria[0] == criterion);
    assert(browsers[0] == Browser::Firefox);
    match load_outcome(contents, criterion, snapshot) {
        Ok(next) => {
            assert(browsers_outcome(next, criterion, browsers, 1, snapshot) == Ok::<
                Map<Seq<char>, CookieModel>,
                ErrorKind,
            >(next));
            assert(find_outcome(next, criteria, 1, browsers, snapshot) == Ok::<
                Map<Seq<char>, CookieModel>,
                ErrorKind,
            >(next));
        },
        Err(_) => {},
    }
}

/// A load with a criterion that keeps every candidate of both sources
/// yields a jar whose names are exactly the distinct names of the two
/// sources together.
pub proof fn lemma_match_all_collects_every_name(
    criterion: FilterCriterion,
    snapshot: FirefoxSnapshot,
    recovered: Seq<CookieModel>,
    stored: Seq<CookieModel>,
)
    requires
        snapshot.profile_failure() is None,
        snapshot.recovery_cookies() == Some(recovered),
        snapshot.store_cookies() == Some(stored),
        criterion.accepts_all(recovered),
        criterion.accepts_all(stored),
    ensures
        load_outcome(no_cookies(), criterion, snapshot) is Ok,
        load_outcome(no_cookies(), criterion, snapshot).unwrap().dom() == names(recovered).union(
            names(stored),
        ),
{
    lemma_merged_names(no_cookies(), criterion, recovered);
    lemma_merged_names(merged(no_cookies(), criterion, recovered), criterion, stored);
    assert(no_cookies().dom().union(names(recovered)) =~= names(recovered));
}

/// A load whose database has no rows while its recovery file is valid
/// succeeds and merges the recovery cookies alone.
pub proof fn lemma_empty_store_yields_recovery(
    contents: Map<Seq<char>, CookieModel>,
    criterion: FilterCriterion,
    snapshot: FirefoxSnapshot,
)
    requires
        snapshot.profile_failure() is None,
        snapshot.recovery_cookies() is Some,
        snapshot.store_cookies() is Some,
        snapshot.store_cookies().unwrap().len() == 0,
    ensures
        load_outcome(contents, criterion, snapshot) == Ok::<Map<Seq<char>, CookieModel>, ErrorKind>(
            merged(contents, criterion, snapshot.recovery_cookies().unwrap()),
        ),
{
}

/// A load fails with `InvalidCookieStore` exactly where the profile
/// resolves and neither source can be used.
pub proof fn lemma_no_source_fails(
    contents: Map<Seq<char>, CookieModel>,
    criterion: FilterCriterion,
    snapshot: FirefoxSnapshot,
)
    requires
        snapshot.profile_failure() is None,
    ensures
        (snapshot.recovery_cookies() is None && snapshot.store_cookies() is None) <==> load_outcome(
            contents,
            criterion,
            snapshot,
        ) == Err::<Map<Seq<char>, CookieModel>, ErrorKind>(ErrorKind::InvalidCookieStore),
{
}

} // verus!
