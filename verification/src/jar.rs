//! The cookie jar of the `cookie` crate, and what merging into it means.
use crate::filter::FilterCriterion;
use crate::record::{models, CookieModel, CookieRecord};
use cookie::{Cookie, CookieJar};
use vstd::prelude::*;

verus! {

/// The jar of the `cookie` crate: cookies indexed by name.
#[verifier::external_type_specification]
#[verifier::external_body]
pub struct ExCookieJar(CookieJar);

/// The cookies that `jar` holds, each under its name, with the fields it
/// was built from.
pub uninterp spec fn jar_contents(jar: CookieJar) -> Map<Seq<char>, CookieModel>;

/// The contents of a jar that holds no cookie.
pub open spec fn no_cookies() -> Map<Seq<char>, CookieModel> {
    Map::empty()
}

/// Calls `CookieJar::new`, which makes a jar that holds no cookie.
#[verifier::external_body]
pub(crate) fn jar_new() -> (jar: CookieJar)
    ensures
        jar_contents(jar) == no_cookies(),
{
    CookieJar::new()
}

/// Builds a `Cookie` from the record's six fields and calls
/// `CookieJar::add` with it. The jar compares cookies by name alone and
/// `add` replaces an entry of the same name, so the contents afterwards
/// are those before with the record put under its name. (When read back
/// through `Cookie::domain`, a domain comes without its leading dot.)
#[verifier::external_body]
pub(crate) fn jar_add(jar: &mut CookieJar, record: CookieRecord)
    ensures
        jar_contents(*final(jar)) == jar_contents(*old(jar)).insert(record@.name, record@),
{
    jar.add(
        Cookie::build((record.name, record.value))
            .domain(record.domain)
            .path(record.path)
            .secure(record.secure)
            .http_only(record.http_only)
            .build(),
    );
}

/// The contents after the candidates that `criterion` keeps have been
/// put into `contents` one by one, in order: a later cookie replaces an
/// earlier one of the same name.
pub open spec fn merged(
    contents: Map<Seq<char>, CookieModel>,
    criterion: FilterCriterion,
    candidates: Seq<CookieModel>,
) -> Map<Seq<char>, CookieModel>
    decreases candidates.len(),
{
    if candidates.len() == 0 {
        contents
    } else {
        let before = merged(contents, criterion, candidates.drop_last());
        let cookie = candidates.last();
        if criterion.accepts(cookie) {
            before.insert(cookie.name, cookie)
        } else {
            before
        }
    }
}

/// Puts a copy of every record that the criterion keeps into the jar,
/// in order.
pub fn merge_matching(jar: &mut CookieJar, criterion: &FilterCriterion, records: &Vec<CookieRecord>)
    ensures
        jar_contents(*final(jar)) == merged(jar_contents(*old(jar)), *criterion, models(records@)),
{
    let ghost all = models(records@);
    let mut i: usize = 0;
    while i < records.len()
        invariant
            i <= records@.len(),
            all == models(records@),
            jar_contents(*jar) == merged(jar_contents(*old(jar)), *criterion, all.take(i as int)),
        decreases records@.len() - i,
    {
        proof {
            assert(all.take(i + 1).drop_last() =~= all.take(i as int));
            assert(all.take(i + 1).last() == records@[i as int]@);
        }
        if criterion.matches(&records[i]) {
            jar_add(jar, records[i].duplicate());
        }
        i += 1;
    }
    proof {
        assert(all.take(i as int) =~= all);
    }
}

} // verus!
