//! Rows of the cookie database, as read by the caller.
use crate::filter::FilterCriterion;
use crate::jar::{jar_add, jar_contents, merged};
use crate::record::{CookieModel, CookieRecord};
use cookie::CookieJar;
use vstd::prelude::*;

verus! {

/// One row of the cookie table. `name`, `value` and `host` are always
/// there; the other columns only where the schema has them.
#[derive(Debug)]
pub struct StoreRow {
    pub name: String,
    pub value: String,
    pub host: String,
    pub path: Option<String>,
    pub secure: Option<bool>,
    pub http_only: Option<bool>,
}

impl StoreRow {
    /// The cookie that the row stands for: a missing path is `/`, a
    /// missing flag is `false`.
    pub open spec fn cookie(self) -> CookieModel {
        CookieModel {
            name: self.name@,
            value: self.value@,
            domain: self.host@,
            path: match self.path {
                Some(path) => path@,
                None => "/"@,
            },
            secure: match self.secure {
                Some(flag) => flag,
                None => false,
            },
            http_only: match self.http_only {
                Some(flag) => flag,
                None => false,
            },
        }
    }

    /// Makes the candidate that the row stands for.
    pub fn to_record(&self) -> (record: CookieRecord)
        ensures
            record@ == self.cookie(),
    {
        CookieRecord {
            name: self.name.clone(),
            value: self.value.clone(),
            domain: self.host.clone(),
            path: match &self.path {
                Some(path) => path.clone(),
                None => "/".to_owned(),
            },
            secure: match self.secure {
                Some(flag) => flag,
                None => false,
            },
            http_only: match self.http_only {
                Some(flag) => flag,
                None => false,
            },
        }
    }
}

/// The cookies that the rows stand for, in order.
pub open spec fn row_cookies(rows: Seq<StoreRow>) -> Seq<CookieModel> {
    Seq::new(rows.len(), |i: int| rows[i].cookie())
}

/// Loads the rows that the criterion keeps into the jar, in order.
pub fn load_from_sqlite(rows: &Vec<StoreRow>, jar: &mut CookieJar, criterion: &FilterCriterion)
    ensures
        jar_contents(*final(jar)) == merged(
            jar_contents(*old(jar)),
            *criterion,
            row_cookies(rows@),
        ),
{
    let ghost all = row_cookies(rows@);
    let mut i: usize = 0;
    while i < rows.len()
        invariant
            i <= rows@.len(),
            all == row_cookies(rows@),
            jar_contents(*jar) == merged(jar_contents(*old(jar)), *criterion, all.take(i as int)),
        decreases rows@.len() - i,
    {
        let record = rows[i].to_record();
        proof {
            assert(all.take(i + 1).drop_last() =~= all.take(i as int));
            assert(all.take(i + 1).last() == rows@[i as int].cookie());
        }
        if criterion.matches(&record) {
            jar_add(jar, record);
        }
        i += 1;
    }
    proof {
        assert(all.take(i as int) =~= all);
    }
}

} // verus!
