//! A cookie as plain values, and its mathematical model.
use vstd::prelude::*;

verus! {

/// What a cookie is in contracts: its six fields as sequences and flags.
pub struct CookieModel {
    pub name: Seq<char>,
    pub value: Seq<char>,
    pub domain: Seq<char>,
    pub path: Seq<char>,
    pub secure: bool,
    pub http_only: bool,
}

/// One cookie read from a browser: a candidate for the jar.
#[derive(Debug)]
pub struct CookieRecord {
    pub name: String,
    pub value: String,
    pub domain: String,
    pub path: String,
    pub secure: bool,
    pub http_only: bool,
}

impl View for CookieRecord {
    type V = CookieModel;

    open spec fn view(&self) -> CookieModel {
        CookieModel {
            name: self.name@,
            value: self.value@,
            domain: self.domain@,
            path: self.path@,
            secure: self.secure,
            http_only: self.http_only,
        }
    }
}

impl CookieRecord {
    /// A copy of the record with the same fields.
    pub fn duplicate(&self) -> (copy: CookieRecord)
        ensures
            copy@ == self@,
    {
        CookieRecord {
            name: self.name.clone(),
            value: self.value.clone(),
            domain: self.domain.clone(),
            path: self.path.clone(),
            secure: self.secure,
            http_only: self.http_only,
        }
    }
}

/// The models of a run of records, in the same order.
pub open spec fn models(records: Seq<CookieRecord>) -> Seq<CookieModel> {
    Seq::new(records.len(), |i: int| records[i]@)
}

/// The set of names that occur among `cookies`.
pub open spec fn names(cookies: Seq<CookieModel>) -> Set<Seq<char>> {
    Set::new(|name: Seq<char>| exists|i: int| 0 <= i < cookies.len() && cookies[i].name == name)
}

} // verus!
