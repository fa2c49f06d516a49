//! Filter criteria: a cookie attribute and the pattern it has to match.
use crate::record::{CookieModel, CookieRecord};
use regex::Regex;
use vstd::prelude::*;

verus! {

/// A compiled regular expression of the `regex` crate.
#[verifier::external_type_specification]
#[verifier::external_body]
pub struct ExRegex(Regex);

/// Whether `regex` finds a match anywhere in `text`.
pub uninterp spec fn regex_matches(regex: Regex, text: Seq<char>) -> bool;

/// Calls `Regex::is_match`, which reports whether the pattern matches
/// somewhere in the haystack. The contract claims only that the answer is
/// a function of the compiled pattern and the text.
#[verifier::external_body]
fn regex_is_match(regex: &Regex, text: &str) -> (found: bool)
    ensures
        found == regex_matches(*regex, text@),
{
    regex.is_match(text)
}

/// The cookie field that a pattern is evaluated against.
#[derive(Clone, Copy, Debug, PartialEq, Eq, Structural)]
pub enum Attribute {
    Name,
    Value,
    Domain,
    Path,
}

impl Attribute {
    /// The field of `cookie` that this attribute selects.
    pub open spec fn field(self, cookie: CookieModel) -> Seq<char> {
        match self {
            Attribute::Name => cookie.name,
            Attribute::Value => cookie.value,
            Attribute::Domain => cookie.domain,
            Attribute::Path => cookie.path,
        }
    }
}

/// A pattern together with the attribute it is evaluated against.
pub struct FilterCriterion {
    pub regex: Regex,
    pub attribute: Attribute,
}

impl FilterCriterion {
    /// Whether the criterion keeps `cookie`: its pattern matches the
    /// selected field.
    pub open spec fn accepts(&self, cookie: CookieModel) -> bool {
        regex_matches(self.regex, self.attribute.field(cookie))
    }

    /// Whether the criterion keeps every cookie of `cookies`.
    pub open spec fn accepts_all(&self, cookies: Seq<CookieModel>) -> bool {
        forall|i: int| 0 <= i < cookies.len() ==> self.accepts(#[trigger] cookies[i])
    }

    /// A criterion from its parts.
    pub fn new(regex: Regex, attribute: Attribute) -> (criterion: FilterCriterion)
        ensures
            criterion.regex == regex,
            criterion.attribute == attribute,
    {
        FilterCriterion { regex, attribute }
    }

    /// Tests one candidate against the criterion.
    pub fn matches(&self, record: &CookieRecord) -> (kept: bool)
        ensures
            kept == self.accepts(record@),
    {
        match self.attribute {
            Attribute::Name => regex_is_match(&self.regex, record.name.as_str()),
            Attribute::Value => regex_is_match(&self.regex, record.value.as_str()),
            Attribute::Domain => regex_is_match(&self.regex, record.domain.as_str()),
            Attribute::Path => regex_is_match(&self.regex, record.path.as_str()),
        }
    }
}

} // verus!
