//! The cookie finder: browsers and filter criteria, assembled by a
//! builder, and the load that runs every criterion on every browser.
use crate::errors::{BrowsercookieError, ErrorKind};
use crate::filter::{Attribute, FilterCriterion};
use crate::firefox::{load, load_outcome, FirefoxSnapshot};
use crate::jar::{jar_contents, jar_new, no_cookies};
use crate::record::CookieModel;
use cookie::CookieJar;
use regex::Regex;
use vstd::prelude::*;

verus! {

/// All supported browsers.
#[non_exhaustive]
#[derive(Clone, Copy, Debug, PartialEq, Eq, Hash, Structural)]
pub enum Browser {
    Firefox,
}

/// Finds the cookies that match its criteria in its browsers.
pub struct CookieFinder {
    regex_and_attribute_pairs: Vec<FilterCriterion>,
    browsers: Vec<Browser>,
}

/// Assembles a `CookieFinder` step by step.
pub struct CookieFinderBuilder {
    cookie_finder: CookieFinder,
}

/// What loading one browser with one criterion makes of `contents`.
pub open spec fn browser_outcome(
    contents: Map<Seq<char>, CookieModel>,
    criterion: FilterCriterion,
    browser: Browser,
    firefox: FirefoxSnapshot,
) -> Result<Map<Seq<char>, CookieModel>, ErrorKind> {
    match browser {
        Browser::Firefox => load_outcome(contents, criterion, firefox),
    }
}

/// What loading `browsers[from..]` in order with one criterion makes of
/// `contents`; the first failure ends the run.
pub open spec fn browsers_outcome(
    contents: Map<Seq<char>, CookieModel>,
    criterion: FilterCriterion,
    browsers: Seq<Browser>,
    from: int,
    firefox: FirefoxSnapshot,
) -> Result<Map<Seq<char>, CookieModel>, ErrorKind>
    decreases browsers.len() - from,
{
    if from < 0 || from >= browsers.len() {
        Ok(contents)
    } else {
        match browser_outcome(contents, criterion, browsers[from], firefox) {
            Ok(next) => browsers_outcome(next, criterion, browsers, from + 1, firefox),
            Err(kind) => Err(kind),
        }
    }
}

/// What running `criteria[from..]` in order, each on every browser,
/// makes of `contents`; the first failure ends the run.
pub open spec fn find_outcome(
    contents: Map<Seq<char>, CookieModel>,
    criteria: Seq<FilterCriterion>,
    from: int,
    browsers: Seq<Browser>,
    firefox: FirefoxSnapshot,
) -> Result<Map<Seq<char>, CookieModel>, ErrorKind>
    decreases criteria.len() - from,
{
    if from < 0 || from >= criteria.len() {
        Ok(contents)
    } else {
        match browsers_outcome(contents, criteria[from], browsers, 0, firefox) {
            Ok(next) => find_outcome(next, criteria, from + 1, browsers, firefox),
            Err(kind) => Err(kind),
        }
    }
}

impl CookieFinder {
    #[verifier::type_invariant]
    spec fn distinct_browsers(self) -> bool {
        self.browsers@.no_duplicates()
    }

    /// The criteria, in the order in which they were given.
    pub closed spec fn criteria(self) -> Seq<FilterCriterion> {
        self.regex_and_attribute_pairs@
    }

    /// The browsers, in the order in which they were first given.
    pub closed spec fn browsers(self) -> Seq<Browser> {
        self.browsers@
    }

    /// A builder with no criterion and no browser.
    pub fn builder() -> (builder: CookieFinderBuilder)
        ensures
            builder.criteria().len() == 0,
            builder.browsers().len() == 0,
    {
        CookieFinderBuilder::default()
    }

    /// Runs every criterion on every browser and merges the cookies
    /// that are kept into one jar. Fails like the first load that
    /// fails.
    pub fn find(&self, firefox: &FirefoxSnapshot) -> (outcome: Result<CookieJar, BrowsercookieError>)
        ensures
            match find_outcome(no_cookies(), self.criteria(), 0, self.browsers(), *firefox) {
                Ok(contents) => outcome is Ok && jar_contents(outcome.unwrap()) == contents,
                Err(kind) => outcome is Err && outcome.unwrap_err().kind() == kind,
            },
    {
        let mut cookie_jar = jar_new();
        let ghost whole = find_outcome(
            no_cookies(),
            self.criteria(),
            0,
            self.browsers(),
            *firefox,
        );
        let mut i: usize = 0;
        while i < self.regex_and_attribute_pairs.len()
            invariant
                i <= self.criteria().len(),
                self.criteria() == self.regex_and_attribute_pairs@,
                whole == find_outcome(
                    no_cookies(),
                    self.criteria(),
                    0,
                    self.browsers(),
                    *firefox,
                ),
                self.browsers() == self.browsers@,
                whole == find_outcome(
                    jar_contents(cookie_jar),
                    self.criteria(),
                    i as int,
                    self.browsers(),
                    *firefox,
                ),
            decreases self.criteria().len() - i,
        {
            let criterion = &self.regex_and_attribute_pairs[i];
            let ghost round = browsers_outcome(
                jar_contents(cookie_jar),
                *criterion,
                self.browsers(),
                0,
                *firefox,
            );
            let mut k: usize = 0;
            while k < self.browsers.len()
                invariant
                    k <= self.browsers().len(),
                    self.browsers() == self.browsers@,
                    whole == find_outcome(
                        no_cookies(),
                        self.criteria(),
                        0,
                        self.browsers(),
                        *firefox,
                    ),
                    whole == match round {
                        Ok(next) => find_outcome(
                            next,
                            self.criteria(),
                            i + 1,
                            self.browsers(),
                            *firefox,
                        ),
                        Err(kind) => Err(kind),
                    },
                    round == browsers_outcome(
                        jar_contents(cookie_jar),
                        *criterion,
                        self.browsers(),
                        k as int,
                        *firefox,
                    ),
                decreases self.browsers().len() - k,
            {
                match self.browsers[k] {
                    Browser::Firefox => {
                        match load(&mut cookie_jar, criterion, firefox) {
                            Ok(()) => {},
                            Err(error) => {
                                return Err(error);
                            },
                        }
                    },
                }
                k += 1;
            }
            i += 1;
        }
        Ok(cookie_jar)
    }
}

impl Default for CookieFinder {
    /// A finder with no criterion and no browser.
    fn default() -> (finder: CookieFinder)
        ensures
            finder.criteria().len() == 0,
            finder.browsers().len() == 0,
    {
        CookieFinder { regex_and_attribute_pairs: Vec::new(), browsers: Vec::new() }
    }
}

impl Default for CookieFinderBuilder {
    /// A builder with no criterion and no browser.
    fn default() -> (builder: CookieFinderBuilder)
        ensures
            builder.criteria().len() == 0,
            builder.browsers().len() == 0,
    {
        CookieFinderBuilder { cookie_finder: CookieFinder::default() }
    }
}

impl CookieFinderBuilder {
    /// The criteria given so far.
    pub closed spec fn criteria(self) -> Seq<FilterCriterion> {
        self.cookie_finder.criteria()
    }

    /// The browsers given so far.
    pub closed spec fn browsers(self) -> Seq<Browser> {
        self.cookie_finder.browsers()
    }

    /// Adds a criterion: a pattern and the attribute it is evaluated
    /// against.
    pub fn with_regexp(self, regex: Regex, attribute: Attribute) -> (builder: Self)
        ensures
            builder.criteria() == self.criteria().push(FilterCriterion { regex, attribute }),
            builder.browsers() == self.browsers(),
    {
        proof {
            use_type_invariant(&self.cookie_finder);
        }
        let CookieFinder { regex_and_attribute_pairs: mut pairs, browsers } = self.cookie_finder;
        pairs.push(FilterCriterion { regex, attribute });
        CookieFinderBuilder {
            cookie_finder: CookieFinder { regex_and_attribute_pairs: pairs, browsers },
        }
    }

    /// Adds a browser, unless it was given before.
    pub fn with_browser(self, browser: Browser) -> (builder: Self)
        ensures
            builder.criteria() == self.criteria(),
            self.browsers().contains(browser) ==> builder.browsers() == self.browsers(),
            !self.browsers().contains(browser) ==> builder.browsers() == self.browsers().push(
                browser,
            ),
    {
        proof {
            use_type_invariant(&self.cookie_finder);
        }
        let CookieFinder { regex_and_attribute_pairs: pairs, mut browsers } = self.cookie_finder;
        let mut known = false;
        let mut i: usize = 0;
        while i < browsers.len()
            invariant
                i <= browsers@.len(),
                known == browsers@.take(i as int).contains(browser),
            decreases browsers@.len() - i,
        {
            proof {
                let seen = browsers@.take(i as int);
                let more = browsers@.take(i + 1);
                assert(more =~= seen.push(browsers@[i as int]));
                assert(more.contains(browser) == (seen.contains(browser) || browsers@[i as int]
                    == browser)) by {
                    if seen.contains(browser) {
                        let j = choose|j: int| 0 <= j < seen.len() && seen[j] == browser;
                        assert(more[j] == browser);
                    }
                    if browsers@[i as int] == browser {
                        assert(more[i as int] == browser);
                    }
                }
            }
            if browsers[i] == browser {
                known = true;
            }
            i += 1;
        }
        proof {
            assert(browsers@.take(i as int) =~= browsers@);
        }
        if !known {
            proof {
                let before = browsers@;
                assert(before.push(browser).no_duplicates()) by {
                    assert forall|a: int, b: int|
                        0 <= a < before.len() + 1 && 0 <= b < before.len() + 1 && a != b implies before.push(
                        browser,
                    )[a] != before.push(browser)[b] by {
                        if a < before.len() && b < before.len() {
                        } else if a < before.len() {
                            assert(before[a] != browser);
                        } else {
                            assert(before[b] != browser);
                        }
                    }
                }
            }
            browsers.push(browser);
        }
        CookieFinderBuilder {
            cookie_finder: CookieFinder { regex_and_attribute_pairs: pairs, browsers },
        }
    }

    /// The finder with the criteria and browsers given so far.
    pub fn build(self) -> (finder: CookieFinder)
        ensures
            finder.criteria() == self.criteria(),
            finder.browsers() == self.browsers(),
            finder.browsers().no_duplicates(),
    {
        proof {
            use_type_invariant(&self.cookie_finder);
        }
        self.cookie_finder
    }
}

} // verus!
