use browsercookie::errors::ErrorKind;
use browsercookie::filter::FilterCriterion;
use browsercookie::firefox::{load, FirefoxSnapshot, MasterProfile, ProfileSources};
use browsercookie::jar::merge_matching;
use browsercookie::profile::get_default_profile_path;
use browsercookie::record::CookieRecord;
use browsercookie::store::{load_from_sqlite, StoreRow};
use browsercookie::{Attribute, Browser, CookieFinder};
use cookie::CookieJar;
use regex::Regex;

const PROFILES: &str = "[General]
StartWithLastProfile=1

[Profile0]
Name=default
IsRelative=1
Path=Profiles/1qbuu7ux.default
Default=1
";

fn container(json: &str) -> Vec<u8> {
    let block = lz4::block::compress(json.as_bytes(), None, false).unwrap();
    let mut bytes = b"mozLz40\0".to_vec();
    bytes.extend_from_slice(&(json.len() as u32).to_le_bytes());
    bytes.extend_from_slice(&block);
    bytes
}

fn master() -> Option<MasterProfile> {
    Some(MasterProfile {
        path: String::from("/home/user/.mozilla/firefox/profiles.ini"),
        contents: String::from(PROFILES),
    })
}

fn snapshot(recovery: Option<Vec<u8>>, store: Option<Vec<StoreRow>>) -> FirefoxSnapshot {
    let master = master().unwrap();
    let profile = get_default_profile_path(&master.path, &master.contents).unwrap();
    FirefoxSnapshot {
        master: Some(master),
        sources: Some(ProfileSources { profile, recovery, store }),
    }
}

fn row(name: &str, value: &str, host: &str) -> StoreRow {
    StoreRow {
        name: name.to_string(),
        value: value.to_string(),
        host: host.to_string(),
        path: None,
        secure: None,
        http_only: None,
    }
}

fn record(name: &str, value: &str, domain: &str, path: &str) -> CookieRecord {
    CookieRecord {
        name: name.to_string(),
        value: value.to_string(),
        domain: domain.to_string(),
        path: path.to_string(),
        secure: false,
        http_only: false,
    }
}

fn criterion(pattern: &str, attribute: Attribute) -> FilterCriterion {
    FilterCriterion::new(Regex::new(pattern).unwrap(), attribute)
}

fn finder(pattern: &str, attribute: Attribute) -> CookieFinder {
    CookieFinder::builder()
        .with_regexp(Regex::new(pattern).unwrap(), attribute)
        .with_browser(Browser::Firefox)
        .build()
}

#[test]
fn test_sqlite_load() {
    let rows = vec![row("somename", "somevalue", "somehost")];
    let domain_re = Regex::new(".*").unwrap();
    let mut bcj = Box::new(CookieJar::new());
    load_from_sqlite(&rows, &mut bcj, &FilterCriterion::new(domain_re, Attribute::Domain));

    let cookie = bcj.get("somename").unwrap();

    assert_eq!(cookie.value(), "somevalue");
    assert_eq!(cookie.path(), Some("/"));
    assert_eq!(cookie.domain(), Some("somehost"));
}

#[test]
fn test_firefox() {
    let snapshot = snapshot(
        Some(container(
            r#"{"cookies":[{"host":"httpbin.org","value":"value","path":"/","name":"name"}]}"#,
        )),
        Some(vec![row("somename", "somevalue", "somehost")]),
    );
    let domain_regex = Regex::new(".*").unwrap();
    let cookies = CookieFinder::builder()
        .with_regexp(domain_regex, Attribute::Domain)
        .with_browser(Browser::Firefox)
        .build()
        .find(&snapshot)
        .unwrap();
    assert_eq!(cookies.iter().count(), 2);
    let recovery_cookie = cookies.get("name").unwrap();
    assert_eq!(recovery_cookie.value(), "value");
    assert_eq!(recovery_cookie.domain(), Some("httpbin.org"));
    assert_eq!(recovery_cookie.path(), Some("/"));

    let sqlite_cookie = cookies.get("somename").unwrap();

    assert_eq!(sqlite_cookie.value(), "somevalue");
    assert_eq!(sqlite_cookie.path(), Some("/"));
    assert_eq!(sqlite_cookie.domain(), Some("somehost"));
}

#[test]
fn recovery_and_database_are_merged() {
    let snapshot = snapshot(
        Some(container(
            r#"{"cookies":[{"host":"a.com","name":"n","value":"v","path":"/","secure":true,"httponly":true}]}"#,
        )),
        Some(vec![row("m", "w", "b.com")]),
    );
    let jar = finder(".*", Attribute::Domain).find(&snapshot).unwrap();
    assert_eq!(jar.iter().count(), 2);

    let n = jar.get("n").unwrap();
    assert_eq!(n.value(), "v");
    assert_eq!(n.domain(), Some("a.com"));
    assert_eq!(n.path(), Some("/"));
    assert_eq!(n.secure(), Some(true));
    assert_eq!(n.http_only(), Some(true));

    let m = jar.get("m").unwrap();
    assert_eq!(m.value(), "w");
    assert_eq!(m.domain(), Some("b.com"));
    assert_eq!(m.path(), Some("/"));
    assert_eq!(m.secure(), Some(false));
    assert_eq!(m.http_only(), Some(false));
}

#[test]
fn cookies_of_one_name_collapse() {
    let snapshot = snapshot(
        Some(container(
            r#"{"cookies":[
                {"host":"a.com","name":"shared","value":"recovery","path":"/"},
                {"host":"a.com","name":"only-recovery","value":"1","path":"/"},
                {"host":"b.com","name":"twice","value":"first","path":"/"},
                {"host":"c.com","name":"twice","value":"second","path":"/"}
            ]}"#,
        )),
        Some(vec![row("shared", "database", "z.com"), row("only-database", "2", "z.com")]),
    );
    let jar = finder(".*", Attribute::Domain).find(&snapshot).unwrap();
    assert_eq!(jar.iter().count(), 4);
    assert_eq!(jar.get("shared").unwrap().value(), "database");
    assert_eq!(jar.get("shared").unwrap().domain(), Some("z.com"));
    assert_eq!(jar.get("twice").unwrap().value(), "second");
    assert_eq!(jar.get("only-recovery").unwrap().value(), "1");
    assert_eq!(jar.get("only-database").unwrap().value(), "2");
}

#[test]
fn empty_database_leaves_the_recovery_cookies() {
    let snapshot = snapshot(
        Some(container(
            r#"{"cookies":[{"host":"a.com","name":"n","value":"v","path":"/x"}]}"#,
        )),
        Some(Vec::new()),
    );
    let mut jar = CookieJar::new();
    load(&mut jar, &criterion(".*", Attribute::Domain), &snapshot).unwrap();
    assert_eq!(jar.iter().count(), 1);
    assert_eq!(jar.get("n").unwrap().value(), "v");
    assert_eq!(jar.get("n").unwrap().path(), Some("/x"));
}

#[test]
fn one_unusable_source_is_tolerated() {
    let only_store = snapshot(
        None,
        Some(vec![row("m", "w", "b.com")]),
    );
    let jar = finder(".*", Attribute::Domain).find(&only_store).unwrap();
    assert_eq!(jar.iter().count(), 1);

    let broken_recovery = snapshot(
        Some(b"no recovery file".to_vec()),
        Some(vec![row("m", "w", "b.com")]),
    );
    let jar = finder(".*", Attribute::Domain).find(&broken_recovery).unwrap();
    assert_eq!(jar.iter().count(), 1);
    assert_eq!(jar.get("m").unwrap().value(), "w");

    let only_recovery = snapshot(
        Some(container(r#"{"cookies":[{"host":"a.com","name":"n","value":"v","path":"/"}]}"#)),
        None,
    );
    let jar = finder(".*", Attribute::Domain).find(&only_recovery).unwrap();
    assert_eq!(jar.iter().count(), 1);
    assert_eq!(jar.get("n").unwrap().value(), "v");
}

#[test]
fn no_usable_source_is_an_invalid_cookie_store() {
    let absent = snapshot(
        None,
        None,
    );
    let mut jar = CookieJar::new();
    let error = load(&mut jar, &criterion(".*", Attribute::Domain), &absent).unwrap_err();
    assert_eq!(error.kind(), ErrorKind::InvalidCookieStore);
    assert_eq!(jar.iter().count(), 0);

    let unreadable = snapshot(
        Some(b"mozLz40\0\x05\0\0\0garbage".to_vec()),
        None,
    );
    let error = finder(".*", Attribute::Domain).find(&unreadable).unwrap_err();
    assert_eq!(error.kind(), ErrorKind::InvalidCookieStore);
}

#[test]
fn sources_of_another_profile_are_not_used() {
    let mut elsewhere = snapshot(None, Some(vec![row("m", "w", "b.com")]));
    elsewhere.sources.as_mut().unwrap().profile = String::from("/somewhere/else");
    let error = finder(".*", Attribute::Domain).find(&elsewhere).unwrap_err();
    assert_eq!(error.kind(), ErrorKind::InvalidCookieStore);

    let unread = FirefoxSnapshot { master: master(), sources: None };
    let error = finder(".*", Attribute::Domain).find(&unread).unwrap_err();
    assert_eq!(error.kind(), ErrorKind::InvalidCookieStore);
}

#[test]
fn missing_master_configuration_is_a_missing_profile() {
    let mut snapshot = snapshot(None, Some(vec![row("m", "w", "b.com")]));
    snapshot.master = None;
    let error = finder(".*", Attribute::Domain).find(&snapshot).unwrap_err();
    assert_eq!(error.kind(), ErrorKind::ProfileMissing);
}

#[test]
fn unparsable_master_configuration_is_an_invalid_profile() {
    let mut snapshot = snapshot(None, Some(vec![row("m", "w", "b.com")]));
    snapshot.master = Some(MasterProfile {
        path: String::from("/cfg/profiles.ini"),
        contents: String::from("[Profile0\nPath=x\n"),
    });
    let error = finder(".*", Attribute::Domain).find(&snapshot).unwrap_err();
    assert_eq!(error.kind(), ErrorKind::InvalidProfile);
}

#[test]
fn finder_without_browser_or_criterion_finds_nothing() {
    let snapshot = FirefoxSnapshot { master: None, sources: None };
    let empty = CookieFinder::builder().build().find(&snapshot).unwrap();
    assert_eq!(empty.iter().count(), 0);
    let no_browser = CookieFinder::builder()
        .with_regexp(Regex::new(".*").unwrap(), Attribute::Domain)
        .build()
        .find(&snapshot)
        .unwrap();
    assert_eq!(no_browser.iter().count(), 0);
    let no_criterion =
        CookieFinder::builder().with_browser(Browser::Firefox).build().find(&snapshot).unwrap();
    assert_eq!(no_criterion.iter().count(), 0);
}

#[test]
fn each_criterion_contributes_its_own_cookies() {
    let snapshot = snapshot(
        None,
        Some(vec![
            row("session", "1", "a.example.org"),
            row("token", "2", "b.example.com"),
            row("other", "3", "c.example.net"),
        ]),
    );
    let jar = CookieFinder::builder()
        .with_regexp(Regex::new(r"\.org$").unwrap(), Attribute::Domain)
        .with_regexp(Regex::new("^tok").unwrap(), Attribute::Name)
        .with_browser(Browser::Firefox)
        .with_browser(Browser::Firefox)
        .build()
        .find(&snapshot)
        .unwrap();
    assert_eq!(jar.iter().count(), 2);
    assert!(jar.get("session").is_some());
    assert!(jar.get("token").is_some());
    assert!(jar.get("other").is_none());
}

#[test]
fn pattern_is_evaluated_against_the_chosen_attribute() {
    let r = record("sid", "abc123", "example.org", "/account");
    assert!(criterion("^sid$", Attribute::Name).matches(&r));
    assert!(!criterion("^sid$", Attribute::Value).matches(&r));
    assert!(criterion("^abc", Attribute::Value).matches(&r));
    assert!(!criterion("^abc", Attribute::Domain).matches(&r));
    assert!(criterion("example", Attribute::Domain).matches(&r));
    assert!(!criterion("example", Attribute::Path).matches(&r));
    assert!(criterion("^/account", Attribute::Path).matches(&r));
    assert!(!criterion("^/account", Attribute::Name).matches(&r));
}

#[test]
fn merging_keeps_the_last_cookie_of_a_name() {
    let mut jar = CookieJar::new();
    let records = vec![
        record("a", "1", "x.org", "/"),
        record("b", "2", "x.com", "/"),
        record("a", "3", "y.org", "/p"),
        record("c", "4", "z.com", "/"),
    ];
    merge_matching(&mut jar, &criterion(r"\.org$", Attribute::Domain), &records);
    assert_eq!(jar.iter().count(), 1);
    let a = jar.get("a").unwrap();
    assert_eq!(a.value(), "3");
    assert_eq!(a.domain(), Some("y.org"));
    assert_eq!(a.path(), Some("/p"));
}

#[test]
fn database_row_columns_are_used_when_present() {
    let rows = vec![StoreRow {
        name: "n".to_string(),
        value: "v".to_string(),
        host: "h.org".to_string(),
        path: Some("/deep".to_string()),
        secure: Some(true),
        http_only: Some(true),
    }];
    let record = rows[0].to_record();
    assert_eq!(record.path, "/deep");
    assert!(record.secure && record.http_only);
    let mut jar = CookieJar::new();
    load_from_sqlite(&rows, &mut jar, &criterion("^/deep$", Attribute::Path));
    let cookie = jar.get("n").unwrap();
    assert_eq!(cookie.path(), Some("/deep"));
    assert_eq!(cookie.secure(), Some(true));
    assert_eq!(cookie.http_only(), Some(true));

    let mut other = CookieJar::new();
    load_from_sqlite(&rows, &mut other, &criterion("^/$", Attribute::Path));
    assert_eq!(other.iter().count(), 0);
}
