use browsercookie::errors::ErrorKind;
use browsercookie::profile::{
    choose_directory, cookie_store_path, get_default_profile_path, recovery_path, starts_with,
    IniSection,
};
use std::path::PathBuf;

const PROFILES: &str = "[General]
StartWithLastProfile=1

[Profile0]
Name=default
IsRelative=1
Path=Profiles/1qbuu7ux.default
Default=1
";

const PROFILES_WITH_INSTALL: &str = "[Install4F96D1932A9F858E]
Default=Profiles/dmjvfd1o.default-release
Locked=1

[Profile1]
Name=default
IsRelative=1
Path=Profiles/1qbuu7ux.default
Default=1

[Profile0]
Name=default-release
IsRelative=1
Path=Profiles/dmjvfd1o.default-release

[General]
StartWithLastProfile=1
Version=2
";

fn section(name: Option<&str>, entries: &[(&str, &str)]) -> IniSection {
    IniSection {
        name: name.map(String::from),
        entries: entries.iter().map(|(k, v)| (k.to_string(), v.to_string())).collect(),
    }
}

#[test]
fn test_master_profile() {
    let default_profile_path = get_default_profile_path("/home/user/.mozilla/firefox/profiles.ini", PROFILES)
        .expect("Failed to parse master firefox profile");

    assert!(PathBuf::from(default_profile_path).ends_with(PathBuf::from("Profiles/1qbuu7ux.default")));
}

#[test]
fn test_master_profile_with_install_section() {
    let default_profile_path =
        get_default_profile_path("/home/user/.mozilla/firefox/profiles.ini", PROFILES_WITH_INSTALL)
            .expect("Failed to parse master firefox profile");

    assert!(PathBuf::from(default_profile_path)
        .ends_with(PathBuf::from("Profiles/dmjvfd1o.default-release")));
}

#[test]
fn profile_path_is_below_the_configuration_directory() {
    let path = get_default_profile_path("/home/user/.mozilla/firefox/profiles.ini", PROFILES).unwrap();
    assert_eq!(
        PathBuf::from(path),
        PathBuf::from("/home/user/.mozilla/firefox/Profiles/1qbuu7ux.default")
    );
}

#[test]
fn install_section_wins_when_it_comes_last() {
    let text = "[Profile0]
Name=default
Path=Profiles/first.default
Default=1

[InstallABCDEF]
Default=Profiles/pinned.release
";
    let path = get_default_profile_path("/cfg/profiles.ini", text).unwrap();
    assert_eq!(PathBuf::from(path), PathBuf::from("/cfg/Profiles/pinned.release"));
}

#[test]
fn first_install_section_with_default_decides() {
    let sections = vec![
        section(Some("Profile0"), &[("Path", "a"), ("Default", "1")]),
        section(Some("Install1"), &[("Locked", "1")]),
        section(Some("Install2"), &[("Default", "second")]),
        section(Some("Install3"), &[("Default", "third")]),
    ];
    assert_eq!(choose_directory(&sections), Some(&String::from("second")));
}

#[test]
fn first_marked_section_decides_without_install_section() {
    let sections = vec![
        section(None, &[("Default", "1")]),
        section(Some("Profile0"), &[("Path", "no-default")]),
        section(Some("Profile1"), &[("Default", "1"), ("Path", "one")]),
        section(Some("Profile2"), &[("Default", "1"), ("Path", "two")]),
    ];
    assert_eq!(choose_directory(&sections), Some(&String::from("one")));
}

#[test]
fn section_named_like_install_needs_the_prefix() {
    let sections = vec![
        section(Some("MyInstall"), &[("Default", "wrong")]),
        section(Some("Instal"), &[("Default", "short")]),
        section(None, &[("Default", "general"), ("Path", "general-path")]),
    ];
    assert_eq!(choose_directory(&sections), Some(&String::from("general-path")));
}

#[test]
fn no_matching_section_gives_the_configuration_directory() {
    let text = "[General]
StartWithLastProfile=1

[Profile0]
Name=default
Path=Profiles/unmarked
";
    let path = get_default_profile_path("/cfg/firefox/profiles.ini", text).unwrap();
    assert_eq!(PathBuf::from(path), PathBuf::from("/cfg/firefox"));
    assert_eq!(choose_directory(&Vec::new()), None);
}

#[test]
fn first_value_of_a_repeated_key_is_read() {
    let s = section(Some("Profile0"), &[("Path", "one"), ("Default", "1"), ("Path", "two")]);
    assert_eq!(s.get("Path"), Some(&String::from("one")));
    assert_eq!(s.get("Missing"), None);
    assert_eq!(s.marked_directory(), Some(&String::from("one")));
    assert_eq!(s.pinned_directory(), None);
}

#[test]
fn unparsable_configuration_is_an_invalid_profile() {
    let error = get_default_profile_path("/cfg/profiles.ini", "[Profile0\nPath=x\n").unwrap_err();
    assert_eq!(error.kind(), ErrorKind::InvalidProfile);
}

#[test]
fn source_paths_lie_below_the_profile() {
    assert_eq!(
        PathBuf::from(recovery_path("/p/abc.default")),
        PathBuf::from("/p/abc.default/sessionstore-backups/recovery.jsonlz4")
    );
    assert_eq!(
        PathBuf::from(cookie_store_path("/p/abc.default")),
        PathBuf::from("/p/abc.default/cookies.sqlite")
    );
}

#[test]
fn prefix_test_compares_characters() {
    assert!(starts_with("Install4F96", "Install"));
    assert!(starts_with("Install", "Install"));
    assert!(starts_with("anything", ""));
    assert!(!starts_with("Instal", "Install"));
    assert!(!starts_with("install4F96", "Install"));
    assert!(!starts_with("", "Install"));
    assert!(starts_with("\u{e9}t\u{e9}", "\u{e9}t"));
}
