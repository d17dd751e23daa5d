use rbridger::update::{
    check_for_update, is_newer, newer_release, parse_ver, release_url, user_agent, UpdateCheck,
    UpdateInfo, UpdateNote,
};

#[test]
fn versions() {
    assert_eq!(parse_ver("1.2.3"), (1, 2, 3));
    assert_eq!(parse_ver("v1.2.3"), (1, 2, 3));
    assert_eq!(parse_ver("vv0.10"), (0, 10, 0));
    assert_eq!(parse_ver("2"), (2, 0, 0));
    assert_eq!(parse_ver(""), (0, 0, 0));
    assert_eq!(parse_ver("1.2.3-beta"), (1, 2, 0));
    assert_eq!(parse_ver("1.2.3.4"), (1, 2, 3));
    assert_eq!(parse_ver("v1.2.3.x.y"), (1, 2, 3));
    assert_eq!(parse_ver("a.b.7"), (0, 0, 7));
    assert_eq!(parse_ver("1..3"), (1, 0, 3));
    assert_eq!(parse_ver("4294967296.1.1"), (0, 1, 1));
}

#[test]
fn order_of_versions() {
    assert!(is_newer((1, 0, 0), (0, 9, 9)));
    assert!(is_newer((1, 2, 0), (1, 1, 9)));
    assert!(is_newer((1, 2, 4), (1, 2, 3)));
    assert!(!is_newer((1, 2, 3), (1, 2, 3)));
    assert!(!is_newer((1, 2, 3), (1, 10, 0)));
}

#[test]
fn newer_releases_are_offered() {
    let info = newer_release("v1.3.0", "https://page", "1.2.9").unwrap();
    assert_eq!(info.version, "1.3.0");
    assert_eq!(info.url, "https://page");
    assert!(newer_release("v1.3.0", "https://page", "1.3.0").is_none());
    assert!(newer_release("v1.3.0", "https://page", "v2.0.0").is_none());
}

#[test]
fn release_is_read_from_its_description() {
    let body = r#"{"tag_name":"v9.0.1","html_url":"https://example.org/r","other":1}"#;
    let info = check_for_update(body, "1.0.0").unwrap();
    assert_eq!(info.version, "9.0.1");
    assert_eq!(info.url, "https://example.org/r");
    assert!(check_for_update(body, "9.0.1").is_none());
    assert!(check_for_update(r#"{"tag_name":"v9.0.1"}"#, "1.0.0").is_none());
    assert!(check_for_update(r#"{"html_url":"x"}"#, "1.0.0").is_none());
    assert!(check_for_update(r#"{"tag_name":9,"html_url":"x"}"#, "1.0.0").is_none());
    assert!(check_for_update("not json", "1.0.0").is_none());
}

#[test]
fn where_and_how_releases_are_asked_for() {
    assert_eq!(release_url(), "https://api.github.com/repos/LakoMoor/RBridger/releases/latest");
    assert_eq!(user_agent("1.2.3"), "rbridger/1.2.3");
}

fn update(version: &str) -> Option<UpdateInfo> {
    Some(UpdateInfo { version: version.to_string(), url: "https://page".to_string() })
}

#[test]
fn search_that_finds_nothing_can_be_repeated() {
    let mut c = UpdateCheck::new();
    assert_eq!(c.note(), UpdateNote::Checking);
    assert!(!c.press_check());
    c.found(None);
    assert_eq!(c.note(), UpdateNote::Unknown);
    assert!(c.shown().is_none());
    c.press_release();
    assert!(!c.open);
    assert!(c.press_check());
    assert_eq!(c.note(), UpdateNote::Checking);
}

#[test]
fn update_is_told_of_and_stays_known() {
    let mut c = UpdateCheck::new();
    c.found(update("2.0.0"));
    assert_eq!(c.note(), UpdateNote::Available);
    assert_eq!(c.shown().unwrap().version, "2.0.0");
    assert!(!c.press_check());
    c.open = false;
    assert!(c.shown().is_none());
    c.press_release();
    assert_eq!(c.shown().unwrap().version, "2.0.0");
    c.open = false;
    c.found(None);
    assert!(!c.open);
    assert_eq!(c.known.as_ref().unwrap().version, "2.0.0");
}
