use rbridger::settings::{files, theme_by_name, AppSettings, SettingsPage, Theme};

#[test]
fn defaults() {
    let s = AppSettings::default();
    assert_eq!(s.vts_port, 8001);
    assert!(!s.auto_reconnect);
    assert_eq!(s.reconnect_delay_secs, 3);
    assert_eq!(s.log_level, "info");
    assert_eq!(s.theme, "dark");
    assert_eq!(s.afk_timeout_secs, 3);
    assert!(AppSettings::load(None).same_as(&s));
}

#[test]
fn stored_settings_are_kept() {
    let mut s = AppSettings::default();
    s.vts_port = 9;
    assert_eq!(AppSettings::load(Some(s)).vts_port, 9);
}

#[test]
fn themes() {
    assert_eq!(theme_by_name("light"), Theme::Light);
    assert_eq!(theme_by_name("dark"), Theme::Dark);
    assert_eq!(theme_by_name("Light"), Theme::Dark);
}

#[test]
fn ports_are_typed_in() {
    let mut page = SettingsPage::new(AppSettings::default());
    page.type_port("9000");
    assert_eq!(page.draft.vts_port, 9000);
    page.type_port("70000");
    assert_eq!(page.draft.vts_port, 9000);
    page.type_port("x");
    assert_eq!(page.draft.vts_port, 9000);
    assert_eq!(page.settings.vts_port, 8001);
}

#[test]
fn settings_are_saved() {
    let mut page = SettingsPage::new(AppSettings::default());
    assert!(!page.can_save());
    assert!(!page.save());
    assert_eq!(page.status, "");
    page.draft.theme = "light".to_string();
    assert!(page.can_save());
    assert!(page.save());
    assert_eq!(page.settings.theme, "light");
    assert_eq!(page.status, "Saved");
    assert!(page.status_is_good());
    page.reset();
    assert_eq!(page.draft.theme, "dark");
    assert_eq!(page.settings.theme, "light");
    assert_eq!(page.status, "Reset to defaults (not saved)");
    assert!(!page.status_is_good());
}

#[test]
fn file_names() {
    assert_eq!(AppSettings::path("/d"), "/d/settings.json");
    let list = files("/d");
    assert_eq!(
        list,
        [
            ("App settings", "/d/settings.json".to_string()),
            ("UI config", "/d/ui-cfg.json".to_string()),
            ("Auth token", "/d/token".to_string()),
            ("Logs", "/d/log/log.log".to_string()),
        ]
    );
}
