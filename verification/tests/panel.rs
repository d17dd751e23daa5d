use rbridger::panel::{
    afk_text, button_text, config_tab_text, parse_port, status, status_text, Config, Flags, Panel,
    Press, SaveStep, Status, Tab, Tracker, TrackingSource,
};
use rbridger::settings::{AppSettings, SettingsPage};

fn panel() -> Panel {
    Panel::new(Config::default(), false)
}

#[test]
fn first_start() {
    let p = panel();
    assert_eq!(p.tab, Tab::Bridge);
    assert_eq!(p.source, TrackingSource::IPhone);
    assert_eq!(p.expr_app_port, "9140");
    assert_eq!(p.transform_path, "");
    assert_eq!(p.phone_ip, "");
    assert_eq!(p.webcam_index, 0);
    assert!(!p.mirror && !p.afk_mode && !p.show_preview);
    assert!(Config::load(None).ip.is_none());
    assert_eq!(Config::path("/d"), "/d/ui-cfg.json");
}

#[test]
fn tabs_by_name() {
    for (name, tab) in [
        ("config", Tab::Config),
        ("settings", Tab::Settings),
        ("about", Tab::About),
        ("bridge", Tab::Bridge),
        ("Config", Tab::Bridge),
    ] {
        let cfg = Config { start_tab: Some(name.to_string()), ..Config::default() };
        assert_eq!(Panel::new(cfg, false).tab, tab);
    }
}

#[test]
fn expression_app_needs_windows() {
    let cfg = || Config { source: Some(TrackingSource::ExprApp), ..Config::default() };
    assert_eq!(Panel::new(cfg(), false).source, TrackingSource::IPhone);
    assert_eq!(Panel::new(cfg(), true).source, TrackingSource::ExprApp);
}

#[test]
fn what_is_remembered_is_restored() {
    let mut p = panel();
    p.transform_path = "/a.json".to_string();
    p.phone_ip = "10.0.0.2".to_string();
    p.source = TrackingSource::Webcam;
    p.expr_app_port = "8080".to_string();
    p.webcam_index = 3;
    p.mirror = true;
    p.afk_mode = true;
    p.save_config();
    let q = Panel::new(Config::load(Some(p.cfg)), false);
    assert_eq!(q.transform_path, "/a.json");
    assert_eq!(q.phone_ip, "10.0.0.2");
    assert_eq!(q.source, TrackingSource::Webcam);
    assert_eq!(q.expr_app_port, "8080");
    assert_eq!(q.webcam_index, 3);
    assert!(q.mirror && q.afk_mode);
}

#[test]
fn a_bad_port_is_not_remembered() {
    let mut p = panel();
    p.expr_app_port = "port".to_string();
    p.save_config();
    assert_eq!(p.cfg.expr_app_port, None);
    assert_eq!(parse_port("65536"), None);
    assert_eq!(parse_port("0"), Some(0));
}

#[test]
fn when_it_can_connect() {
    let mut p = panel();
    assert!(!p.can_connect(true));
    p.transform_path = "/a.json".to_string();
    assert!(!p.can_connect(true));
    p.phone_ip = "10.0.0.2".to_string();
    assert!(p.can_connect(false));
    p.source = TrackingSource::ExprApp;
    assert!(p.can_connect(false));
    p.expr_app_port = "x".to_string();
    assert!(!p.can_connect(false));
    p.source = TrackingSource::Webcam;
    assert!(p.can_connect(true));
    assert!(!p.can_connect(false));
}

#[test]
fn what_the_button_does() {
    let mut p = panel();
    assert_eq!(p.press(true, false), Press::Disconnect);
    assert_eq!(p.press(false, false), Press::Nothing);
    p.transform_path = "/a.json".to_string();
    p.phone_ip = "10.0.0.2".to_string();
    assert_eq!(p.press(false, false), Press::Connect);
    assert_eq!(p.press(true, false), Press::Disconnect);
}

#[test]
fn connections() {
    let mut page = SettingsPage::new(AppSettings::default());
    page.draft.vts_port = 1;
    page.draft.afk_timeout_secs = 1;
    page.settings.vts_port = 8123;
    page.settings.afk_timeout_secs = 7;
    let mut p = panel();
    p.transform_path = "/a.json".to_string();
    p.phone_ip = "10.0.0.2".to_string();
    p.mirror = true;
    p.afk_mode = true;
    let c = p.connect(false, &page);
    assert_eq!(c.flags, Flags { active: true, vts_connected: false });
    assert!(matches!(c.tracker, Tracker::Phone(ip) if ip == "10.0.0.2"));
    assert_eq!(c.vts_port, 8123);
    assert_eq!(c.transform_path, "/a.json");
    assert!(c.mirror && c.afk.enabled);
    assert_eq!(c.afk.timeout_secs, 7);
    p.source = TrackingSource::ExprApp;
    assert!(matches!(p.connect(false, &page).tracker, Tracker::ExprApp(9140)));
    p.expr_app_port = "9".to_string();
    assert!(matches!(p.connect(false, &page).tracker, Tracker::ExprApp(9)));
    p.expr_app_port = "x".to_string();
    assert!(matches!(p.connect(false, &page).tracker, Tracker::ExprApp(9140)));
    p.source = TrackingSource::Webcam;
    p.webcam_index = 2;
    assert!(matches!(p.connect(false, &page).tracker, Tracker::Unavailable));
    assert!(!p.show_preview);
    assert!(matches!(p.connect(true, &page).tracker, Tracker::Webcam(2)));
    assert!(p.show_preview);
}

#[test]
fn flags_of_a_connection() {
    assert_eq!(Flags::disconnected(), Flags { active: false, vts_connected: false });
    let given_up = Flags { active: false, vts_connected: true };
    assert_eq!(given_up.noted(), Flags::disconnected());
    let flowing = Flags { active: true, vts_connected: true };
    assert_eq!(flowing.noted(), flowing);
}

#[test]
fn configs_are_chosen() {
    let mut p = panel();
    p.phone_ip = "10.0.0.2".to_string();
    p.choose_config("/a.json");
    assert_eq!(p.transform_path, "/a.json");
    assert_eq!(p.cfg.transform_path.as_deref(), Some("/a.json"));
    assert_eq!(p.cfg.ip, None);
    p.browse("/b.json");
    assert_eq!(p.transform_path, "/b.json");
    assert_eq!(p.cfg.transform_path.as_deref(), Some("/b.json"));
    assert_eq!(p.cfg.ip.as_deref(), Some("10.0.0.2"));
}

#[test]
fn sources_are_chosen_while_it_does_not_run() {
    let mut p = panel();
    assert!(!p.choose_source(TrackingSource::Webcam, true));
    assert_eq!(p.source, TrackingSource::IPhone);
    assert!(p.choose_source(TrackingSource::Webcam, false));
    assert_eq!(p.source, TrackingSource::Webcam);
}

#[test]
fn cameras() {
    let mut p = panel();
    p.webcam_index = 1;
    assert_eq!(p.selected_camera(), "Camera 1");
    p.webcam_cameras = vec![(0, "Front".to_string()), (1, "Back".to_string()), (1, "Other".to_string())];
    assert_eq!(p.selected_camera(), "Back");
    assert!(p.type_webcam_index("12"));
    assert_eq!(p.selected_camera(), "Camera 12");
    assert!(!p.type_webcam_index("-1"));
    assert_eq!(p.webcam_index, 12);
}

#[test]
fn hints() {
    let mut p = panel();
    assert_eq!(p.hint(), "① Browse or paste a transform config path");
    p.transform_path = "/a.json".to_string();
    assert_eq!(p.hint(), "② Enter your iPhone's IP address");
    p.phone_ip = "10.0.0.2".to_string();
    assert_eq!(p.hint(), "③ Press Connect — make sure VTube Studio is open");
    p.source = TrackingSource::ExprApp;
    assert_eq!(p.hint(), "② Launch ExpressionApp.exe, then press Connect");
    p.source = TrackingSource::Webcam;
    assert_eq!(p.hint(), "② Select a camera, then press Connect");
}

#[test]
fn status_bar() {
    assert_eq!(status(false, true), Status::Disconnected);
    assert_eq!(status(false, false), Status::Disconnected);
    assert_eq!(status(true, false), Status::Connecting);
    assert_eq!(status(true, true), Status::Connected);
    assert_eq!(status_text(Status::Disconnected), "Disconnected");
    assert_eq!(status_text(Status::Connecting), "Connecting\u{2026}");
    assert_eq!(status_text(Status::Connected), "Connected");
}

#[test]
fn labels() {
    assert_eq!(button_text(true), "Disconnect");
    assert_eq!(button_text(false), "Connect");
    assert_eq!(config_tab_text(true), "Config ●");
    assert_eq!(config_tab_text(false), "Config");
    assert_eq!(afk_text(3), "Tell VTS face lost after 3 s away (Settings → AFK timeout)");
}

#[test]
fn saving_asks_for_a_path_where_there_is_none() {
    let mut p = panel();
    assert_eq!(p.press_save(), SaveStep::Ask);
    assert!(!p.answer_save(None));
    assert_eq!(p.transform_path, "");
    assert_eq!(p.cfg.transform_path, None);
    assert!(!p.answer_save(Some("")));
    assert!(p.answer_save(Some("/a.json")));
    assert_eq!(p.transform_path, "/a.json");
    assert_eq!(p.cfg.transform_path.as_deref(), Some("/a.json"));
    assert_eq!(p.cfg.mirror, None);
    assert_eq!(p.press_save(), SaveStep::Write);
}

#[test]
fn answers_to_questions_for_files() {
    let mut p = panel();
    p.phone_ip = "10.0.0.2".to_string();
    assert!(!p.answer_load(None));
    assert!(!p.answer_browse(None));
    assert_eq!(p.transform_path, "");
    assert!(p.answer_load(Some("/a.json")));
    assert_eq!(p.transform_path, "/a.json");
    assert_eq!(p.cfg.ip, None);
    assert!(p.answer_browse(Some("/b.json")));
    assert_eq!(p.cfg.transform_path.as_deref(), Some("/b.json"));
    assert_eq!(p.cfg.ip.as_deref(), Some("10.0.0.2"));
}
