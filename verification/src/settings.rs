//! The settings of the program.
use crate::text::{
    decimal, law_decimal_round_trip, parse_unsigned, parsed_unsigned, same_text, starts_with,
};
use vstd::prelude::*;

verus! {

/// What the user can set.
#[derive(Debug)]
pub struct AppSettings {
    pub vts_port: u16,
    pub auto_reconnect: bool,
    pub reconnect_delay_secs: u32,
    pub log_level: String,
    pub theme: String,
    pub afk_timeout_secs: u32,
}

/// What settings say.
pub struct Choices {
    pub vts_port: u16,
    pub auto_reconnect: bool,
    pub reconnect_delay_secs: u32,
    pub log_level: Seq<char>,
    pub theme: Seq<char>,
    pub afk_timeout_secs: u32,
}

impl View for AppSettings {
    type V = Choices;

    open spec fn view(&self) -> Choices {
        Choices {
            vts_port: self.vts_port,
            auto_reconnect: self.auto_reconnect,
            reconnect_delay_secs: self.reconnect_delay_secs,
            log_level: self.log_level@,
            theme: self.theme@,
            afk_timeout_secs: self.afk_timeout_secs,
        }
    }
}

/// What holds until something is set.
pub open spec fn default_choices() -> Choices {
    Choices {
        vts_port: 8001,
        auto_reconnect: false,
        reconnect_delay_secs: 3,
        log_level: "info"@,
        theme: "dark"@,
        afk_timeout_secs: 3,
    }
}

impl Default for AppSettings {
    fn default() -> (settings: Self)
        ensures
            settings@ == default_choices(),
    {
        AppSettings {
            vts_port: 8001,
            auto_reconnect: false,
            reconnect_delay_secs: 3,
            log_level: "info".to_owned(),
            theme: "dark".to_owned(),
            afk_timeout_secs: 3,
        }
    }
}

impl Clone for AppSettings {
    fn clone(&self) -> (copy: Self)
        ensures
            copy == *self,
    {
        AppSettings {
            vts_port: self.vts_port,
            auto_reconnect: self.auto_reconnect,
            reconnect_delay_secs: self.reconnect_delay_secs,
            log_level: self.log_level.clone(),
            theme: self.theme.clone(),
            afk_timeout_secs: self.afk_timeout_secs,
        }
    }
}

impl AppSettings {
    /// The file that holds the settings.
    pub fn path(dir: &str) -> (path: String)
        ensures
            path@ == dir@ + "/settings.json"@,
    {
        dir.to_owned().concat("/settings.json")
    }

    /// The settings that were read, or the defaults where none could be.
    pub fn load(read: Option<AppSettings>) -> (settings: AppSettings)
        ensures
            settings@ == match read {
                Some(stored) => stored@,
                None => default_choices(),
            },
    {
        match read {
            Some(stored) => stored,
            None => AppSettings::default(),
        }
    }

    /// Do the two say the same?
    pub fn same_as(&self, other: &AppSettings) -> (same: bool)
        ensures
            same == (self@ == other@),
    {
        self.vts_port == other.vts_port && self.auto_reconnect == other.auto_reconnect
            && self.reconnect_delay_secs == other.reconnect_delay_secs && self.log_level
            == other.log_level && self.theme == other.theme && self.afk_timeout_secs
            == other.afk_timeout_secs
    }
}

#[derive(Clone, Copy, Debug, PartialEq, Eq, Structural)]
pub enum Theme {
    Dark,
    Light,
}

/// The theme of the given name; every name but that of the light theme is dark.
pub fn theme_by_name(name: &str) -> (theme: Theme)
    ensures
        theme == if name@ == "light"@ {
            Theme::Light
        } else {
            Theme::Dark
        },
{
    if same_text(name, "light") {
        Theme::Light
    } else {
        Theme::Dark
    }
}

/// The settings in force, the draft that the user edits, and what was last said about them.
pub struct SettingsPage {
    pub settings: AppSettings,
    pub draft: AppSettings,
    pub status: String,
}

/// What the settings page shows.
pub struct Page {
    pub settings: Choices,
    pub draft: Choices,
    pub status: Seq<char>,
}

impl View for SettingsPage {
    type V = Page;

    open spec fn view(&self) -> Page {
        Page { settings: self.settings@, draft: self.draft@, status: self.status@ }
    }
}

impl Page {
    /// The page with the draft in force.
    pub open spec fn after_save(self) -> Page {
        if self.draft == self.settings {
            self
        } else {
            Page { settings: self.draft, status: "Saved"@, ..self }
        }
    }

    /// The page with the defaults in the draft.
    pub open spec fn after_reset(self) -> Page {
        Page { draft: default_choices(), status: "Reset to defaults (not saved)"@, ..self }
    }

    /// The page with the port of the draft as it was typed in.
    pub open spec fn after_port(self, text: Seq<char>) -> Page {
        match parsed_unsigned(text, u16::MAX as nat) {
            Some(port) => Page { draft: Choices { vts_port: port as u16, ..self.draft }, ..self },
            None => self,
        }
    }
}

impl SettingsPage {
    pub fn new(settings: AppSettings) -> (page: SettingsPage)
        ensures
            page@ == (Page {
                settings: settings@,
                draft: settings@,
                status: Seq::<char>::empty(),
            }),
    {
        let draft: AppSettings = settings.clone();
        SettingsPage { settings, draft, status: String::new() }
    }

    /// Takes over a port that is typed in; what is no port changes nothing.
    pub fn type_port(&mut self, text: &str)
        ensures
            final(self)@ == old(self)@.after_port(text@),
    {
        match parse_unsigned(text, u16::MAX as u32) {
            Some(port) => {
                self.draft.vts_port = port as u16;
            },
            None => {},
        }
    }

    /// Is there anything to save?
    pub fn can_save(&self) -> (yes: bool)
        ensures
            yes == (self.draft@ != self.settings@),
    {
        !self.draft.same_as(&self.settings)
    }

    /// Puts the draft in force. Says whether there was anything to save.
    pub fn save(&mut self) -> (saved: bool)
        ensures
            saved == (old(self).draft@ != old(self).settings@),
            final(self)@ == old(self)@.after_save(),
    {
        if !self.can_save() {
            return false;
        }
        self.settings = self.draft.clone();
        self.status = "Saved".to_owned();
        true
    }

    /// Puts the defaults into the draft.
    pub fn reset(&mut self)
        ensures
            final(self)@ == old(self)@.after_reset(),
    {
        self.draft = AppSettings::default();
        self.status = "Reset to defaults (not saved)".to_owned();
    }

    /// Does the status tell of settings that were saved?
    pub fn status_is_good(&self) -> (yes: bool)
        ensures
            yes == "Saved"@.is_prefix_of(self.status@),
    {
        starts_with(self.status.as_str(), "Saved")
    }
}

/// The files of the program, each with the label that it is listed under.
pub open spec fn listed_files(dir: Seq<char>) -> Seq<(Seq<char>, Seq<char>)> {
    seq![
        ("App settings"@, dir + "/settings.json"@),
        ("UI config"@, dir + "/ui-cfg.json"@),
        ("Auth token"@, dir + "/token"@),
        ("Logs"@, dir + "/log/log.log"@),
    ]
}

/// The files that the settings page lists.
pub fn files(dir: &str) -> (list: Vec<(&'static str, String)>)
    ensures
        list@.map_values(|file: (&'static str, String)| (file.0@, file.1@)) == listed_files(dir@),
{
    let mut list: Vec<(&'static str, String)> = Vec::new();
    list.push(("App settings", dir.to_owned().concat("/settings.json")));
    list.push(("UI config", dir.to_owned().concat("/ui-cfg.json")));
    list.push(("Auth token", dir.to_owned().concat("/token")));
    list.push(("Logs", dir.to_owned().concat("/log/log.log")));
    assert(list@.map_values(|file: (&'static str, String)| (file.0@, file.1@)) =~= listed_files(
        dir@,
    ));
    list
}

/// Settings that say the same are the same, setting by setting.
pub proof fn law_choices_say_all(a: AppSettings, b: AppSettings)
    ensures
        a@ == b@ <==> a.vts_port == b.vts_port && a.auto_reconnect == b.auto_reconnect
            && a.reconnect_delay_secs == b.reconnect_delay_secs && a.log_level@ == b.log_level@
            && a.theme@ == b.theme@ && a.afk_timeout_secs == b.afk_timeout_secs,
        a@.vts_port == a.vts_port && a@.auto_reconnect == a.auto_reconnect,
        a@.reconnect_delay_secs == a.reconnect_delay_secs && a@.log_level == a.log_level@,
        a@.theme == a.theme@ && a@.afk_timeout_secs == a.afk_timeout_secs,
{
}

/// Until something is set, VTube Studio is expected at its usual port.
pub proof fn law_default_choices()
    ensures
        default_choices().vts_port == 8001,
        !default_choices().auto_reconnect,
        default_choices().reconnect_delay_secs == 3,
        default_choices().log_level == "info"@,
        default_choices().theme == "dark"@,
        default_choices().afk_timeout_secs == 3,
{
}

/// The files stand in the directory of the program, wherever that is, under the same names and
/// labels.
pub proof fn law_files_stand_in_the_directory(a: Seq<char>, b: Seq<char>, i: int)
    requires
        0 <= i < 4,
    ensures
        listed_files(a).len() == 4,
        a.is_prefix_of(listed_files(a)[i].1),
        listed_files(a)[i].1.skip(a.len() as int) == listed_files(b)[i].1.skip(b.len() as int),
        listed_files(a)[i].0 == listed_files(b)[i].0,
        listed_files(a)[0].1 == a + "/settings.json"@,
        listed_files(a)[1].1 == a + "/ui-cfg.json"@,
{
    let names = seq!["/settings.json"@, "/ui-cfg.json"@, "/token"@, "/log/log.log"@];
    assert(listed_files(a)[i].1 == a + names[i]);
    assert(listed_files(b)[i].1 == b + names[i]);
    assert((a + names[i]).skip(a.len() as int) =~= names[i]);
    assert((b + names[i]).skip(b.len() as int) =~= names[i]);
    assert(a =~= (a + names[i]).subrange(0, a.len() as int));
}

/// Saving puts the draft in force, setting by setting, and leaves nothing to save; where there was
/// nothing to save it does nothing.
pub proof fn law_saving_puts_the_draft_in_force(page: Page)
    ensures
        page.after_save().settings == page.draft,
        page.after_save().draft == page.draft,
        page.draft != page.settings ==> page.after_save().status == "Saved"@,
        page.draft == page.settings ==> page.after_save() == page,
        page.after_save().after_save() == page.after_save(),
{
}

/// Resetting fills the draft with the defaults and leaves what is in force until it is saved.
pub proof fn law_reset_is_not_in_force_before_it_is_saved(page: Page)
    ensures
        page.after_reset().settings == page.settings,
        page.after_reset().draft == default_choices(),
        page.after_reset().after_save().settings == default_choices(),
{
}

/// A port that is typed in is the port of the draft; nothing else changes by it, and what is no
/// port changes nothing.
pub proof fn law_typed_port_is_taken(page: Page, port: u16, text: Seq<char>)
    ensures
        page.after_port(decimal(port as nat)) == (Page {
            draft: Choices { vts_port: port, ..page.draft },
            ..page
        }),
        parsed_unsigned(text, 0xffff) is None ==> page.after_port(text) == page,
        page.after_port(text).settings == page.settings,
{
    law_decimal_round_trip(port as nat, 0xffff);
}

/// The model of the settings page says all that it shows.
pub proof fn law_page_says_all(page: SettingsPage)
    ensures
        page@.settings == page.settings@,
        page@.draft == page.draft@,
        page@.status == page.status@,
{
}

} // verus!
