//! What the main window knows and decides: the tracking source, when it can connect, what it
//! remembers from one start to the next, and what it tells the user.
use crate::text::{
    decimal, decimal_text, law_decimal_round_trip, parse_unsigned, parsed_unsigned, same_text,
};
use crate::settings::{Choices, SettingsPage};
use crate::vtspc::AfkConfig;
use vstd::prelude::*;

verus! {

/// Where tracking data comes from.
#[derive(Clone, Copy, Debug, PartialEq, Eq, Structural)]
pub enum TrackingSource {
    IPhone,
    ExprApp,
    Webcam,
}

#[derive(Clone, Copy, Debug, PartialEq, Eq, Structural)]
pub enum Tab {
    Bridge,
    Config,
    Settings,
    About,
}

/// What is remembered from one start to the next; each part may be missing.
#[derive(Debug)]
pub struct Config {
    pub transform_path: Option<String>,
    pub ip: Option<String>,
    pub source: Option<TrackingSource>,
    pub expr_app_port: Option<u16>,
    pub webcam_index: Option<u32>,
    pub start_tab: Option<String>,
    pub mirror: Option<bool>,
    pub afk_mode: Option<bool>,
}

/// What a config says.
pub struct Memory {
    pub transform_path: Option<Seq<char>>,
    pub ip: Option<Seq<char>>,
    pub source: Option<TrackingSource>,
    pub expr_app_port: Option<u16>,
    pub webcam_index: Option<u32>,
    pub start_tab: Option<Seq<char>>,
    pub mirror: Option<bool>,
    pub afk_mode: Option<bool>,
}

pub open spec fn text_of(text: Option<String>) -> Option<Seq<char>> {
    match text {
        Some(text) => Some(text@),
        None => None,
    }
}

impl View for Config {
    type V = Memory;

    open spec fn view(&self) -> Memory {
        Memory {
            transform_path: text_of(self.transform_path),
            ip: text_of(self.ip),
            source: self.source,
            expr_app_port: self.expr_app_port,
            webcam_index: self.webcam_index,
            start_tab: text_of(self.start_tab),
            mirror: self.mirror,
            afk_mode: self.afk_mode,
        }
    }
}

/// Nothing is remembered.
pub open spec fn blank_memory() -> Memory {
    Memory {
        transform_path: None,
        ip: None,
        source: None,
        expr_app_port: None,
        webcam_index: None,
        start_tab: None,
        mirror: None,
        afk_mode: None,
    }
}

impl Default for Config {
    fn default() -> (config: Self)
        ensures
            config@ == blank_memory(),
    {
        Config {
            transform_path: None,
            ip: None,
            source: None,
            expr_app_port: None,
            webcam_index: None,
            start_tab: None,
            mirror: None,
            afk_mode: None,
        }
    }
}

impl Config {
    /// The file that holds the config.
    pub fn path(dir: &str) -> (path: String)
        ensures
            path@ == dir@ + "/ui-cfg.json"@,
    {
        dir.to_owned().concat("/ui-cfg.json")
    }

    /// The config that was read, or a blank one where none could be.
    pub fn load(read: Option<Config>) -> (config: Config)
        ensures
            config@ == match read {
                Some(stored) => stored@,
                None => blank_memory(),
            },
    {
        match read {
            Some(stored) => stored,
            None => Config::default(),
        }
    }
}

/// Which tracker to start.
#[derive(Debug)]
pub enum Tracker {
    /// The phone at this address.
    Phone(String),
    /// The expression app that sends to this port.
    ExprApp(u16),
    /// The camera of this index.
    Webcam(u32),
    /// None, for want of webcam support.
    Unavailable,
}

/// The two flags that the window shares with the threads of a connection.
#[derive(Clone, Copy, Debug, PartialEq, Eq, Structural)]
pub struct Flags {
    /// Is a connection wanted?
    pub active: bool,
    /// Does tracking data flow into VTube Studio?
    pub vts_connected: bool,
}

impl Flags {
    /// The flags once the user has disconnected.
    pub fn disconnected() -> (flags: Flags)
        ensures
            flags == (Flags { active: false, vts_connected: false }),
    {
        Flags { active: false, vts_connected: false }
    }

    pub open spec fn spec_noted(self) -> Flags {
        Flags { active: self.active, vts_connected: self.active && self.vts_connected }
    }

    /// The flags as the window takes note of them: no data flows where no connection is wanted,
    /// such as after a tracker has given up.
    pub fn noted(self) -> (flags: Flags)
        ensures
            flags == self.spec_noted(),
    {
        Flags { active: self.active, vts_connected: self.active && self.vts_connected }
    }
}

/// What to start when the user connects.
#[derive(Debug)]
pub struct Connection {
    /// What the flags are set to before anything is started.
    pub flags: Flags,
    pub tracker: Tracker,
    /// The port of VTube Studio.
    pub vts_port: u16,
    /// The transform config.
    pub transform_path: String,
    pub mirror: bool,
    pub afk: AfkConfig,
}

/// What the button that connects and disconnects does.
#[derive(Clone, Copy, Debug, PartialEq, Eq, Structural)]
pub enum Press {
    Connect,
    Disconnect,
    Nothing,
}

/// What the button that saves the entries does.
#[derive(Clone, Copy, Debug, PartialEq, Eq, Structural)]
pub enum SaveStep {
    /// Ask for a path.
    Ask,
    /// Write the entries to the transform config.
    Write,
}

/// How the bridge stands.
#[derive(Clone, Copy, Debug, PartialEq, Eq, Structural)]
pub enum Status {
    /// Not running.
    Disconnected,
    /// Running, waiting for VTube Studio to accept the bridge.
    Connecting,
    /// Tracking data flows into VTube Studio.
    Connected,
}

/// The port that the expression app is expected to send to.
pub const EXPR_APP_PORT: u16 = 9140;

/// The state of the main window.
pub struct Panel {
    pub cfg: Config,
    pub tab: Tab,
    pub transform_path: String,
    pub phone_ip: String,
    pub source: TrackingSource,
    pub expr_app_port: String,
    pub webcam_index: u32,
    pub webcam_cameras: Vec<(u32, String)>,
    pub show_preview: bool,
    pub mirror: bool,
    pub afk_mode: bool,
}

/// The source to start with: the one remembered, as far as it exists on this system.
pub open spec fn initial_source(remembered: Option<TrackingSource>, windows: bool) -> TrackingSource {
    match remembered {
        Some(TrackingSource::ExprApp) if !windows => TrackingSource::IPhone,
        Some(source) => source,
        None => TrackingSource::IPhone,
    }
}

/// The tab of the given name; the bridge where the name is none.
pub open spec fn tab_named(name: Option<Seq<char>>) -> Tab {
    match name {
        Some(name) if name == "config"@ => Tab::Config,
        Some(name) if name == "settings"@ => Tab::Settings,
        Some(name) if name == "about"@ => Tab::About,
        _ => Tab::Bridge,
    }
}

pub open spec fn value_or<T>(value: Option<T>, default: T) -> T {
    match value {
        Some(value) => value,
        None => default,
    }
}

fn or_empty(text: &Option<String>) -> (t: String)
    ensures
        t@ == value_or(text_of(*text), Seq::empty()),
{
    match text {
        Some(text) => text.clone(),
        None => String::new(),
    }
}

fn tab_by_name(name: &Option<String>) -> (tab: Tab)
    ensures
        tab == tab_named(text_of(*name)),
{
    match name {
        Some(name) => if same_text(name.as_str(), "config") {
            Tab::Config
        } else if same_text(name.as_str(), "settings") {
            Tab::Settings
        } else if same_text(name.as_str(), "about") {
            Tab::About
        } else {
            Tab::Bridge
        },
        None => Tab::Bridge,
    }
}

/// The port that a text names, if it names one.
pub open spec fn port_of(text: Seq<char>) -> Option<u16> {
    match parsed_unsigned(text, u16::MAX as nat) {
        Some(port) => Some(port as u16),
        None => None,
    }
}

pub fn parse_port(text: &str) -> (port: Option<u16>)
    ensures
        port == port_of(text@),
{
    match parse_unsigned(text, u16::MAX as u32) {
        Some(port) => Some(port as u16),
        None => None,
    }
}

/// The name under which a camera is shown: that of the first in the list with its index, or its
/// index where the list does not have it.
pub open spec fn camera_name(cameras: Seq<(u32, String)>, index: u32) -> Seq<char>
    decreases cameras.len(),
{
    if cameras.len() == 0 {
        "Camera "@ + decimal(index as nat)
    } else if cameras.first().0 == index {
        cameras.first().1@
    } else {
        camera_name(cameras.drop_first(), index)
    }
}

impl Panel {
    /// Is this the window as it starts with what is remembered?
    pub open spec fn starts_with(self, memory: Memory, windows: bool) -> bool {
        &&& self.cfg@ == memory
        &&& self.tab == tab_named(memory.start_tab)
        &&& self.transform_path@ == value_or(memory.transform_path, Seq::empty())
        &&& self.phone_ip@ == value_or(memory.ip, Seq::empty())
        &&& self.source == initial_source(memory.source, windows)
        &&& self.expr_app_port@ == decimal(value_or(memory.expr_app_port, EXPR_APP_PORT) as nat)
        &&& self.webcam_index == value_or(memory.webcam_index, 0)
        &&& self.webcam_cameras@.len() == 0
        &&& !self.show_preview
        &&& self.mirror == value_or(memory.mirror, false)
        &&& self.afk_mode == value_or(memory.afk_mode, false)
    }

    /// The window as it starts, with what is remembered.
    pub fn new(cfg: Config, windows: bool) -> (panel: Panel)
        ensures
            panel.starts_with(cfg@, windows),
    {
        let source: TrackingSource = match cfg.source {
            Some(TrackingSource::ExprApp) => if windows {
                TrackingSource::ExprApp
            } else {
                TrackingSource::IPhone
            },
            Some(source) => source,
            None => TrackingSource::IPhone,
        };
        let port: u16 = match cfg.expr_app_port {
            Some(port) => port,
            None => EXPR_APP_PORT,
        };
        let webcam_index: u32 = match cfg.webcam_index {
            Some(index) => index,
            None => 0,
        };
        let mirror: bool = match cfg.mirror {
            Some(mirror) => mirror,
            None => false,
        };
        let afk_mode: bool = match cfg.afk_mode {
            Some(afk_mode) => afk_mode,
            None => false,
        };
        Panel {
            tab: tab_by_name(&cfg.start_tab),
            transform_path: or_empty(&cfg.transform_path),
            phone_ip: or_empty(&cfg.ip),
            source,
            expr_app_port: decimal_text(port as u64),
            webcam_index,
            webcam_cameras: Vec::new(),
            show_preview: false,
            mirror,
            afk_mode,
            cfg,
        }
    }

    /// What the config is to remember of the window. The tab to start with stays as it was.
    pub open spec fn remembered(self) -> Memory {
        Memory {
            transform_path: Some(self.transform_path@),
            ip: Some(self.phone_ip@),
            source: Some(self.source),
            expr_app_port: port_of(self.expr_app_port@),
            webcam_index: Some(self.webcam_index),
            start_tab: self.cfg@.start_tab,
            mirror: Some(self.mirror),
            afk_mode: Some(self.afk_mode),
        }
    }

    /// Remembers the state of the window.
    pub fn save_config(&mut self)
        ensures
            final(self).cfg@ == old(self).remembered(),
            *final(self) == (Panel { cfg: final(self).cfg, ..*old(self) }),
    {
        self.cfg.transform_path = Some(self.transform_path.clone());
        self.cfg.ip = Some(self.phone_ip.clone());
        self.cfg.source = Some(self.source);
        self.cfg.expr_app_port = parse_port(self.expr_app_port.as_str());
        self.cfg.webcam_index = Some(self.webcam_index);
        self.cfg.mirror = Some(self.mirror);
        self.cfg.afk_mode = Some(self.afk_mode);
    }

    /// Is all there that a connection needs? `webcam` says whether cameras are supported.
    pub open spec fn ready(self, webcam: bool) -> bool {
        &&& self.transform_path@.len() > 0
        &&& match self.source {
            TrackingSource::IPhone => self.phone_ip@.len() > 0,
            TrackingSource::ExprApp => port_of(self.expr_app_port@) is Some,
            TrackingSource::Webcam => webcam,
        }
    }

    pub fn can_connect(&self, webcam: bool) -> (yes: bool)
        ensures
            yes == self.ready(webcam),
    {
        if self.transform_path.as_str().is_empty() {
            return false;
        }
        match self.source {
            TrackingSource::IPhone => !self.phone_ip.as_str().is_empty(),
            TrackingSource::ExprApp => parse_port(self.expr_app_port.as_str()).is_some(),
            TrackingSource::Webcam => webcam,
        }
    }

    /// What the button does. It disconnects a bridge that is running, and else connects where all
    /// is there.
    pub fn press(&self, running: bool, webcam: bool) -> (press: Press)
        ensures
            press == if running {
                Press::Disconnect
            } else if self.ready(webcam) {
                Press::Connect
            } else {
                Press::Nothing
            },
    {
        if running {
            Press::Disconnect
        } else if self.can_connect(webcam) {
            Press::Connect
        } else {
            Press::Nothing
        }
    }

    /// The tracker of the source that is chosen.
    pub open spec fn tracker(self, webcam: bool) -> Tracker {
        match self.source {
            TrackingSource::IPhone => Tracker::Phone(self.phone_ip),
            TrackingSource::ExprApp => Tracker::ExprApp(
                value_or(port_of(self.expr_app_port@), EXPR_APP_PORT),
            ),
            TrackingSource::Webcam => if webcam {
                Tracker::Webcam(self.webcam_index)
            } else {
                Tracker::Unavailable
            },
        }
    }

    /// Is this what to start, with the settings in force?
    pub open spec fn starts(self, connection: Connection, webcam: bool, settings: Choices) -> bool {
        &&& connection.flags == (Flags { active: true, vts_connected: false })
        &&& connection.tracker == self.tracker(webcam)
        &&& connection.vts_port == settings.vts_port
        &&& connection.transform_path@ == self.transform_path@
        &&& connection.mirror == self.mirror
        &&& connection.afk == (AfkConfig {
            enabled: self.afk_mode,
            timeout_secs: settings.afk_timeout_secs,
        })
    }

    /// The window once a connection has been started: a camera is shown.
    pub open spec fn after_connect(self, webcam: bool) -> Panel {
        Panel {
            show_preview: self.show_preview || (self.source == TrackingSource::Webcam && webcam),
            ..self
        }
    }

    /// What to start for the source that is chosen, with the settings in force and not those of
    /// the draft. A camera is shown as it starts.
    pub fn connect(&mut self, webcam: bool, page: &SettingsPage) -> (connection: Connection)
        ensures
            old(self).starts(connection, webcam, page.settings@),
            *final(self) == old(self).after_connect(webcam),
    {
        let tracker: Tracker = match self.source {
            TrackingSource::IPhone => Tracker::Phone(self.phone_ip.clone()),
            TrackingSource::ExprApp => Tracker::ExprApp(
                match parse_port(self.expr_app_port.as_str()) {
                    Some(port) => port,
                    None => EXPR_APP_PORT,
                },
            ),
            TrackingSource::Webcam => if webcam {
                self.show_preview = true;
                Tracker::Webcam(self.webcam_index)
            } else {
                Tracker::Unavailable
            },
        };
        Connection {
            flags: Flags { active: true, vts_connected: false },
            tracker,
            vts_port: page.settings.vts_port,
            transform_path: self.transform_path.clone(),
            mirror: self.mirror,
            afk: AfkConfig {
                enabled: self.afk_mode,
                timeout_secs: page.settings.afk_timeout_secs,
            },
        }
    }

    /// Is `after` this window with the file as its transform config, and with this memory?
    pub open spec fn configured(self, after: Panel, path: Seq<char>, memory: Memory) -> bool {
        &&& after.transform_path@ == path
        &&& after.cfg@ == (Memory { transform_path: Some(path), ..memory })
        &&& after == (Panel { transform_path: after.transform_path, cfg: after.cfg, ..self })
    }

    /// Makes a file the transform config, and remembers that and nothing else.
    pub fn choose_config(&mut self, path: &str)
        ensures
            old(self).configured(*final(self), path@, old(self).cfg@),
    {
        self.transform_path = path.to_owned();
        self.cfg.transform_path = Some(path.to_owned());
    }

    /// Makes a file the transform config, and remembers the state of the window.
    pub fn browse(&mut self, path: &str)
        ensures
            old(self).configured(*final(self), path@, old(self).remembered()),
    {
        self.transform_path = path.to_owned();
        self.save_config();
    }

    /// What a press on the button that saves the entries leads to: a path is asked for where there
    /// is none.
    pub fn press_save(&self) -> (step: SaveStep)
        ensures
            step == if self.transform_path@.len() == 0 {
                SaveStep::Ask
            } else {
                SaveStep::Write
            },
    {
        if self.transform_path.as_str().is_empty() {
            SaveStep::Ask
        } else {
            SaveStep::Write
        }
    }

    /// Takes the path that was asked for before saving, if one was given, as the transform config.
    /// Says whether the entries are to be written, which needs a path; a question that was
    /// cancelled changes nothing.
    pub fn answer_save(&mut self, answer: Option<&str>) -> (write: bool)
        ensures
            answer matches Some(path) ==> old(self).configured(
                *final(self),
                path@,
                old(self).cfg@,
            ),
            answer is None ==> *final(self) == *old(self),
            write == (final(self).transform_path@.len() > 0),
    {
        if let Some(path) = answer {
            self.choose_config(path);
        }
        !self.transform_path.as_str().is_empty()
    }

    /// Takes the path that was asked for before loading, if one was given, as the transform
    /// config. Says whether there is a file to load; a question that was cancelled changes nothing.
    pub fn answer_load(&mut self, answer: Option<&str>) -> (load: bool)
        ensures
            load == answer is Some,
            answer matches Some(path) ==> old(self).configured(
                *final(self),
                path@,
                old(self).cfg@,
            ),
            answer is None ==> *final(self) == *old(self),
    {
        match answer {
            Some(path) => {
                self.choose_config(path);
                true
            },
            None => false,
        }
    }

    /// Takes the path that was asked for on the bridge page, if one was given, as the transform
    /// config, and remembers the state of the window. Says whether there is a file to load; a
    /// question that was cancelled changes nothing.
    pub fn answer_browse(&mut self, answer: Option<&str>) -> (load: bool)
        ensures
            load == answer is Some,
            answer matches Some(path) ==> old(self).configured(
                *final(self),
                path@,
                old(self).remembered(),
            ),
            answer is None ==> *final(self) == *old(self),
    {
        match answer {
            Some(path) => {
                self.browse(path);
                true
            },
            None => false,
        }
    }

    /// Chooses a source, unless the bridge is running. Says whether there is a choice to remember.
    pub fn choose_source(&mut self, source: TrackingSource, running: bool) -> (chosen: bool)
        ensures
            chosen == !running,
            *final(self) == if running {
                *old(self)
            } else {
                Panel { source, ..*old(self) }
            },
    {
        if running {
            return false;
        }
        self.source = source;
        true
    }

    /// Takes over a camera index that is typed in; what is no index changes nothing. Says whether
    /// it was one.
    pub fn type_webcam_index(&mut self, text: &str) -> (taken: bool)
        ensures
            taken == parsed_unsigned(text@, u32::MAX as nat) is Some,
            taken ==> Some(final(self).webcam_index as nat) == parsed_unsigned(
                text@,
                u32::MAX as nat,
            ),
            *final(self) == (Panel {
                webcam_index: if taken {
                    final(self).webcam_index
                } else {
                    old(self).webcam_index
                },
                ..*old(self)
            }),
    {
        match parse_unsigned(text, u32::MAX) {
            Some(index) => {
                self.webcam_index = index;
                true
            },
            None => false,
        }
    }

    /// The name of the camera that is chosen.
    pub fn selected_camera(&self) -> (name: String)
        ensures
            name@ == camera_name(self.webcam_cameras@, self.webcam_index),
    {
        let n: usize = self.webcam_cameras.len();
        let mut i: usize = 0;
        assert(self.webcam_cameras@.skip(0) =~= self.webcam_cameras@);
        while i < n
            invariant
                i <= n,
                n == self.webcam_cameras@.len(),
                camera_name(self.webcam_cameras@, self.webcam_index) == camera_name(
                    self.webcam_cameras@.skip(i as int),
                    self.webcam_index,
                ),
            decreases n - i,
        {
            if self.webcam_cameras[i].0 == self.webcam_index {
                return self.webcam_cameras[i].1.clone();
            }
            assert(self.webcam_cameras@.skip(i as int).drop_first() =~= self.webcam_cameras@.skip(
                i + 1,
            ));
            i = i + 1;
        }
        "Camera ".to_owned().concat(decimal_text(self.webcam_index as u64).as_str())
    }

    /// What the user is told to do next while the bridge is not running.
    pub fn hint(&self) -> (hint: &'static str)
        ensures
            hint == if self.transform_path@.len() == 0 {
                "① Browse or paste a transform config path"
            } else {
                match self.source {
                    TrackingSource::IPhone => if self.phone_ip@.len() == 0 {
                        "② Enter your iPhone's IP address"
                    } else {
                        "③ Press Connect — make sure VTube Studio is open"
                    },
                    TrackingSource::ExprApp => "② Launch ExpressionApp.exe, then press Connect",
                    TrackingSource::Webcam => "② Select a camera, then press Connect",
                }
            },
    {
        if self.transform_path.as_str().is_empty() {
            "① Browse or paste a transform config path"
        } else {
            match self.source {
                TrackingSource::IPhone => if self.phone_ip.as_str().is_empty() {
                    "② Enter your iPhone's IP address"
                } else {
                    "③ Press Connect — make sure VTube Studio is open"
                },
                TrackingSource::ExprApp => "② Launch ExpressionApp.exe, then press Connect",
                TrackingSource::Webcam => "② Select a camera, then press Connect",
            }
        }
    }
}

/// How the bridge stands, given whether it is running and whether VTube Studio has accepted it.
pub fn status(running: bool, accepted: bool) -> (status: Status)
    ensures
        status == if !running {
            Status::Disconnected
        } else if accepted {
            Status::Connected
        } else {
            Status::Connecting
        },
{
    if !running {
        Status::Disconnected
    } else if accepted {
        Status::Connected
    } else {
        Status::Connecting
    }
}

/// The word for a status.
pub fn status_text(status: Status) -> (text: &'static str)
    ensures
        text == match status {
            Status::Disconnected => "Disconnected",
            Status::Connecting => "Connecting…",
            Status::Connected => "Connected",
        },
{
    match status {
        Status::Disconnected => "Disconnected",
        Status::Connecting => "Connecting…",
        Status::Connected => "Connected",
    }
}

/// The word on the button that connects and disconnects.
pub fn button_text(running: bool) -> (text: &'static str)
    ensures
        text == if running {
            "Disconnect"
        } else {
            "Connect"
        },
{
    if running {
        "Disconnect"
    } else {
        "Connect"
    }
}

/// The label of the config tab, which marks changes that have not been saved.
pub fn config_tab_text(dirty: bool) -> (text: &'static str)
    ensures
        text == if dirty {
            "Config ●"
        } else {
            "Config"
        },
{
    if dirty {
        "Config ●"
    } else {
        "Config"
    }
}

/// What AFK detection will do.
pub fn afk_text(timeout_secs: u32) -> (text: String)
    ensures
        text@ == "Tell VTS face lost after "@ + decimal(timeout_secs as nat)
            + " s away (Settings → AFK timeout)"@,
{
    "Tell VTS face lost after ".to_owned().concat(
        decimal_text(timeout_secs as u64).as_str(),
    ).concat(" s away (Settings → AFK timeout)")
}

/// A window that starts with what another one remembered shows the same: the path, the address,
/// the camera and both options, the port where it is one, and the source where this system has it.
pub proof fn law_config_is_restored(before: Panel, memory: Memory, windows: bool)
    requires
        memory == before.remembered(),
    ensures
        value_or(memory.transform_path, Seq::empty()) == before.transform_path@,
        value_or(memory.ip, Seq::empty()) == before.phone_ip@,
        value_or(memory.webcam_index, 0) == before.webcam_index,
        value_or(memory.mirror, false) == before.mirror,
        value_or(memory.afk_mode, false) == before.afk_mode,
        windows || before.source != TrackingSource::ExprApp ==> initial_source(
            memory.source,
            windows,
        ) == before.source,
        memory.start_tab == before.cfg@.start_tab,
        port_of(before.expr_app_port@) is Some ==> port_of(
            decimal(value_or(memory.expr_app_port, EXPR_APP_PORT) as nat),
        ) == port_of(before.expr_app_port@),
{
    law_decimal_round_trip(
        value_or(memory.expr_app_port, EXPR_APP_PORT) as nat,
        u16::MAX as nat,
    );
}

/// Off Windows no window starts with the expression app as its source.
pub proof fn law_expression_app_needs_windows(remembered: Option<TrackingSource>)
    ensures
        initial_source(remembered, false) != TrackingSource::ExprApp,
{
}

/// Every port is read back from its own digits, and what is read as a port is a number that is one.
pub proof fn law_ports_are_read(port: u16, text: Seq<char>)
    ensures
        port_of(decimal(port as nat)) == Some(port),
        port_of(text) matches Some(read) ==> parsed_unsigned(text, 0xffff) == Some(read as nat),
        port_of(text) is None ==> parsed_unsigned(text, 0xffff) is None,
{
    law_decimal_round_trip(port as nat, 0xffff);
}

/// A connection needs a config, and of the source that is chosen what that one needs: the phone an
/// address, the expression app a port, the webcam its support. What the other sources need plays
/// no part.
pub proof fn law_connection_needs(panel: Panel, webcam: bool)
    ensures
        panel.transform_path@.len() == 0 ==> !panel.ready(webcam),
        panel.transform_path@.len() > 0 ==> {
            &&& panel.source == TrackingSource::IPhone ==> (panel.ready(webcam) <==> panel.phone_ip@.len()
                > 0)
            &&& panel.source == TrackingSource::ExprApp ==> (panel.ready(webcam) <==> port_of(
                panel.expr_app_port@,
            ) is Some)
            &&& panel.source == TrackingSource::Webcam ==> (panel.ready(webcam) <==> webcam)
        },
{
}

/// What is remembered is what the window holds, part by part; the tab to start with stays.
pub proof fn law_window_is_remembered(panel: Panel)
    ensures
        panel.remembered().transform_path == Some(panel.transform_path@),
        panel.remembered().ip == Some(panel.phone_ip@),
        panel.remembered().source == Some(panel.source),
        panel.remembered().expr_app_port == port_of(panel.expr_app_port@),
        panel.remembered().webcam_index == Some(panel.webcam_index),
        panel.remembered().mirror == Some(panel.mirror),
        panel.remembered().afk_mode == Some(panel.afk_mode),
        panel.remembered().start_tab == panel.cfg@.start_tab,
{
}

/// What is there counts, and else what stands in for it.
pub proof fn law_value_counts_before_its_stand_in<T>(value: T, default: T)
    ensures
        value_or(Some(value), default) == value,
        value_or(None, default) == default,
{
}

/// A source that is remembered is the one to start with wherever the system has it.
pub proof fn law_remembered_source_is_kept(source: TrackingSource, windows: bool)
    ensures
        windows || source != TrackingSource::ExprApp ==> initial_source(Some(source), windows)
            == source,
        initial_source(None, windows) == TrackingSource::IPhone,
        initial_source(Some(TrackingSource::ExprApp), false) == TrackingSource::IPhone,
{
}

/// Three names lead to their tabs, and every other name to the bridge.
pub proof fn law_tabs_have_one_name(name: Seq<char>)
    ensures
        tab_named(Some(name)) == Tab::Config <==> name == "config"@,
        tab_named(Some(name)) == Tab::Settings <==> name == "settings"@,
        tab_named(Some(name)) == Tab::About <==> name == "about"@,
        tab_named(None) == Tab::Bridge,
{
    reveal_strlit("config");
    reveal_strlit("settings");
    reveal_strlit("about");
    assert("config"@.len() == 6 && "settings"@.len() == 8 && "about"@.len() == 5);
}

/// A camera is shown under the first name that the list has for its index, and under its index
/// where the list has none.
pub proof fn law_camera_has_its_first_name(cameras: Seq<(u32, String)>, index: u32, i: int)
    ensures
        0 <= i < cameras.len() && cameras[i].0 == index && (forall|j: int|
            0 <= j < i ==> (#[trigger] cameras[j]).0 != index) ==> camera_name(cameras, index)
            == cameras[i].1@,
        (forall|j: int| 0 <= j < cameras.len() ==> (#[trigger] cameras[j]).0 != index)
            ==> camera_name(cameras, index) == "Camera "@ + decimal(index as nat),
    decreases cameras.len(),
{
    if cameras.len() > 0 {
        let rest = cameras.drop_first();
        law_camera_has_its_first_name(rest, index, i - 1);
        assert(cameras[0] == cameras.first());
        if 0 < i < cameras.len() && cameras[i].0 == index && (forall|j: int|
            0 <= j < i ==> (#[trigger] cameras[j]).0 != index) {
            assert forall|j: int| 0 <= j < i - 1 implies (#[trigger] rest[j]).0 != index by {
                assert(cameras[j + 1].0 != index);
            }
        }
        if forall|j: int| 0 <= j < cameras.len() ==> (#[trigger] cameras[j]).0 != index {
            assert forall|j: int| 0 <= j < rest.len() implies (#[trigger] rest[j]).0 != index by {
                assert(cameras[j + 1].0 != index);
            }
        }
    }
}

/// A file that is chosen is the config from then on and is remembered as such; of the rest of the
/// window and of the memory nothing changes.
pub proof fn law_chosen_file_is_the_config(
    before: Panel,
    after: Panel,
    path: Seq<char>,
    memory: Memory,
)
    requires
        before.configured(after, path, memory),
    ensures
        after.transform_path@ == path,
        after.cfg@.transform_path == Some(path),
        after.cfg@.ip == memory.ip && after.cfg@.source == memory.source,
        after.cfg@.expr_app_port == memory.expr_app_port,
        after.cfg@.webcam_index == memory.webcam_index,
        after.cfg@.start_tab == memory.start_tab,
        after.cfg@.mirror == memory.mirror && after.cfg@.afk_mode == memory.afk_mode,
        after.tab == before.tab && after.phone_ip == before.phone_ip,
        after.source == before.source && after.expr_app_port == before.expr_app_port,
        after.webcam_index == before.webcam_index && after.webcam_cameras == before.webcam_cameras,
        after.show_preview == before.show_preview && after.mirror == before.mirror,
        after.afk_mode == before.afk_mode,
{
}

/// The model of a config says all that the config holds, and a blank one holds nothing.
pub proof fn law_memory_says_all(config: Config)
    ensures
        config.transform_path matches Some(path) ==> config@.transform_path == Some(path@),
        config.transform_path is None ==> config@.transform_path is None,
        config.ip matches Some(ip) ==> config@.ip == Some(ip@),
        config.ip is None ==> config@.ip is None,
        config.start_tab matches Some(tab) ==> config@.start_tab == Some(tab@),
        config.start_tab is None ==> config@.start_tab is None,
        config@.source == config.source && config@.expr_app_port == config.expr_app_port,
        config@.webcam_index == config.webcam_index && config@.mirror == config.mirror,
        config@.afk_mode == config.afk_mode,
        blank_memory().transform_path is None && blank_memory().ip is None,
        blank_memory().source is None && blank_memory().expr_app_port is None,
        blank_memory().webcam_index is None && blank_memory().start_tab is None,
        blank_memory().mirror is None && blank_memory().afk_mode is None,
{
}

/// A window that starts with what another one remembered holds what that one held, part by part; of
/// the port, what it was where it was one, and of the source, what this system has.
pub proof fn law_window_starts_as_it_was(before: Panel, after: Panel, windows: bool)
    requires
        after.starts_with(before.remembered(), windows),
    ensures
        after.transform_path@ == before.transform_path@,
        after.phone_ip@ == before.phone_ip@,
        after.webcam_index == before.webcam_index,
        after.mirror == before.mirror,
        after.afk_mode == before.afk_mode,
        windows || before.source != TrackingSource::ExprApp ==> after.source == before.source,
        port_of(before.expr_app_port@) is Some ==> port_of(after.expr_app_port@) == port_of(
            before.expr_app_port@,
        ),
        after.cfg@ == before.remembered(),
        !after.show_preview,
{
    law_config_is_restored(before, before.remembered(), windows);
}

/// A window that starts without memory is empty, tracks with the phone, and expects the expression
/// app at its usual port.
pub proof fn law_first_window_is_empty(panel: Panel, windows: bool)
    requires
        panel.starts_with(blank_memory(), windows),
    ensures
        panel.tab == Tab::Bridge,
        panel.transform_path@.len() == 0 && panel.phone_ip@.len() == 0,
        panel.source == TrackingSource::IPhone,
        port_of(panel.expr_app_port@) == Some(9140u16),
        panel.webcam_index == 0 && panel.webcam_cameras@.len() == 0,
        !panel.mirror && !panel.afk_mode && !panel.show_preview,
{
    law_ports_are_read(9140, panel.expr_app_port@);
}

/// A connection is what the window and the settings in force say: the tracker is that of the source
/// that is chosen, with what that source needs; port and time are those of the settings; config,
/// mirror mode and AFK detection are those of the window. It is wanted, and not shown as connected
/// yet. Of the window nothing changes but that a camera is shown.
pub proof fn law_connection_is_what_was_set(
    panel: Panel,
    connection: Connection,
    webcam: bool,
    settings: Choices,
)
    requires
        panel.starts(connection, webcam, settings),
    ensures
        connection.flags.active && !connection.flags.vts_connected,
        connection.vts_port == settings.vts_port,
        connection.afk.timeout_secs == settings.afk_timeout_secs,
        connection.afk.enabled == panel.afk_mode,
        connection.mirror == panel.mirror,
        connection.transform_path@ == panel.transform_path@,
        panel.source == TrackingSource::IPhone ==> connection.tracker == Tracker::Phone(
            panel.phone_ip,
        ),
        panel.source == TrackingSource::ExprApp ==> (match parsed_unsigned(
            panel.expr_app_port@,
            0xffff,
        ) {
            Some(port) => connection.tracker == Tracker::ExprApp(port as u16),
            None => connection.tracker == Tracker::ExprApp(9140),
        }),
        panel.source == TrackingSource::Webcam && webcam ==> connection.tracker == Tracker::Webcam(
            panel.webcam_index,
        ),
        panel.source == TrackingSource::Webcam && !webcam ==> connection.tracker
            is Unavailable,
        panel.after_connect(webcam) == (Panel {
            show_preview: panel.after_connect(webcam).show_preview,
            ..panel
        }),
        panel.after_connect(webcam).show_preview <==> panel.show_preview || (panel.source
            == TrackingSource::Webcam && webcam),
{
    law_ports_are_read(0, panel.expr_app_port@);
}

/// The window takes note of what the flags say, but that no data flows where no connection is
/// wanted; taking note again changes nothing.
pub proof fn law_flags_are_noted(flags: Flags)
    ensures
        flags.spec_noted().active == flags.active,
        flags.active ==> flags.spec_noted() == flags,
        !flags.active ==> !flags.spec_noted().vts_connected,
        flags.spec_noted().spec_noted() == flags.spec_noted(),
{
}

} // verus!
