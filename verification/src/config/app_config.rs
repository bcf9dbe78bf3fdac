//! The configuration of the bridge: a file, over which the environment goes, over which
//! the command line goes.
use crate::cli;
use crate::text;
use vstd::prelude::*;
use vstd::string::*;

verus! {

// ---------------------------------------------------------------------------
// Types
// ---------------------------------------------------------------------------

/// The dongle on this machine.
#[derive(Debug, Clone, PartialEq, Eq)]
pub struct UsbConfig {
    /// A device path, or a word in its place (see `DongleChoice`).
    pub dongle: String,
}

/// The web panel.
#[derive(Debug, Clone, PartialEq, Eq)]
pub struct WebConfig {
    pub enabled: bool,
    pub port: u16,
}

/// The broker.
#[derive(Debug, Clone, PartialEq, Eq)]
pub struct MqttConfig {
    pub enabled: bool,
    pub host: Option<String>,
    pub port: u16,
    pub username: Option<String>,
    pub password: Option<String>,
    pub self_topic_root: String,
    pub hass_topic_root: String,
}

/// The log.
#[derive(Debug, Clone, PartialEq, Eq)]
pub struct LoggingConfig {
    pub level: String,
    /// A file that is rotated daily; the standard output without one.
    pub log_file: Option<String>,
    /// How many rotated files are kept.
    pub max_log_files: usize,
    pub no_ansi: bool,
}

/// Dongles on other machines.
#[derive(Debug, Clone, PartialEq, Eq)]
pub struct BridgeConfig {
    pub enabled: bool,
    /// The token that the other machine has to know.
    pub auth_token: Option<String>,
}

/// The configuration of the bridge.
#[derive(Debug, Clone, PartialEq, Eq)]
pub struct AppConfig {
    pub usb: UsbConfig,
    pub web: WebConfig,
    pub mqtt: MqttConfig,
    pub logging: LoggingConfig,
    pub bridge: BridgeConfig,
}

/// The model of the configuration.
pub struct AppView {
    pub dongle: Seq<char>,
    pub web_enabled: bool,
    pub web_port: u16,
    pub mqtt_enabled: bool,
    pub mqtt_host: Option<Seq<char>>,
    pub mqtt_port: u16,
    pub mqtt_username: Option<Seq<char>>,
    pub mqtt_password: Option<Seq<char>>,
    pub self_topic_root: Seq<char>,
    pub hass_topic_root: Seq<char>,
    pub log_level: Seq<char>,
    pub log_file: Option<Seq<char>>,
    pub max_log_files: usize,
    pub no_ansi: bool,
    pub bridge_enabled: bool,
    pub bridge_token: Option<Seq<char>>,
}

impl View for AppConfig {
    type V = AppView;

    open spec fn view(&self) -> AppView {
        AppView {
            dongle: self.usb.dongle@,
            web_enabled: self.web.enabled,
            web_port: self.web.port,
            mqtt_enabled: self.mqtt.enabled,
            mqtt_host: text::option_view(self.mqtt.host),
            mqtt_port: self.mqtt.port,
            mqtt_username: text::option_view(self.mqtt.username),
            mqtt_password: text::option_view(self.mqtt.password),
            self_topic_root: self.mqtt.self_topic_root@,
            hass_topic_root: self.mqtt.hass_topic_root@,
            log_level: self.logging.level@,
            log_file: text::option_view(self.logging.log_file),
            max_log_files: self.logging.max_log_files,
            no_ansi: self.logging.no_ansi,
            bridge_enabled: self.bridge.enabled,
            bridge_token: text::option_view(self.bridge.auth_token),
        }
    }
}

// ---------------------------------------------------------------------------
// Defaults
// ---------------------------------------------------------------------------

pub fn default_dongle() -> (r: String)
    ensures
        r@ == "auto"@,
{
    "auto".to_owned()
}

pub fn default_true() -> (r: bool)
    ensures
        r,
{
    true
}

pub fn default_false() -> (r: bool)
    ensures
        !r,
{
    false
}

pub fn default_web_port() -> (r: u16)
    ensures
        r == 8080,
{
    8080
}

pub fn default_mqtt_port() -> (r: u16)
    ensures
        r == 1883,
{
    1883
}

pub fn default_self_topic() -> (r: String)
    ensures
        r@ == "wyzesense2mqtt"@,
{
    "wyzesense2mqtt".to_owned()
}

pub fn default_hass_topic() -> (r: String)
    ensures
        r@ == "homeassistant"@,
{
    "homeassistant".to_owned()
}

pub fn default_log_level() -> (r: String)
    ensures
        r@ == "info"@,
{
    "info".to_owned()
}

pub fn default_max_log_files() -> (r: usize)
    ensures
        r == 7,
{
    7
}

impl Default for UsbConfig {
    fn default() -> (r: Self)
        ensures
            r.dongle@ == "auto"@,
    {
        UsbConfig { dongle: default_dongle() }
    }
}

impl Default for WebConfig {
    fn default() -> (r: Self)
        ensures
            r.enabled,
            r.port == 8080,
    {
        WebConfig { enabled: default_true(), port: default_web_port() }
    }
}

impl Default for MqttConfig {
    fn default() -> (r: Self)
        ensures
            !r.enabled,
            r.host is None,
            r.port == 1883,
            r.username is None,
            r.password is None,
            r.self_topic_root@ == "wyzesense2mqtt"@,
            r.hass_topic_root@ == "homeassistant"@,
    {
        MqttConfig {
            enabled: default_false(),
            host: None,
            port: default_mqtt_port(),
            username: None,
            password: None,
            self_topic_root: default_self_topic(),
            hass_topic_root: default_hass_topic(),
        }
    }
}

/// The user and the password, where both are set.
pub open spec fn login(user: Option<Seq<char>>, password: Option<Seq<char>>) -> Option<
    (Seq<char>, Seq<char>),
> {
    if user is Some && password is Some {
        Some((user->0, password->0))
    } else {
        None
    }
}

impl MqttConfig {
    /// The user and the password, where both are set.
    pub fn credentials(&self) -> (r: Option<(&str, &str)>)
        ensures
            match r {
                Some(c) => login(
                    text::option_view(self.username),
                    text::option_view(self.password),
                ) == Some((c.0@, c.1@)),
                None => login(
                    text::option_view(self.username),
                    text::option_view(self.password),
                ) is None,
            },
            match (self.username, self.password) {
                (Some(user), Some(pass)) => r matches Some(c) && c.0@ == user@ && c.1@ == pass@,
                _ => r is None,
            },
    {
        match (&self.username, &self.password) {
            (Some(user), Some(pass)) => Some((user.as_str(), pass.as_str())),
            _ => None,
        }
    }
}

impl Default for LoggingConfig {
    fn default() -> (r: Self)
        ensures
            r.level@ == "info"@,
            r.log_file is None,
            r.max_log_files == 7,
            !r.no_ansi,
    {
        LoggingConfig {
            level: default_log_level(),
            log_file: None,
            max_log_files: default_max_log_files(),
            no_ansi: false,
        }
    }
}

impl Default for BridgeConfig {
    fn default() -> (r: Self)
        ensures
            !r.enabled,
            r.auth_token is None,
    {
        BridgeConfig { enabled: false, auth_token: None }
    }
}

impl AppView {
    /// The configuration of one who says nothing.
    pub open spec fn plain() -> AppView {
        AppView {
            dongle: "auto"@,
            web_enabled: true,
            web_port: 8080,
            mqtt_enabled: false,
            mqtt_host: None,
            mqtt_port: 1883,
            mqtt_username: None,
            mqtt_password: None,
            self_topic_root: "wyzesense2mqtt"@,
            hass_topic_root: "homeassistant"@,
            log_level: "info"@,
            log_file: None,
            max_log_files: 7,
            no_ansi: false,
            bridge_enabled: false,
            bridge_token: None,
        }
    }
}

impl Default for AppConfig {
    fn default() -> (r: Self)
        ensures
            r@ == AppView::plain(),
    {
        AppConfig {
            usb: UsbConfig::default(),
            web: WebConfig::default(),
            mqtt: MqttConfig::default(),
            logging: LoggingConfig::default(),
            bridge: BridgeConfig::default(),
        }
    }
}

// ---------------------------------------------------------------------------
// Overrides
// ---------------------------------------------------------------------------

/// Texts that may take the place of settings, as they came from the environment or the
/// command line.
#[derive(Debug, PartialEq, Eq)]
pub struct Overrides {
    pub usb_dongle: Option<String>,
    pub web_enabled: Option<String>,
    pub web_port: Option<String>,
    pub mqtt_enabled: Option<String>,
    pub mqtt_host: Option<String>,
    pub mqtt_port: Option<String>,
    pub mqtt_username: Option<String>,
    pub mqtt_password: Option<String>,
    pub self_topic_root: Option<String>,
    pub hass_topic_root: Option<String>,
    pub log_level: Option<String>,
    pub no_ansi: Option<String>,
}

/// The model of overrides.
pub struct OverridesView {
    pub usb_dongle: Option<Seq<char>>,
    pub web_enabled: Option<Seq<char>>,
    pub web_port: Option<Seq<char>>,
    pub mqtt_enabled: Option<Seq<char>>,
    pub mqtt_host: Option<Seq<char>>,
    pub mqtt_port: Option<Seq<char>>,
    pub mqtt_username: Option<Seq<char>>,
    pub mqtt_password: Option<Seq<char>>,
    pub self_topic_root: Option<Seq<char>>,
    pub hass_topic_root: Option<Seq<char>>,
    pub log_level: Option<Seq<char>>,
    pub no_ansi: Option<Seq<char>>,
}

impl View for Overrides {
    type V = OverridesView;

    open spec fn view(&self) -> OverridesView {
        OverridesView {
            usb_dongle: text::option_view(self.usb_dongle),
            web_enabled: text::option_view(self.web_enabled),
            web_port: text::option_view(self.web_port),
            mqtt_enabled: text::option_view(self.mqtt_enabled),
            mqtt_host: text::option_view(self.mqtt_host),
            mqtt_port: text::option_view(self.mqtt_port),
            mqtt_username: text::option_view(self.mqtt_username),
            mqtt_password: text::option_view(self.mqtt_password),
            self_topic_root: text::option_view(self.self_topic_root),
            hass_topic_root: text::option_view(self.hass_topic_root),
            log_level: text::option_view(self.log_level),
            no_ansi: text::option_view(self.no_ansi),
        }
    }
}

/// A text in the place of another.
pub open spec fn text_over(o: Option<Seq<char>>, current: Seq<char>) -> Seq<char> {
    match o {
        Some(s) => s,
        None => current,
    }
}

/// A text in the place of one that may be missing.
pub open spec fn option_over(o: Option<Seq<char>>, current: Option<Seq<char>>) -> Option<
    Seq<char>,
> {
    match o {
        Some(s) => Some(s),
        None => current,
    }
}

/// A flag in the place of another; a text that is no flag changes nothing.
pub open spec fn flag_over(o: Option<Seq<char>>, current: bool) -> bool {
    match o {
        Some(s) => match text::bool_value(s) {
            Some(b) => b,
            None => current,
        },
        None => current,
    }
}

/// A port in the place of another; a text that is no port changes nothing.
pub open spec fn port_over(o: Option<Seq<char>>, current: u16) -> u16 {
    match o {
        Some(s) => match text::decimal_value(s) {
            Some(n) => if n <= 65535 {
                n as u16
            } else {
                current
            },
            None => current,
        },
        None => current,
    }
}

impl AppView {
    /// The configuration under overrides. A broker that is named is used.
    pub open spec fn under(self, o: OverridesView) -> AppView {
        let host = option_over(o.mqtt_host, self.mqtt_host);
        AppView {
            dongle: text_over(o.usb_dongle, self.dongle),
            web_enabled: flag_over(o.web_enabled, self.web_enabled),
            web_port: port_over(o.web_port, self.web_port),
            mqtt_enabled: host is Some || flag_over(o.mqtt_enabled, self.mqtt_enabled),
            mqtt_host: host,
            mqtt_port: port_over(o.mqtt_port, self.mqtt_port),
            mqtt_username: option_over(o.mqtt_username, self.mqtt_username),
            mqtt_password: option_over(o.mqtt_password, self.mqtt_password),
            self_topic_root: text_over(o.self_topic_root, self.self_topic_root),
            hass_topic_root: text_over(o.hass_topic_root, self.hass_topic_root),
            log_level: text_over(o.log_level, self.log_level),
            no_ansi: flag_over(o.no_ansi, self.no_ansi),
            ..self
        }
    }
}

fn put_text(o: &Option<String>, current: String) -> (r: String)
    ensures
        r@ == text_over(text::option_view(*o), current@),
{
    match o {
        Some(s) => s.clone(),
        None => current,
    }
}

fn put_option(o: &Option<String>, current: Option<String>) -> (r: Option<String>)
    ensures
        text::option_view(r) == option_over(text::option_view(*o), text::option_view(current)),
{
    match o {
        Some(s) => Some(s.clone()),
        None => current,
    }
}

fn put_flag(o: &Option<String>, current: bool) -> (r: bool)
    ensures
        r == flag_over(text::option_view(*o), current),
{
    match o {
        Some(s) => match text::parse_bool(s.as_str()) {
            Some(b) => b,
            None => current,
        },
        None => current,
    }
}

fn put_port(o: &Option<String>, current: u16) -> (r: u16)
    ensures
        r == port_over(text::option_view(*o), current),
{
    match o {
        Some(s) => match text::parse_decimal(s.as_str(), 65535) {
            Some(n) => n as u16,
            None => current,
        },
        None => current,
    }
}

impl AppConfig {
    /// The configuration under overrides.
    pub fn apply(self, o: &Overrides) -> (r: Self)
        ensures
            r@ == self@.under(o@),
    {
        let host = put_option(&o.mqtt_host, self.mqtt.host);
        let enabled = host.is_some() || put_flag(&o.mqtt_enabled, self.mqtt.enabled);
        AppConfig {
            usb: UsbConfig { dongle: put_text(&o.usb_dongle, self.usb.dongle) },
            web: WebConfig {
                enabled: put_flag(&o.web_enabled, self.web.enabled),
                port: put_port(&o.web_port, self.web.port),
            },
            mqtt: MqttConfig {
                enabled,
                host,
                port: put_port(&o.mqtt_port, self.mqtt.port),
                username: put_option(&o.mqtt_username, self.mqtt.username),
                password: put_option(&o.mqtt_password, self.mqtt.password),
                self_topic_root: put_text(&o.self_topic_root, self.mqtt.self_topic_root),
                hass_topic_root: put_text(&o.hass_topic_root, self.mqtt.hass_topic_root),
            },
            logging: LoggingConfig {
                level: put_text(&o.log_level, self.logging.level),
                log_file: self.logging.log_file,
                max_log_files: self.logging.max_log_files,
                no_ansi: put_flag(&o.no_ansi, self.logging.no_ansi),
            },
            bridge: self.bridge,
        }
    }

    /// The configuration out of a file and the environment. A file that is missing or
    /// cannot be read says nothing.
    pub fn load(file: Option<AppConfig>, environment: &Overrides) -> (r: Self)
        ensures
            r@ == (match file {
                Some(c) => c@,
                None => AppView::plain(),
            }).under(environment@),
    {
        let config = match file {
            Some(c) => c,
            None => AppConfig::default(),
        };
        config.apply(environment)
    }

    /// A configuration file to start from.
    pub fn to_template_string() -> (r: String)
        ensures
            r@ == TEMPLATE@,
    {
        TEMPLATE.to_owned()
    }
}

/// A configuration file to start from.
pub const TEMPLATE: &'static str = r#"# Wyze Sense to MQTT Bridge (Rust) Sectioned Configuration Template
# ----------------------------------------------

# USB Dongle Settings
# (Set to "auto" to dynamically discover the dongle via sysfs)
usb:
  dongle: "auto"

# Web Console Panel Settings
web:
  enabled: true
  port: 8080

# MQTT Broker Gateway Integration Settings
# (Set host to automatically enable publishing)
mqtt:
  enabled: false
  host: "localhost"
  port: 1883
  username: "homeassistant"
  password: "your_secure_password"
  self_topic_root: "wyzesense2mqtt"
  hass_topic_root: "homeassistant"

# Diagnostics Structural Logging Level
# (Options: trace, debug, info, warn, error)
# Set log_file to enable daily-rotating file logging (default: stdout only)
# Relative paths are resolved against this config file's directory.
# max_log_files controls how many rotated files to keep (default: 7)
logging:
  level: "info"
  # log_file: "logs/wyzesense2mqtt-rs.log"
  # max_log_files: 7
"#;

// ---------------------------------------------------------------------------
// The command line
// ---------------------------------------------------------------------------

/// What the options of the command line say.
#[derive(Debug, PartialEq, Eq)]
pub struct Options {
    pub config_path: Option<String>,
    pub overrides: Overrides,
}

/// The names of the options that have a value, each with its short form, in the order in
/// which they are taken out.
pub open spec fn option_names() -> Seq<(Seq<char>, Seq<char>)> {
    seq![
        ("--config"@, "-c"@),
        ("--usb-dongle"@, "-d"@),
        ("--log-level"@, "-l"@),
        ("--web-enabled"@, "--web-enabled"@),
        ("--web-port"@, "-p"@),
        ("--mqtt-enabled"@, "--mqtt-enabled"@),
        ("--mqtt-host"@, "--mqtt-host"@),
        ("--mqtt-port"@, "--mqtt-port"@),
        ("--mqtt-user"@, "--mqtt-user"@),
        ("--mqtt-password"@, "--mqtt-password"@),
        ("--mqtt-self-topic"@, "--mqtt-self-topic"@),
        ("--mqtt-hass-topic"@, "--mqtt-hass-topic"@),
    ]
}

/// The arguments without a flag.
pub open spec fn without_flag(args: Seq<Seq<char>>, flag: Seq<char>) -> Seq<Seq<char>> {
    match cli::flag_at(args, flag, flag) {
        Some(i) => args.remove(i),
        None => args,
    }
}

/// The arguments when the first `n` options were taken out. The flag that turns colours
/// off goes behind the third.
pub open spec fn args_after(args: Seq<Seq<char>>, n: nat) -> Seq<Seq<char>>
    decreases n,
{
    if n == 0 {
        args
    } else {
        let before = args_after(args, (n - 1) as nat);
        let (a, b) = option_names()[n - 1];
        let rest = cli::stripped(before, a, b).1;
        if n == 3 {
            without_flag(rest, "--no-ansi"@)
        } else {
            rest
        }
    }
}

/// What the option at a place says.
pub open spec fn option_value(args: Seq<Seq<char>>, n: nat) -> Option<Seq<char>> {
    cli::stripped(
        args_after(args, n),
        option_names()[n as int].0,
        option_names()[n as int].1,
    ).0
}

/// The flag that turns colours off is there.
pub open spec fn colours_off(args: Seq<Seq<char>>) -> bool {
    let before = cli::stripped(
        args_after(args, 2),
        option_names()[2].0,
        option_names()[2].1,
    ).1;
    cli::flag_at(before, "--no-ansi"@, "--no-ansi"@) is Some
}

/// What the command line puts over the configuration.
pub open spec fn command_line(args: Seq<Seq<char>>) -> OverridesView {
    OverridesView {
        usb_dongle: option_value(args, 1),
        log_level: option_value(args, 2),
        web_enabled: option_value(args, 3),
        web_port: option_value(args, 4),
        mqtt_enabled: option_value(args, 5),
        mqtt_host: option_value(args, 6),
        mqtt_port: option_value(args, 7),
        mqtt_username: option_value(args, 8),
        mqtt_password: option_value(args, 9),
        self_topic_root: option_value(args, 10),
        hass_topic_root: option_value(args, 11),
        no_ansi: if colours_off(args) {
            Some("true"@)
        } else {
            None
        },
    }
}

/// Takes the options out of the arguments.
pub fn read_options(args: &mut Vec<String>) -> (r: Options)
    ensures
        text::views(final(args)@) == args_after(text::views(old(args)@), 12),
        text::option_view(r.config_path) == option_value(text::views(old(args)@), 0),
        r.overrides@ == command_line(text::views(old(args)@)),
{
    proof {
        reveal_with_fuel(args_after, 13);
    }
    let config_path = cli::strip_arg_string(args, "--config", "-c");
    let usb_dongle = cli::strip_arg_string(args, "--usb-dongle", "-d");
    let log_level = cli::strip_arg_string(args, "--log-level", "-l");
    let off = cli::strip_arg_bool(args, "--no-ansi");
    let web_enabled = cli::strip_arg_string(args, "--web-enabled", "--web-enabled");
    let web_port = cli::strip_arg_string(args, "--web-port", "-p");
    let mqtt_enabled = cli::strip_arg_string(args, "--mqtt-enabled", "--mqtt-enabled");
    let mqtt_host = cli::strip_arg_string(args, "--mqtt-host", "--mqtt-host");
    let mqtt_port = cli::strip_arg_string(args, "--mqtt-port", "--mqtt-port");
    let mqtt_username = cli::strip_arg_string(args, "--mqtt-user", "--mqtt-user");
    let mqtt_password = cli::strip_arg_string(args, "--mqtt-password", "--mqtt-password");
    let self_topic_root = cli::strip_arg_string(args, "--mqtt-self-topic", "--mqtt-self-topic");
    let hass_topic_root = cli::strip_arg_string(args, "--mqtt-hass-topic", "--mqtt-hass-topic");
    let no_ansi: Option<String> = if off {
        Some("true".to_owned())
    } else {
        None
    };
    Options {
        config_path,
        overrides: Overrides {
            usb_dongle,
            web_enabled,
            web_port,
            mqtt_enabled,
            mqtt_host,
            mqtt_port,
            mqtt_username,
            mqtt_password,
            self_topic_root,
            hass_topic_root,
            log_level,
            no_ansi,
        },
    }
}

// ---------------------------------------------------------------------------
// What settings mean
// ---------------------------------------------------------------------------

/// How much is logged.
#[derive(Debug, Copy, Clone, PartialEq, Eq, Structural)]
pub enum LogLevel {
    Trace,
    Debug,
    Info,
    Warn,
    Error,
}

/// The level that a word in lower case names; any other word means the middle one.
pub open spec fn level_of(word: Seq<char>) -> LogLevel {
    if word == "trace"@ {
        LogLevel::Trace
    } else if word == "debug"@ {
        LogLevel::Debug
    } else if word == "info"@ {
        LogLevel::Info
    } else if word == "warn"@ {
        LogLevel::Warn
    } else if word == "error"@ {
        LogLevel::Error
    } else {
        LogLevel::Info
    }
}

/// The level that a word in lower case names.
pub fn read_level(word: &str) -> (r: LogLevel)
    ensures
        r == level_of(word@),
{
    if text::same(word, "trace") {
        LogLevel::Trace
    } else if text::same(word, "debug") {
        LogLevel::Debug
    } else if text::same(word, "info") {
        LogLevel::Info
    } else if text::same(word, "warn") {
        LogLevel::Warn
    } else if text::same(word, "error") {
        LogLevel::Error
    } else {
        LogLevel::Info
    }
}

/// Which dongle on this machine is used.
#[derive(Debug, PartialEq, Eq)]
pub enum DongleChoice {
    /// All dongles are on other machines.
    Remote,
    /// The one that is found.
    Auto,
    /// The one at a path.
    Path(String),
}

impl LoggingConfig {
    /// How much is logged.
    pub fn log_level(&self) -> (r: LogLevel)
        ensures
            r == level_of(text::lowercase(self.level@)),
    {
        read_level(text::to_lowercase(self.level.as_str()).as_str())
    }
}

/// The choice that a setting makes, given also in lower case.
pub open spec fn makes_choice(c: DongleChoice, lower: Seq<char>, dongle: Seq<char>) -> bool {
    if lower == "auto"@ {
        c is Auto
    } else if lower == "none"@ {
        c is Remote
    } else {
        c matches DongleChoice::Path(p) && p@ == dongle
    }
}

/// The choice that a setting makes, given also in lower case.
pub fn read_choice(lower: &str, dongle: &str) -> (r: DongleChoice)
    ensures
        makes_choice(r, lower@, dongle@),
{
    if text::same(lower, "auto") {
        DongleChoice::Auto
    } else if text::same(lower, "none") {
        DongleChoice::Remote
    } else {
        DongleChoice::Path(dongle.to_owned())
    }
}

impl UsbConfig {
    /// Which dongle on this machine is used.
    pub fn choice(&self) -> (r: DongleChoice)
        ensures
            makes_choice(r, text::lowercase(self.dongle@), self.dongle@),
    {
        read_choice(text::to_lowercase(self.dongle.as_str()).as_str(), self.dongle.as_str())
    }
}

impl BridgeConfig {
    /// Another machine may connect: that is enabled, and where a token is set, the machine
    /// knows it.
    pub open spec fn admitting(&self, token: Option<Seq<char>>) -> bool {
        self.enabled && (self.auth_token is Some ==> token == text::option_view(self.auth_token))
    }

    /// Whether another machine may connect that shows a token.
    pub fn admits(&self, token: &Option<String>) -> (r: bool)
        ensures
            r == self.admitting(text::option_view(*token)),
    {
        if !self.enabled {
            return false;
        }
        match (&self.auth_token, token) {
            (None, _) => true,
            (Some(a), Some(b)) => text::same(a.as_str(), b.as_str()),
            (Some(_), None) => false,
        }
    }
}

// ---------------------------------------------------------------------------
// Laws
// ---------------------------------------------------------------------------

/// The command line goes over the environment, and the environment over the file: a
/// setting that the command line names is what the command line says.
pub proof fn law_later_word_counts(c: AppView, env: OverridesView, cmd: OverridesView)
    ensures
        cmd.usb_dongle is Some ==> c.under(env).under(cmd).dongle == cmd.usb_dongle->0,
        cmd.usb_dongle is None && env.usb_dongle is Some ==> c.under(env).under(cmd).dongle
            == env.usb_dongle->0,
        cmd.usb_dongle is None && env.usb_dongle is None ==> c.under(env).under(cmd).dongle
            == c.dongle,
        cmd.mqtt_host is Some ==> c.under(env).under(cmd).mqtt_host == cmd.mqtt_host,
        cmd.mqtt_host is None && env.mqtt_host is Some ==> c.under(env).under(cmd).mqtt_host
            == env.mqtt_host,
        cmd.log_level is Some ==> c.under(env).under(cmd).log_level == cmd.log_level->0,
{
}

/// A broker that is named anywhere is used, whatever else is said.
pub proof fn law_named_broker_is_used(c: AppView, env: OverridesView, cmd: OverridesView)
    ensures
        c.under(env).under(cmd).mqtt_host is Some ==> c.under(env).under(cmd).mqtt_enabled,
{
}

/// Nothing said changes nothing, but that a broker that the file names is used.
pub proof fn law_silence_changes_nothing(c: AppView)
    ensures
        ({
            let none = OverridesView {
                usb_dongle: None,
                web_enabled: None,
                web_port: None,
                mqtt_enabled: None,
                mqtt_host: None,
                mqtt_port: None,
                mqtt_username: None,
                mqtt_password: None,
                self_topic_root: None,
                hass_topic_root: None,
                log_level: None,
                no_ansi: None,
            };
            c.under(none) == (AppView { mqtt_enabled: c.mqtt_enabled || c.mqtt_host is Some, ..c })
        }),
{
}

// ---------------------------------------------------------------------------
// Laws on the command line
// ---------------------------------------------------------------------------

/// The name of an option that has a value.
pub open spec fn is_option_name(w: Seq<char>) -> bool {
    ||| w == "--config"@
    ||| w == "-c"@
    ||| w == "--usb-dongle"@
    ||| w == "-d"@
    ||| w == "--log-level"@
    ||| w == "-l"@
    ||| w == "--web-enabled"@
    ||| w == "--web-port"@
    ||| w == "-p"@
    ||| w == "--mqtt-enabled"@
    ||| w == "--mqtt-host"@
    ||| w == "--mqtt-port"@
    ||| w == "--mqtt-user"@
    ||| w == "--mqtt-password"@
    ||| w == "--mqtt-self-topic"@
    ||| w == "--mqtt-hass-topic"@
}

/// Arguments in which every option has a value that is no option itself.
pub open spec fn values_stand(args: Seq<Seq<char>>) -> bool {
    forall|j: int|
        0 <= j < args.len() && is_option_name(#[trigger] args[j]) ==> {
            &&& j + 1 < args.len()
            &&& !is_option_name(args[j + 1])
            &&& args[j + 1] != "--no-ansi"@
        }
}

/// The first of two words stands at a place, or the second, and neither stands before it.
pub open spec fn stands_first(
    args: Seq<Seq<char>>,
    i: int,
    long: Seq<char>,
    short: Seq<char>,
) -> bool {
    &&& 0 <= i < args.len()
    &&& args[i] == long || args[i] == short
    &&& forall|j: int| 0 <= j < i ==> (#[trigger] args[j]) != long && args[j] != short
}

/// The place of an option among the names; -1 for a word that is none.
spec fn number_of(w: Seq<char>) -> int {
    if w == "--config"@ || w == "-c"@ {
        0
    } else if w == "--usb-dongle"@ || w == "-d"@ {
        1
    } else if w == "--log-level"@ || w == "-l"@ {
        2
    } else if w == "--web-enabled"@ {
        3
    } else if w == "--web-port"@ || w == "-p"@ {
        4
    } else if w == "--mqtt-enabled"@ {
        5
    } else if w == "--mqtt-host"@ {
        6
    } else if w == "--mqtt-port"@ {
        7
    } else if w == "--mqtt-user"@ {
        8
    } else if w == "--mqtt-password"@ {
        9
    } else if w == "--mqtt-self-topic"@ {
        10
    } else if w == "--mqtt-hass-topic"@ {
        11
    } else {
        -1
    }
}

proof fn lemma_words_differ()
    ensures
        "--config"@.len() == 8,
        "-c"@.len() == 2,
        "-c"@[1] == 'c',
        "--usb-dongle"@.len() == 12,
        "-d"@.len() == 2,
        "-d"@[1] == 'd',
        "--log-level"@.len() == 11,
        "--log-level"@[2] == 'l',
        "--log-level"@[7] == 'e',
        "-l"@.len() == 2,
        "-l"@[1] == 'l',
        "--web-enabled"@.len() == 13,
        "--web-port"@.len() == 10,
        "-p"@.len() == 2,
        "-p"@[1] == 'p',
        "--mqtt-enabled"@.len() == 14,
        "--mqtt-host"@.len() == 11,
        "--mqtt-host"@[2] == 'm',
        "--mqtt-host"@[7] == 'h',
        "--mqtt-port"@.len() == 11,
        "--mqtt-port"@[2] == 'm',
        "--mqtt-port"@[7] == 'p',
        "--mqtt-user"@.len() == 11,
        "--mqtt-user"@[2] == 'm',
        "--mqtt-user"@[7] == 'u',
        "--mqtt-password"@.len() == 15,
        "--mqtt-self-topic"@.len() == 17,
        "--mqtt-self-topic"@[7] == 's',
        "--mqtt-hass-topic"@.len() == 17,
        "--mqtt-hass-topic"@[7] == 'h',
        "--no-ansi"@.len() == 9,
{
    reveal_strlit("--config");
    reveal_strlit("-c");
    reveal_strlit("--usb-dongle");
    reveal_strlit("-d");
    reveal_strlit("--log-level");
    reveal_strlit("-l");
    reveal_strlit("--web-enabled");
    reveal_strlit("--web-port");
    reveal_strlit("-p");
    reveal_strlit("--mqtt-enabled");
    reveal_strlit("--mqtt-host");
    reveal_strlit("--mqtt-port");
    reveal_strlit("--mqtt-user");
    reveal_strlit("--mqtt-password");
    reveal_strlit("--mqtt-self-topic");
    reveal_strlit("--mqtt-hass-topic");
    reveal_strlit("--no-ansi");
}

proof fn lemma_numbers(n: int)
    requires
        0 <= n < 12,
    ensures
        number_of(option_names()[n].0) == n,
        number_of(option_names()[n].1) == n,
        number_of("--no-ansi"@) == -1,
{
    lemma_words_differ();
}

proof fn lemma_named(w: Seq<char>)
    ensures
        is_option_name(w) <==> number_of(w) >= 0,
        number_of(w) >= 0 ==> number_of(w) < 12 && (option_names()[number_of(w)].0 == w
            || option_names()[number_of(w)].1 == w),
        number_of(w) >= -1,
{
}

/// Taking one option out leaves values where they stand, and every other option with the
/// value that it had.
proof fn lemma_taking_one_out(args: Seq<Seq<char>>, m: int, n: int)
    requires
        values_stand(args),
        0 <= m < 12,
        0 <= n < 12,
        m != n,
    ensures
        ({
            let rest = cli::stripped(args, option_names()[m].0, option_names()[m].1).1;
            let (a, b) = option_names()[n];
            &&& values_stand(rest)
            &&& cli::stripped(rest, a, b).0 == cli::stripped(args, a, b).0
            &&& rest.contains("--no-ansi"@) == args.contains("--no-ansi"@)
        }),
{
    let (c, d) = option_names()[m];
    let (a, b) = option_names()[n];
    let rest = cli::stripped(args, c, d).1;
    lemma_numbers(m);
    lemma_numbers(n);
    lemma_named(a);
    lemma_named(b);
    lemma_named(c);
    lemma_named(d);
    lemma_named("--no-ansi"@);
    cli::law_flag_is_the_first(args, c, d);
    cli::law_flag_is_the_first(args, a, b);
    cli::law_flag_is_the_first(rest, a, b);
    match cli::flag_at(args, c, d) {
        None => {},
        Some(i) => {
            assert(is_option_name(args[i]));
            assert(i + 1 < args.len() && !is_option_name(args[i + 1]));
            assert(rest =~= args.subrange(0, i) + args.subrange(i + 2, args.len() as int));
            assert forall|j: int| 0 <= j < rest.len() && is_option_name(#[trigger] rest[j]) implies {
                &&& j + 1 < rest.len()
                &&& !is_option_name(rest[j + 1])
                &&& rest[j + 1] != "--no-ansi"@
            } by {
                if j < i {
                    assert(rest[j] == args[j]);
                    assert(j + 1 != i);
                    assert(rest[j + 1] == args[j + 1]);
                } else {
                    assert(rest[j] == args[j + 2]);
                    assert(rest[j + 1] == args[j + 3]);
                }
            }
            match cli::flag_at(args, a, b) {
                None => {
                    assert forall|j: int| 0 <= j < rest.len() implies (#[trigger] rest[j]) != a
                        && rest[j] != b by {
                        if j < i {
                            assert(rest[j] == args[j]);
                        } else {
                            assert(rest[j] == args[j + 2]);
                        }
                    }
                },
                Some(k) => {
                    assert(is_option_name(args[k]));
                    assert(k != i && k != i + 1);
                    let at = if k < i {
                        k
                    } else {
                        k - 2
                    };
                    assert(rest[at] == args[k]);
                    assert(k + 1 != i);
                    assert(rest[at + 1] == args[k + 1]);
                    assert forall|j: int| 0 <= j < at implies (#[trigger] rest[j]) != a && rest[j]
                        != b by {
                        if j < i {
                            assert(rest[j] == args[j]);
                        } else {
                            assert(rest[j] == args[j + 2]);
                        }
                    }
                },
            }
            lemma_flag_stays(args, rest, i);
        },
    }
}

proof fn lemma_flag_stays(args: Seq<Seq<char>>, rest: Seq<Seq<char>>, i: int)
    requires
        0 <= i,
        i + 1 < args.len(),
        rest == args.subrange(0, i) + args.subrange(i + 2, args.len() as int),
        args[i] != "--no-ansi"@,
        args[i + 1] != "--no-ansi"@,
    ensures
        rest.contains("--no-ansi"@) == args.contains("--no-ansi"@),
{
    let f = "--no-ansi"@;
    if args.contains(f) {
        let k = args.index_of(f);
        assert(rest[if k < i {
            k
        } else {
            k - 2
        }] == f);
    }
    if rest.contains(f) {
        let k = rest.index_of(f);
        assert(args[if k < i {
            k
        } else {
            k + 2
        }] == f);
    }
}

/// Taking the flag that turns colours off out leaves values where they stand, and every
/// option with the value that it had.
proof fn lemma_taking_flag_out(args: Seq<Seq<char>>, n: int)
    requires
        values_stand(args),
        0 <= n < 12,
    ensures
        ({
            let rest = without_flag(args, "--no-ansi"@);
            let (a, b) = option_names()[n];
            &&& values_stand(rest)
            &&& cli::stripped(rest, a, b).0 == cli::stripped(args, a, b).0
        }),
{
    let f = "--no-ansi"@;
    let (a, b) = option_names()[n];
    let rest = without_flag(args, f);
    lemma_numbers(n);
    lemma_named(a);
    lemma_named(b);
    lemma_named(f);
    cli::law_flag_is_the_first(args, f, f);
    cli::law_flag_is_the_first(args, a, b);
    cli::law_flag_is_the_first(rest, a, b);
    match cli::flag_at(args, f, f) {
        None => {},
        Some(i) => {
            assert(rest =~= args.subrange(0, i) + args.subrange(i + 1, args.len() as int));
            assert forall|j: int| 0 <= j < rest.len() && is_option_name(#[trigger] rest[j]) implies {
                &&& j + 1 < rest.len()
                &&& !is_option_name(rest[j + 1])
                &&& rest[j + 1] != f
            } by {
                if j < i {
                    assert(rest[j] == args[j]);
                    assert(j + 1 != i);
                    assert(rest[j + 1] == args[j + 1]);
                } else {
                    assert(rest[j] == args[j + 1]);
                    assert(rest[j + 1] == args[j + 2]);
                }
            }
            match cli::flag_at(args, a, b) {
                None => {
                    assert forall|j: int| 0 <= j < rest.len() implies (#[trigger] rest[j]) != a
                        && rest[j] != b by {
                        if j < i {
                            assert(rest[j] == args[j]);
                        } else {
                            assert(rest[j] == args[j + 1]);
                        }
                    }
                },
                Some(k) => {
                    assert(is_option_name(args[k]));
                    assert(k != i);
                    let at = if k < i {
                        k
                    } else {
                        k - 1
                    };
                    assert(rest[at] == args[k]);
                    assert(k + 1 != i);
                    assert(rest[at + 1] == args[k + 1]);
                    assert forall|j: int| 0 <= j < at implies (#[trigger] rest[j]) != a && rest[j]
                        != b by {
                        if j < i {
                            assert(rest[j] == args[j]);
                        } else {
                            assert(rest[j] == args[j + 1]);
                        }
                    }
                },
            }
        },
    }
}

/// An option says what it says whatever was taken out before it.
proof fn lemma_order_does_not_matter(args: Seq<Seq<char>>, m: nat, n: int)
    requires
        values_stand(args),
        m <= n < 12,
    ensures
        values_stand(args_after(args, m)),
        ({
            let (a, b) = option_names()[n];
            cli::stripped(args_after(args, m), a, b).0 == cli::stripped(args, a, b).0
        }),
        m <= 2 ==> args_after(args, m).contains("--no-ansi"@) == args.contains("--no-ansi"@),
    decreases m,
{
    if m > 0 {
        let before = args_after(args, (m - 1) as nat);
        lemma_order_does_not_matter(args, (m - 1) as nat, n);
        lemma_taking_one_out(before, m - 1, n);
        let rest = cli::stripped(before, option_names()[m - 1].0, option_names()[m - 1].1).1;
        if m == 3 {
            lemma_taking_flag_out(rest, n);
        }
    }
}

proof fn lemma_value(args: Seq<Seq<char>>, n: int)
    requires
        values_stand(args),
        0 <= n < 12,
    ensures
        ({
            let (a, b) = option_names()[n];
            &&& forall|i: int|
                #[trigger] stands_first(args, i, a, b) ==> option_value(args, n as nat) == Some(
                    args[i + 1],
                )
            &&& !args.contains(a) && !args.contains(b) ==> option_value(args, n as nat) is None
        }),
{
    let (a, b) = option_names()[n];
    lemma_order_does_not_matter(args, n as nat, n);
    lemma_numbers(n);
    lemma_named(a);
    lemma_named(b);
    cli::law_flag_is_the_first(args, a, b);
    assert forall|i: int| #[trigger] stands_first(args, i, a, b) implies option_value(
        args,
        n as nat,
    ) == Some(args[i + 1]) by {
        assert(is_option_name(args[i]));
    }
    if !args.contains(a) && !args.contains(b) {
        cli::law_absent_option_changes_nothing(args, a, b);
    }
}

/// Where every option has a value that is no option itself, the word behind an option is what
/// the option says, wherever it stands and whatever else is said: the word behind
/// `--mqtt-user` becomes the user name, the word behind `--mqtt-password` the password, and
/// likewise for every other option, by its long name or its short one. Of an option that
/// stands twice the first counts.
pub proof fn law_option_says_the_word_behind_it(args: Seq<Seq<char>>, i: int)
    requires
        values_stand(args),
        0 <= i < args.len(),
    ensures
        stands_first(args, i, "--config"@, "-c"@) ==> option_value(args, 0) == Some(
            args[i + 1],
        ),
        stands_first(args, i, "--usb-dongle"@, "-d"@) ==> command_line(args).usb_dongle == Some(
            args[i + 1],
        ),
        stands_first(args, i, "--log-level"@, "-l"@) ==> command_line(args).log_level == Some(
            args[i + 1],
        ),
        stands_first(args, i, "--web-enabled"@, "--web-enabled"@) ==> command_line(args).web_enabled == Some(
            args[i + 1],
        ),
        stands_first(args, i, "--web-port"@, "-p"@) ==> command_line(args).web_port == Some(
            args[i + 1],
        ),
        stands_first(args, i, "--mqtt-enabled"@, "--mqtt-enabled"@) ==> command_line(args).mqtt_enabled == Some(
            args[i + 1],
        ),
        stands_first(args, i, "--mqtt-host"@, "--mqtt-host"@) ==> command_line(args).mqtt_host == Some(
            args[i + 1],
        ),
        stands_first(args, i, "--mqtt-port"@, "--mqtt-port"@) ==> command_line(args).mqtt_port == Some(
            args[i + 1],
        ),
        stands_first(args, i, "--mqtt-user"@, "--mqtt-user"@) ==> command_line(args).mqtt_username == Some(
            args[i + 1],
        ),
        stands_first(args, i, "--mqtt-password"@, "--mqtt-password"@) ==> command_line(args).mqtt_password == Some(
            args[i + 1],
        ),
        stands_first(args, i, "--mqtt-self-topic"@, "--mqtt-self-topic"@) ==> command_line(args).self_topic_root == Some(
            args[i + 1],
        ),
        stands_first(args, i, "--mqtt-hass-topic"@, "--mqtt-hass-topic"@) ==> command_line(args).hass_topic_root == Some(
            args[i + 1],
        ),
{
    lemma_value(args, 0);
    lemma_value(args, 1);
    lemma_value(args, 2);
    lemma_value(args, 3);
    lemma_value(args, 4);
    lemma_value(args, 5);
    lemma_value(args, 6);
    lemma_value(args, 7);
    lemma_value(args, 8);
    lemma_value(args, 9);
    lemma_value(args, 10);
    lemma_value(args, 11);
}

/// An option that does not stand among the arguments says nothing.
pub proof fn law_missing_option_says_nothing(args: Seq<Seq<char>>)
    requires
        values_stand(args),
    ensures
        !args.contains("--config"@) && !args.contains("-c"@) ==> option_value(args, 0) is None,
        !args.contains("--usb-dongle"@) && !args.contains("-d"@) ==> command_line(args).usb_dongle is None,
        !args.contains("--log-level"@) && !args.contains("-l"@) ==> command_line(args).log_level is None,
        !args.contains("--web-enabled"@) ==> command_line(args).web_enabled is None,
        !args.contains("--web-port"@) && !args.contains("-p"@) ==> command_line(args).web_port is None,
        !args.contains("--mqtt-enabled"@) ==> command_line(args).mqtt_enabled is None,
        !args.contains("--mqtt-host"@) ==> command_line(args).mqtt_host is None,
        !args.contains("--mqtt-port"@) ==> command_line(args).mqtt_port is None,
        !args.contains("--mqtt-user"@) ==> command_line(args).mqtt_username is None,
        !args.contains("--mqtt-password"@) ==> command_line(args).mqtt_password is None,
        !args.contains("--mqtt-self-topic"@) ==> command_line(args).self_topic_root is None,
        !args.contains("--mqtt-hass-topic"@) ==> command_line(args).hass_topic_root is None,
{
    lemma_value(args, 0);
    lemma_value(args, 1);
    lemma_value(args, 2);
    lemma_value(args, 3);
    lemma_value(args, 4);
    lemma_value(args, 5);
    lemma_value(args, 6);
    lemma_value(args, 7);
    lemma_value(args, 8);
    lemma_value(args, 9);
    lemma_value(args, 10);
    lemma_value(args, 11);
}

/// Colours are turned off exactly where the flag for that stands among the arguments.
pub proof fn law_colours_are_turned_off(args: Seq<Seq<char>>)
    requires
        values_stand(args),
    ensures
        args.contains("--no-ansi"@) ==> command_line(args).no_ansi == Some("true"@),
        !args.contains("--no-ansi"@) ==> command_line(args).no_ansi is None,
{
    let f = "--no-ansi"@;
    lemma_order_does_not_matter(args, 2, 3);
    let before = args_after(args, 2);
    lemma_taking_one_out(before, 2, 3);
    let rest = cli::stripped(before, option_names()[2].0, option_names()[2].1).1;
    cli::law_flag_is_the_first(rest, f, f);
    match cli::flag_at(rest, f, f) {
        Some(i) => {
            assert(rest[i] == f);
        },
        None => {
            if rest.contains(f) {
                assert(rest[rest.index_of(f)] == f);
            }
        },
    }
}

proof fn lemma_nothing_to_take(args: Seq<Seq<char>>, m: int)
    requires
        0 <= m < 12,
        forall|j: int|
            0 <= j < args.len() ==> number_of(#[trigger] args[j]) != m && args[j] != "--no-ansi"@,
    ensures
        cli::stripped(args, option_names()[m].0, option_names()[m].1).1 == args,
        without_flag(args, "--no-ansi"@) == args,
{
    let (a, b) = option_names()[m];
    lemma_numbers(m);
    cli::law_flag_is_the_first(args, a, b);
    cli::law_flag_is_the_first(args, "--no-ansi"@, "--no-ansi"@);
}

proof fn lemma_one_option(
    before: Seq<Seq<char>>,
    name: Seq<char>,
    value: Seq<char>,
    after: Seq<Seq<char>>,
    m: nat,
)
    requires
        m <= 12,
        is_option_name(name),
        !is_option_name(value) && value != "--no-ansi"@,
        forall|j: int|
            0 <= j < before.len() ==> !is_option_name(#[trigger] before[j]) && before[j]
                != "--no-ansi"@,
        forall|j: int|
            0 <= j < after.len() ==> !is_option_name(#[trigger] after[j]) && after[j]
                != "--no-ansi"@,
    ensures
        args_after(before + seq![name, value] + after, m) == if m <= number_of(name) {
            before + seq![name, value] + after
        } else {
            before + after
        },
    decreases m,
{
    let args = before + seq![name, value] + after;
    let n = number_of(name);
    lemma_named(name);
    lemma_named(value);
    if m > 0 {
        lemma_one_option(before, name, value, after, (m - 1) as nat);
        let now = args_after(args, (m - 1) as nat);
        let (a, b) = option_names()[m - 1];
        lemma_numbers(m - 1);
        lemma_named("--no-ansi"@);
        assert forall|j: int| 0 <= j < (before + after).len() implies !is_option_name(
            #[trigger] (before + after)[j],
        ) && (before + after)[j] != "--no-ansi"@ by {
            if j < before.len() {
                assert((before + after)[j] == before[j]);
            } else {
                assert((before + after)[j] == after[j - before.len()]);
            }
        }
        assert forall|j: int|
            0 <= j < (before + after).len() implies number_of(#[trigger] (before + after)[j]) != m
            - 1 && (before + after)[j] != "--no-ansi"@ by {
            lemma_named((before + after)[j]);
        }
        lemma_nothing_to_take(before + after, m - 1);
        if m - 1 == n {
            assert forall|j: int| 0 <= j < before.len() implies #[trigger] before[j] != a
                && before[j] != b by {
                lemma_named(before[j]);
            }
            if name == a {
                cli::law_option_is_taken_out(before, a, b, value, after);
            } else {
                cli::law_short_option_is_taken_out(before, a, b, value, after);
            }
        } else if m - 1 < n {
            assert forall|j: int|
                0 <= j < args.len() implies number_of(#[trigger] args[j]) != m - 1 && args[j]
                != "--no-ansi"@ by {
                lemma_named(args[j]);
                if j < before.len() {
                    assert(args[j] == before[j]);
                } else if j == before.len() {
                    assert(args[j] == name);
                } else if j == before.len() + 1 {
                    assert(args[j] == value);
                } else {
                    assert(args[j] == after[j - before.len() - 2]);
                }
            }
            lemma_nothing_to_take(args, m - 1);
        }
    }
}

/// An option leaves the command line together with its value, and everything else stays as
/// it is. So do arguments without any option.
pub proof fn law_options_leave_the_rest(
    before: Seq<Seq<char>>,
    name: Seq<char>,
    value: Seq<char>,
    after: Seq<Seq<char>>,
)
    requires
        is_option_name(name),
        !is_option_name(value) && value != "--no-ansi"@,
        forall|j: int|
            0 <= j < before.len() ==> !is_option_name(#[trigger] before[j]) && before[j]
                != "--no-ansi"@,
        forall|j: int|
            0 <= j < after.len() ==> !is_option_name(#[trigger] after[j]) && after[j]
                != "--no-ansi"@,
    ensures
        args_after(before + seq![name, value] + after, 12) == before + after,
        args_after(before, 12) == before,
{
    lemma_named(name);
    lemma_one_option(before, name, value, after, 12);
    lemma_no_option(before, 12);
}

proof fn lemma_no_option(args: Seq<Seq<char>>, m: nat)
    requires
        m <= 12,
        forall|j: int|
            0 <= j < args.len() ==> !is_option_name(#[trigger] args[j]) && args[j] != "--no-ansi"@,
    ensures
        args_after(args, m) == args,
    decreases m,
{
    if m > 0 {
        lemma_no_option(args, (m - 1) as nat);
        assert forall|j: int| 0 <= j < args.len() implies number_of(#[trigger] args[j]) != m - 1
            && args[j] != "--no-ansi"@ by {
            lemma_named(args[j]);
        }
        lemma_nothing_to_take(args, m - 1);
    }
}

/// Every override goes to the setting of its own name, and a setting of which nothing is said
/// keeps what it was. Flags are `true` and `false`, ports are decimal numbers; a word that is
/// neither changes nothing. What no override names never changes.
pub proof fn law_override_sets_its_own_setting(c: AppView, o: OverridesView)
    ensures
        o.usb_dongle is Some ==> c.under(o).dongle == o.usb_dongle->0,
        o.usb_dongle is None ==> c.under(o).dongle == c.dongle,
        o.log_level is Some ==> c.under(o).log_level == o.log_level->0,
        o.log_level is None ==> c.under(o).log_level == c.log_level,
        o.self_topic_root is Some ==> c.under(o).self_topic_root == o.self_topic_root->0,
        o.self_topic_root is None ==> c.under(o).self_topic_root == c.self_topic_root,
        o.hass_topic_root is Some ==> c.under(o).hass_topic_root == o.hass_topic_root->0,
        o.hass_topic_root is None ==> c.under(o).hass_topic_root == c.hass_topic_root,
        o.mqtt_host is Some ==> c.under(o).mqtt_host == o.mqtt_host,
        o.mqtt_host is None ==> c.under(o).mqtt_host == c.mqtt_host,
        o.mqtt_username is Some ==> c.under(o).mqtt_username == o.mqtt_username,
        o.mqtt_username is None ==> c.under(o).mqtt_username == c.mqtt_username,
        o.mqtt_password is Some ==> c.under(o).mqtt_password == o.mqtt_password,
        o.mqtt_password is None ==> c.under(o).mqtt_password == c.mqtt_password,
        o.web_enabled == Some("true"@) ==> c.under(o).web_enabled,
        o.web_enabled == Some("false"@) ==> !c.under(o).web_enabled,
        o.web_enabled != Some("true"@) && o.web_enabled != Some("false"@)
            ==> c.under(o).web_enabled == c.web_enabled,
        o.no_ansi == Some("true"@) ==> c.under(o).no_ansi,
        o.no_ansi == Some("false"@) ==> !c.under(o).no_ansi,
        o.no_ansi != Some("true"@) && o.no_ansi != Some("false"@) ==> c.under(o).no_ansi
            == c.no_ansi,
        c.under(o).mqtt_host is None ==> {
            &&& o.mqtt_enabled == Some("true"@) ==> c.under(o).mqtt_enabled
            &&& o.mqtt_enabled == Some("false"@) ==> !c.under(o).mqtt_enabled
            &&& o.mqtt_enabled != Some("true"@) && o.mqtt_enabled != Some("false"@)
                ==> c.under(o).mqtt_enabled == c.mqtt_enabled
        },
        c.under(o).log_file == c.log_file,
        c.under(o).max_log_files == c.max_log_files,
        c.under(o).bridge_enabled == c.bridge_enabled,
        c.under(o).bridge_token == c.bridge_token,
{
    if o.web_enabled is Some {
        text::law_truth_values(o.web_enabled->0);
    }
    if o.no_ansi is Some {
        text::law_truth_values(o.no_ansi->0);
    }
    if o.mqtt_enabled is Some {
        text::law_truth_values(o.mqtt_enabled->0);
    }
    text::law_truth_values("true"@);
    text::law_truth_values("false"@);
}

/// A port that is written in decimal is the port that is used, that of the web panel for the
/// panel and that of the broker for the broker; without one the port stays as it was.
pub proof fn law_port_is_used(c: AppView, o: OverridesView, port: u16)
    ensures
        o.web_port == Some(text::decimal(port as nat)) ==> c.under(o).web_port == port,
        o.mqtt_port == Some(text::decimal(port as nat)) ==> c.under(o).mqtt_port == port,
        o.web_port is None ==> c.under(o).web_port == c.web_port,
        o.mqtt_port is None ==> c.under(o).mqtt_port == c.mqtt_port,
        o.web_port is Some && text::decimal_value(o.web_port->0) is None ==> c.under(o).web_port
            == c.web_port,
        o.mqtt_port is Some && text::decimal_value(o.mqtt_port->0) is None ==> c.under(o).mqtt_port
            == c.mqtt_port,
        o.web_port is Some && text::decimal_value(o.web_port->0) is Some && text::decimal_value(
            o.web_port->0,
        )->0 >= 65536 ==> c.under(o).web_port == c.web_port,
        o.mqtt_port is Some && text::decimal_value(o.mqtt_port->0) is Some && text::decimal_value(
            o.mqtt_port->0,
        )->0 >= 65536 ==> c.under(o).mqtt_port == c.mqtt_port,
{
    text::law_decimal_reads_back(port as nat);
}

/// The configuration of one who says nothing: a dongle that is found, the panel on its usual
/// port, no broker and no other machine, the usual topics, a quiet log with colours.
pub proof fn law_plain_configuration()
    ensures
        ({
            let c = AppView::plain();
            &&& c.dongle == "auto"@
            &&& c.web_enabled && c.web_port == 8080
            &&& !c.mqtt_enabled && c.mqtt_host is None && c.mqtt_port == 1883
            &&& c.mqtt_username is None && c.mqtt_password is None
            &&& c.self_topic_root == "wyzesense2mqtt"@
            &&& c.hass_topic_root == "homeassistant"@
            &&& c.log_level == "info"@ && c.log_file is None && c.max_log_files == 7 && !c.no_ansi
            &&& !c.bridge_enabled && c.bridge_token is None
        }),
{
}

/// A word names the level that is called like it; any other word means `info`.
pub proof fn law_levels_by_name(word: Seq<char>)
    ensures
        level_of(word) is Trace <==> word == "trace"@,
        level_of(word) is Debug <==> word == "debug"@,
        level_of(word) is Warn <==> word == "warn"@,
        level_of(word) is Error <==> word == "error"@,
        level_of("info"@) is Info,
{
    reveal_strlit("trace");
    reveal_strlit("debug");
    reveal_strlit("info");
    reveal_strlit("warn");
    reveal_strlit("error");
    assert("trace"@.len() == 5 && "trace"@[0] == 't');
    assert("debug"@.len() == 5 && "debug"@[0] == 'd');
    assert("error"@.len() == 5 && "error"@[0] == 'e');
    assert("info"@.len() == 4 && "info"@[0] == 'i');
    assert("warn"@.len() == 4 && "warn"@[0] == 'w');
}

/// `auto` asks for a dongle to be found and `none` for no dongle at all; anything else is the
/// path of the dongle.
pub proof fn law_choice_of_dongle(c: DongleChoice, lower: Seq<char>, dongle: Seq<char>)
    requires
        makes_choice(c, lower, dongle),
    ensures
        c is Auto <==> lower == "auto"@,
        c is Remote <==> lower == "none"@,
        lower != "auto"@ && lower != "none"@ ==> c is Path && c->Path_0@ == dongle,
{
    reveal_strlit("auto");
    reveal_strlit("none");
    assert("auto"@[0] == 'a' && "none"@[0] == 'n');
}

/// Nobody connects while that is not enabled; without a token everybody does, and with one
/// only who shows exactly it.
pub proof fn law_token_is_asked_for(c: BridgeConfig, token: Option<Seq<char>>)
    ensures
        !c.enabled ==> !c.admitting(token),
        c.enabled && c.auth_token is None ==> c.admitting(token),
        c.enabled && c.auth_token is Some ==> (c.admitting(token) <==> token is Some && token->0
            == c.auth_token->0@),
{
}

/// What stands in a configuration is what its model shows, field by field.
pub proof fn law_model_of_a_configuration(c: AppConfig)
    ensures
        c@.dongle == c.usb.dongle@,
        c@.web_enabled == c.web.enabled,
        c@.web_port == c.web.port,
        c@.mqtt_enabled == c.mqtt.enabled,
        c@.mqtt_host == text::option_view(c.mqtt.host),
        c@.mqtt_port == c.mqtt.port,
        c@.mqtt_username == text::option_view(c.mqtt.username),
        c@.mqtt_password == text::option_view(c.mqtt.password),
        c@.self_topic_root == c.mqtt.self_topic_root@,
        c@.hass_topic_root == c.mqtt.hass_topic_root@,
        c@.log_level == c.logging.level@,
        c@.log_file == text::option_view(c.logging.log_file),
        c@.max_log_files == c.logging.max_log_files,
        c@.no_ansi == c.logging.no_ansi,
        c@.bridge_enabled == c.bridge.enabled,
        c@.bridge_token == text::option_view(c.bridge.auth_token),
{
}

/// What stands in overrides is what their model shows, field by field.
pub proof fn law_model_of_overrides(o: Overrides)
    ensures
        o@.usb_dongle == text::option_view(o.usb_dongle),
        o@.web_enabled == text::option_view(o.web_enabled),
        o@.web_port == text::option_view(o.web_port),
        o@.mqtt_enabled == text::option_view(o.mqtt_enabled),
        o@.mqtt_host == text::option_view(o.mqtt_host),
        o@.mqtt_port == text::option_view(o.mqtt_port),
        o@.mqtt_username == text::option_view(o.mqtt_username),
        o@.mqtt_password == text::option_view(o.mqtt_password),
        o@.self_topic_root == text::option_view(o.self_topic_root),
        o@.hass_topic_root == text::option_view(o.hass_topic_root),
        o@.log_level == text::option_view(o.log_level),
        o@.no_ansi == text::option_view(o.no_ansi),
{
}

/// From the command line to the broker: with a user and a password on the command line, these
/// are what the bridge logs in with, each in its place; with only one of them and nothing
/// elsewhere it does not log in.
pub proof fn law_login_of_the_command_line(c: AppView, args: Seq<Seq<char>>, i: int, j: int)
    requires
        values_stand(args),
        stands_first(args, i, "--mqtt-user"@, "--mqtt-user"@),
        stands_first(args, j, "--mqtt-password"@, "--mqtt-password"@),
    ensures
        ({
            let after = c.under(command_line(args));
            &&& login(after.mqtt_username, after.mqtt_password) == Some((args[i + 1], args[j + 1]))
            &&& login(after.mqtt_username, None) is None
            &&& login(None, after.mqtt_password) is None
        }),
{
    law_option_says_the_word_behind_it(args, i);
    law_option_says_the_word_behind_it(args, j);
}

} // verus!
