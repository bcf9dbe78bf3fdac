//! The configuration and the command line.
use wyzesense2mqtt_rs::cli::{
    intercept, logs_to_remove, read_plain_options, read_subcommand, strip_arg_bool,
    strip_arg_string, subcommand_word, Intercept, MissingArgument, OptionError, Subcommand,
};
use wyzesense2mqtt_rs::config::app_config::{
    default_false, default_true, read_level, read_options, AppConfig, BridgeConfig, DongleChoice,
    LogLevel, LoggingConfig, MqttConfig, Overrides, UsbConfig,
};
use wyzesense2mqtt_rs::order::{is_at_most, sort_texts};

fn words(s: &[&str]) -> Vec<String> {
    s.iter().map(|x| x.to_string()).collect()
}

fn nothing() -> Overrides {
    Overrides {
        usb_dongle: None,
        web_enabled: None,
        web_port: None,
        mqtt_enabled: None,
        mqtt_host: None,
        mqtt_port: None,
        mqtt_username: None,
        mqtt_password: None,
        self_topic_root: None,
        hass_topic_root: None,
        log_level: None,
        no_ansi: None,
    }
}

fn some(s: &str) -> Option<String> {
    Some(s.to_string())
}

// --- Configuration ---

#[test]
fn the_defaults() {
    let c = AppConfig::load(None, &nothing());
    assert_eq!(c, AppConfig::default());
    assert_eq!(c.usb.dongle, "auto");
    assert!(c.web.enabled);
    assert_eq!(c.web.port, 8080);
    assert!(!c.mqtt.enabled);
    assert_eq!(c.mqtt.host, None);
    assert_eq!(c.mqtt.port, 1883);
    assert_eq!(c.mqtt.self_topic_root, "wyzesense2mqtt");
    assert_eq!(c.mqtt.hass_topic_root, "homeassistant");
    assert_eq!(c.logging.level, "info");
    assert_eq!(c.logging.log_file, None);
    assert_eq!(c.logging.max_log_files, 7);
    assert!(!c.logging.no_ansi);
    assert!(!c.bridge.enabled);
    assert!(default_true() && !default_false());
}

#[test]
fn the_environment_goes_over_the_file() {
    let mut file = AppConfig::default();
    file.web.port = 9000;
    file.mqtt.port = 1884;
    file.logging.max_log_files = 3;
    let mut env = nothing();
    env.usb_dongle = some("/dev/hidraw3");
    env.web_enabled = some("false");
    env.web_port = some("70000");
    env.mqtt_port = some("+1999");
    env.mqtt_host = some("broker");
    env.mqtt_enabled = some("false");
    env.mqtt_username = some("u");
    env.mqtt_password = some("p");
    env.self_topic_root = some("s");
    env.hass_topic_root = some("h");
    env.log_level = some("DEBUG");
    env.no_ansi = some("true");
    let c = AppConfig::load(Some(file), &env);
    assert_eq!(c.usb.dongle, "/dev/hidraw3");
    assert!(!c.web.enabled);
    assert_eq!(c.web.port, 9000);
    assert_eq!(c.mqtt.port, 1999);
    assert_eq!(c.mqtt.host.as_deref(), Some("broker"));
    assert!(c.mqtt.enabled);
    assert_eq!(c.mqtt.username.as_deref(), Some("u"));
    assert_eq!(c.mqtt.password.as_deref(), Some("p"));
    assert_eq!(c.mqtt.self_topic_root, "s");
    assert_eq!(c.mqtt.hass_topic_root, "h");
    assert_eq!(c.logging.log_level(), LogLevel::Debug);
    assert_eq!(c.logging.max_log_files, 3);
    assert!(c.logging.no_ansi);
}

#[test]
fn the_command_line_goes_over_the_environment() {
    let mut env = nothing();
    env.usb_dongle = some("/dev/hidraw3");
    env.log_level = some("warn");
    let mut args = words(&[
        "prog", "-d", "none", "list", "--no-ansi", "-p", "81", "--config", "c.yaml", "-l",
    ]);
    let options = read_options(&mut args);
    assert_eq!(args, words(&["prog", "list", "-l"]));
    assert_eq!(options.config_path.as_deref(), Some("c.yaml"));
    let c = AppConfig::load(None, &env).apply(&options.overrides);
    assert_eq!(c.usb.choice(), DongleChoice::Remote);
    assert_eq!(c.web.port, 81);
    assert_eq!(c.logging.level, "warn");
    assert!(c.logging.no_ansi);
}

#[test]
fn words_that_are_no_flags_change_nothing() {
    let mut o = nothing();
    for w in ["True", "1", "yes", ""] {
        o.web_enabled = some(w);
        assert!(AppConfig::load(None, &o).web.enabled);
    }
}

#[test]
fn the_template_is_a_configuration() {
    let t = AppConfig::to_template_string();
    assert!(t.starts_with("# Wyze Sense to MQTT Bridge"));
    assert!(t.contains("\nusb:\n  dongle: \"auto\"\n"));
    assert!(t.contains("\n  self_topic_root: \"wyzesense2mqtt\"\n"));
    assert!(t.ends_with("  # max_log_files: 7\n"));
}

#[test]
fn levels_and_choices() {
    for (w, l) in [
        ("trace", LogLevel::Trace),
        ("debug", LogLevel::Debug),
        ("info", LogLevel::Info),
        ("warn", LogLevel::Warn),
        ("error", LogLevel::Error),
        ("loud", LogLevel::Info),
        ("ERROR", LogLevel::Info),
    ] {
        assert_eq!(read_level(w), l);
    }
    let mut logging = LoggingConfig::default();
    logging.level = "ERROR".to_string();
    assert_eq!(logging.log_level(), LogLevel::Error);
    assert_eq!(UsbConfig { dongle: "AUTO".to_string() }.choice(), DongleChoice::Auto);
    assert_eq!(UsbConfig { dongle: "None".to_string() }.choice(), DongleChoice::Remote);
    assert_eq!(
        UsbConfig { dongle: "/dev/X".to_string() }.choice(),
        DongleChoice::Path("/dev/X".to_string())
    );
}

#[test]
fn tokens_admit_other_machines() {
    let closed = BridgeConfig::default();
    assert!(!closed.admits(&None));
    let open = BridgeConfig { enabled: true, auth_token: None };
    assert!(open.admits(&None) && open.admits(&some("x")));
    let guarded = BridgeConfig { enabled: true, auth_token: some("t") };
    assert!(guarded.admits(&some("t")));
    assert!(!guarded.admits(&some("T")));
    assert!(!guarded.admits(&None));
}

// --- Command line ---

#[test]
fn options_are_taken_out() {
    let mut args = words(&["prog", "--config", "a", "x", "-c", "b"]);
    assert_eq!(strip_arg_string(&mut args, "--config", "-c"), some("a"));
    assert_eq!(args, words(&["prog", "x", "-c", "b"]));
    assert_eq!(strip_arg_string(&mut args, "--other", "-o"), None);
    assert_eq!(args.len(), 4);
    let mut last = words(&["prog", "-c"]);
    assert_eq!(strip_arg_string(&mut last, "--config", "-c"), None);
    assert_eq!(last, words(&["prog", "-c"]));
    let mut flags = words(&["--no-ansi", "x"]);
    assert!(strip_arg_bool(&mut flags, "--no-ansi"));
    assert!(!strip_arg_bool(&mut flags, "--no-ansi"));
    assert_eq!(flags, words(&["x"]));
}

#[test]
fn help_goes_before_the_version() {
    assert_eq!(intercept(&words(&["prog", "list", "-h", "-V"])), Intercept::Help);
    assert_eq!(intercept(&words(&["prog", "help"])), Intercept::Help);
    assert_eq!(intercept(&words(&["prog", "version"])), Intercept::Version);
    assert_eq!(intercept(&words(&["prog", "--version"])), Intercept::Version);
    assert_eq!(intercept(&words(&["prog", "Help", "-v"])), Intercept::Nothing);
}

#[test]
fn subcommands_are_read() {
    assert_eq!(subcommand_word(&words(&["prog"])), None);
    assert_eq!(subcommand_word(&words(&["prog", "LIST", "x"])), some("list"));
    assert_eq!(read_subcommand("list", &[]), Ok(Subcommand::List));
    assert_eq!(read_subcommand("pair", &[]), Ok(Subcommand::Pair));
    assert_eq!(read_subcommand("fix", &[]), Ok(Subcommand::Fix));
    let m = words(&["AABBCCDD"]);
    assert_eq!(read_subcommand("unpair", &m), Ok(Subcommand::Unpair("AABBCCDD".to_string())));
    assert_eq!(read_subcommand("chime", &m), Ok(Subcommand::Chime("AABBCCDD".to_string())));
    assert_eq!(read_subcommand("raw", &m), Ok(Subcommand::Raw("AABBCCDD".to_string())));
    assert_eq!(read_subcommand("dance", &m), Ok(Subcommand::Unknown("dance".to_string())));
    assert_eq!(read_subcommand("unpair", &[]), Err(MissingArgument::Mac));
    assert_eq!(read_subcommand("chime", &[]), Err(MissingArgument::Mac));
    assert_eq!(read_subcommand("raw", &[]), Err(MissingArgument::Bytes));
    assert_eq!(MissingArgument::Mac.message(true), "Missing sensor MAC address argument");
    assert_eq!(MissingArgument::Mac.message(false), "Missing MAC address");
    assert_eq!(
        MissingArgument::Bytes.message(true),
        "Missing comma-separated hex bytes string argument"
    );
    assert_eq!(
        MissingArgument::Bytes.message(false),
        "Missing comma-separated hex bytes argument"
    );
}

#[test]
fn plain_options_are_read() {
    let names = [("--device", "-d"), ("--gateway", "-g")];
    assert_eq!(
        read_plain_options(&words(&["p", "-g", "u", "--device", "a", "-d", "b"]), &names),
        Ok(vec![some("b"), some("u")])
    );
    assert_eq!(read_plain_options(&words(&["p"]), &names), Ok(vec![None, None]));
    assert_eq!(read_plain_options(&[], &names), Ok(vec![None, None]));
    assert_eq!(
        read_plain_options(&words(&["p", "--gateway"]), &names),
        Err(OptionError::MissingValue(1))
    );
    assert_eq!(read_plain_options(&words(&["p", "-h"]), &names), Err(OptionError::Help));
    assert_eq!(
        read_plain_options(&words(&["p", "-d", "-h", "x"]), &names),
        Err(OptionError::Unknown("x".to_string()))
    );
}

#[test]
fn the_oldest_logs_go() {
    let names = words(&[
        "app.2024-05-03.log",
        "app.2024-05-01.log",
        "other.log",
        "app.log",
        "app.2024-05-02.log",
        "app.2024-05-02.txt",
    ]);
    assert_eq!(logs_to_remove(&names, "app", "log", 2), words(&["app.2024-05-01.log"]));
    assert_eq!(
        logs_to_remove(&names, "app", "log", 0),
        words(&["app.2024-05-01.log", "app.2024-05-02.log", "app.2024-05-03.log"])
    );
    assert!(logs_to_remove(&names, "app", "log", 3).is_empty());
}

#[test]
fn texts_have_an_order() {
    assert_eq!(sort_texts(words(&["b", "", "ab", "a", "Ä", "B"])), words(&["", "B", "a", "ab", "b", "Ä"]));
    assert!(is_at_most("a", "a") && is_at_most("a", "aa") && !is_at_most("aa", "a"));
}

#[test]
fn credentials_are_both_or_none() {
    let mut c = MqttConfig::default();
    assert_eq!(c.credentials(), None);
    c.username = Some("u".to_string());
    assert_eq!(c.credentials(), None);
    c.password = Some("p".to_string());
    assert_eq!(c.credentials(), Some(("u", "p")));
    c.username = None;
    assert_eq!(c.credentials(), None);
}
