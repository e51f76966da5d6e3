use starship::configs::cmd_duration::CmdDurationConfig;
use starship::modules::cmd_duration::{
    add_terminal_notification, in_graphical_session, map_style, module, undistract_me,
    Notification, OscType,
};
use starship::utils::render_time;

fn notifying_config<'a>() -> CmdDurationConfig<'a> {
    CmdDurationConfig {
        min_time: 1000,
        show_notifications: true,
        min_time_to_notify: 2000,
        ..CmdDurationConfig::default()
    }
}

/// How a three-second command is announced in `term_program` on Linux.
fn announce(config: &CmdDurationConfig, term_program: &str) -> Notification {
    let duration = module(config, Some(3000)).unwrap();
    assert_eq!(duration, "3s");
    let rendered = format!("took {} ", duration);
    undistract_me(config, 3000, &rendered, Some(term_program), true, false, true)
}

#[test]
fn config_blank_duration_1s() {
    let actual = module(&CmdDurationConfig::default(), Some(1000));
    let expected = None;
    assert_eq!(expected, actual);
}

#[test]
fn config_blank_duration_5s() {
    let config = CmdDurationConfig::default();
    let actual = module(&config, Some(5000));
    assert_eq!(actual, Some("5s".to_owned()));
    assert_eq!(config.format, "took [$duration]($style) ");
    assert_eq!(map_style(&config, "style"), Some("yellow bold"));
}

#[test]
fn config_5s_duration_3s() {
    let config = CmdDurationConfig {
        min_time: 5000,
        ..CmdDurationConfig::default()
    };
    let actual = module(&config, Some(3000));
    let expected = None;
    assert_eq!(expected, actual);
}

#[test]
fn config_5s_duration_10s() {
    let config = CmdDurationConfig {
        min_time: 5000,
        ..CmdDurationConfig::default()
    };
    let actual = module(&config, Some(10000));
    assert_eq!(actual, Some("10s".to_owned()));
}

#[test]
fn config_1s_duration_prefix_underwent() {
    let config = CmdDurationConfig {
        format: "underwent [$duration]($style) ",
        ..CmdDurationConfig::default()
    };
    let actual = module(&config, Some(1000));
    let expected = None;
    assert_eq!(expected, actual);
}

#[test]
fn config_5s_duration_prefix_underwent() {
    let config = CmdDurationConfig {
        format: "underwent [$duration]($style) ",
        ..CmdDurationConfig::default()
    };
    let actual = module(&config, Some(5000));
    assert_eq!(actual, Some("5s".to_owned()));
    assert_eq!(config.format, "underwent [$duration]($style) ");
}

#[test]
fn config_notifications_wezterm() {
    let escape = "\x1b]777;notify;Command finished;Command execution took 3s \x1b\\";
    assert_eq!(
        announce(&notifying_config(), "WezTerm"),
        Notification::Terminal(escape.to_owned())
    );
}

#[test]
fn config_notifications_iterm2() {
    let escape = "\x1b]9;Command execution took 3s \x07";
    assert_eq!(
        announce(&notifying_config(), "iTerm.app"),
        Notification::Terminal(escape.to_owned())
    );
}

#[test]
fn config_notifications_kitty_linux() {
    let escape = "\x1b]99;i=1:d=0;Command execution took 3s \x1b\\";
    assert_eq!(
        announce(&notifying_config(), "kitty"),
        Notification::Terminal(escape.to_owned())
    );
}

#[test]
fn config_notifications_kitty_linux_with_timeout() {
    let config = CmdDurationConfig {
        notification_timeout: Some(5000),
        ..notifying_config()
    };
    let escape = "\x1b]99;i=1:d=5000;Command execution took 3s \x1b\\";
    assert_eq!(announce(&config, "kitty"), Notification::Terminal(escape.to_owned()));
}

#[test]
fn config_notifications_ghostty() {
    let escape = "\x1b]777;notify;Command finished;Command execution took 3s \x1b\\";
    assert_eq!(
        announce(&notifying_config(), "ghostty"),
        Notification::Terminal(escape.to_owned())
    );
}

#[test]
fn config_notifications_unsupported_terminal() {
    // Unsupported terminals should not get OSC sequences (no escape sequence)
    let actual = announce(&notifying_config(), "UnsupportedTerminal");
    assert!(!matches!(actual, Notification::Terminal(_)));
}

#[test]
fn kitty_elsewhere_uses_osc_777() {
    assert_eq!(
        add_terminal_notification(Some("kitty"), "x", Some(7), false),
        Some("\x1b]777;notify;Command finished;x\x1b\\".to_owned())
    );
    assert_eq!(add_terminal_notification(None, "x", None, true), None);
    assert_eq!(
        add_terminal_notification(Some("WarpTerminal"), "x", None, true),
        Some(OscType::Osc777.format("x", None))
    );
}

#[test]
fn native_notification_fallback() {
    let config = notifying_config();
    // Below the notification threshold nothing is announced at all.
    assert_eq!(
        undistract_me(&config, 1500, "took 1s500ms ", Some("WezTerm"), true, true, true),
        Notification::Nothing
    );
    // With notifications switched off nothing is announced either.
    assert_eq!(
        undistract_me(&CmdDurationConfig::default(), 3000, "took 3s ", Some("xterm"), false, true, true),
        Notification::Nothing
    );
    assert_eq!(
        undistract_me(&config, 3000, "took 3s ", Some("xterm"), true, false, true),
        Notification::Nothing
    );
    assert_eq!(
        undistract_me(&config, 3000, "took 3s ", Some("xterm"), false, false, true),
        Notification::Native
    );
    assert_eq!(
        undistract_me(&config, 3000, "took 3s ", Some("xterm"), false, false, false),
        Notification::Nothing
    );
    assert!(in_graphical_session(None, Some(":1"), None));
    assert!(!in_graphical_session(Some(""), None, Some("")));
}

#[test]
fn negative_min_time_hides_module() {
    let config = CmdDurationConfig {
        min_time: -1,
        ..CmdDurationConfig::default()
    };
    assert_eq!(module(&config, Some(100000)), None);
    assert_eq!(module(&CmdDurationConfig::default(), None), None);
}

#[test]
fn render_time_values() {
    assert_eq!(render_time(0, false), "0ms");
    assert_eq!(render_time(500, false), "500ms");
    assert_eq!(render_time(1000, false), "1s");
    assert_eq!(render_time(1500, false), "1s");
    assert_eq!(render_time(1500, true), "1s500ms");
    assert_eq!(render_time(60_000, false), "1m");
    assert_eq!(render_time(3_723_000, false), "1h2m3s");
    assert_eq!(render_time(90_061_001, true), "1d1h1m1s1ms");
}
