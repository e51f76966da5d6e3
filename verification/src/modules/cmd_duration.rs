//! The `cmd_duration` prompt module: how long the last command took, and the
//! notification that a long command sends when it finishes.
use vstd::prelude::*;
use crate::configs::cmd_duration::CmdDurationConfig;
use crate::text::{opt_str_view, str_eq};
use crate::utils::{decimal, push_decimal, render_time, render_time_text, time_component};

verus! {

/// Whether the module shows for a command that took `elapsed` milliseconds:
/// the minimum is not negative and the command took at least that long.
pub open spec fn shows(config: CmdDurationConfig, elapsed: Option<u128>) -> bool {
    config.min_time >= 0 && elapsed is Some && elapsed->0 >= config.min_time
}

/// Outputs the time it took the last command to execute.
///
/// Shows only if the last command took at least `min_time` milliseconds; the
/// result is the rendered duration that the format's `$duration` stands for.
pub fn module(config: &CmdDurationConfig, elapsed: Option<u128>) -> (r: Option<String>)
    ensures
        r is Some <==> shows(*config, elapsed),
        r matches Some(d) ==> d@ == render_time_text(elapsed->0 as nat, config.show_milliseconds),
{
    if config.min_time < 0 {
        return None;
    }
    let elapsed = match elapsed {
        Some(e) => e,
        None => return None,
    };
    let config_min = config.min_time as u128;
    if elapsed < config_min {
        return None;
    }
    Some(render_time(elapsed, config.show_milliseconds))
}

/// The style of a style variable of the format: `$style` is the configured style.
pub fn map_style<'a>(config: &CmdDurationConfig<'a>, variable: &str) -> (r: Option<&'a str>)
    ensures
        r == if variable@ == "style"@ {
            Some(config.style)
        } else {
            None
        },
{
    if str_eq(variable, "style") {
        Some(config.style)
    } else {
        None
    }
}

/// The escape sequences by which terminals show notifications.
#[derive(Debug, PartialEq, Clone, Copy)]
pub enum OscType {
    /// iTerm2.
    Osc9,
    /// Ghostty, WezTerm, Foot, urxvt, Warp, and kitty away from Linux.
    Osc777,
    /// kitty on Linux.
    Osc99,
}

/// The escape sequence that shows `body` as a notification.
pub open spec fn osc_text(osc: OscType, body: Seq<char>, timeout_ms: Option<u32>) -> Seq<char> {
    match osc {
        OscType::Osc9 => "\x1b]9;"@ + body + "\x07"@,
        OscType::Osc777 => "\x1b]777;notify;Command finished;"@ + body + "\x1b\\"@,
        OscType::Osc99 => "\x1b]99;i=1:d="@ + decimal(
            match timeout_ms {
                Some(t) => t as nat,
                None => 0,
            },
        ) + ";"@ + body + "\x1b\\"@,
    }
}

impl OscType {
    pub fn format(&self, body: &str, timeout_ms: Option<u32>) -> (r: String)
        ensures
            r@ == osc_text(*self, body@, timeout_ms),
    {
        match self {
            OscType::Osc9 => {
                let mut out = "\x1b]9;".to_owned();
                out.append(body);
                out.append("\x07");
                out
            },
            OscType::Osc777 => {
                let mut out = "\x1b]777;notify;Command finished;".to_owned();
                out.append(body);
                out.append("\x1b\\");
                out
            },
            OscType::Osc99 => {
                let mut out = "\x1b]99;i=1:d=".to_owned();
                let t: u32 = match timeout_ms {
                    Some(t) => t,
                    None => 0,
                };
                push_decimal(&mut out, t as u128);
                out.append(";");
                out.append(body);
                out.append("\x1b\\");
                out
            },
        }
    }
}

/// The notification escape a terminal understands, by `$TERM_PROGRAM`: only
/// the terminals known to support one get it.
pub open spec fn osc_for(term_program: Seq<char>, on_linux: bool) -> Option<OscType> {
    if term_program == "iTerm.app"@ {
        Some(OscType::Osc9)
    } else if term_program == "ghostty"@ || term_program == "WezTerm"@ || term_program
        == "WarpTerminal"@ {
        Some(OscType::Osc777)
    } else if term_program == "kitty"@ {
        if on_linux {
            Some(OscType::Osc99)
        } else {
            Some(OscType::Osc777)
        }
    } else {
        None
    }
}

/// The terminal program from `$TERM_PROGRAM`, empty when unset.
pub open spec fn term_program_text(term_program: Option<&str>) -> Seq<char> {
    match opt_str_view(term_program) {
        Some(t) => t,
        None => Seq::empty(),
    }
}

fn osc_type(term_program: &str, on_linux: bool) -> (r: Option<OscType>)
    ensures
        r == osc_for(term_program@, on_linux),
{
    if str_eq(term_program, "iTerm.app") {
        Some(OscType::Osc9)
    } else if str_eq(term_program, "ghostty") || str_eq(term_program, "WezTerm") || str_eq(
        term_program,
        "WarpTerminal",
    ) {
        Some(OscType::Osc777)
    } else if str_eq(term_program, "kitty") {
        if on_linux {
            Some(OscType::Osc99)
        } else {
            Some(OscType::Osc777)
        }
    } else {
        None
    }
}

/// The control sequence that makes the terminal show `body` as a
/// notification, or `None` when the terminal is not one that supports it (a
/// native notification is then the fallback).
pub fn add_terminal_notification(
    term_program: Option<&str>,
    body: &str,
    timeout_ms: Option<u32>,
    on_linux: bool,
) -> (r: Option<String>)
    ensures
        r is Some <==> osc_for(term_program_text(term_program), on_linux) is Some,
        r matches Some(seq) ==> seq@ == osc_text(
            osc_for(term_program_text(term_program), on_linux)->0,
            body@,
            timeout_ms,
        ),
{
    let term = match term_program {
        Some(t) => t,
        None => "",
    };
    proof {
        reveal_strlit("");
        assert(term@ =~= term_program_text(term_program));
    }
    match osc_type(term, on_linux) {
        Some(osc) => Some(osc.format(body, timeout_ms)),
        None => None,
    }
}

/// Whether a graphical session is running: one of `$DISPLAY`,
/// `$WAYLAND_DISPLAY` and `$MIR_SOCKET` is set and not empty.
pub fn in_graphical_session(display: Option<&str>, wayland_display: Option<&str>, mir_socket: Option<
    &str,
>) -> (r: bool)
    ensures
        r == ((display is Some && display->0@.len() > 0) || (wayland_display is Some
            && wayland_display->0@.len() > 0) || (mir_socket is Some && mir_socket->0@.len() > 0)),
{
    let set = |v: Option<&str>| -> (b: bool)
        ensures
            b == (v is Some && v->0@.len() > 0),
        {
            match v {
                Some(s) => !s.is_empty(),
                None => false,
            }
        };
    set(display) || set(wayland_display) || set(mir_socket)
}

/// How the end of a long command is announced.
#[derive(Debug, PartialEq, Clone)]
pub enum Notification {
    /// A control sequence appended to the module, shown by the terminal.
    Terminal(String),
    /// A notification sent through the desktop's notification service.
    Native,
    /// No notification.
    Nothing,
}

/// Whether a notification is due: they are enabled and the command took at
/// least `min_time_to_notify` milliseconds.
pub open spec fn notification_due(config: CmdDurationConfig, elapsed: u128) -> bool {
    config.show_notifications && (config.min_time_to_notify as u128) <= elapsed
}

/// Decides how a command that took `elapsed` milliseconds is announced, given
/// the module's rendered text without styles.
///
/// Nothing is announced unless a notification is due. Then, when the terminal
/// supports notification escapes, one is appended to the module; otherwise a
/// native notification is the fallback: on Linux only inside a graphical
/// session, and only when this build can send native notifications.
pub fn undistract_me(
    config: &CmdDurationConfig,
    elapsed: u128,
    rendered: &str,
    term_program: Option<&str>,
    on_linux: bool,
    graphical_session: bool,
    native_notifications: bool,
) -> (r: Notification)
    ensures
        (notification_due(*config, elapsed) && osc_for(term_program_text(term_program), on_linux) is Some)
            ==> (r matches Notification::Terminal(seq) && seq@ == osc_text(
            osc_for(term_program_text(term_program), on_linux)->0,
            "Command execution "@ + rendered@,
            config.notification_timeout,
        )),
        !notification_due(*config, elapsed) ==> r == Notification::Nothing,
        (notification_due(*config, elapsed) && osc_for(term_program_text(term_program), on_linux)
            is None) ==> r == if on_linux && !graphical_session {
            Notification::Nothing
        } else if !native_notifications {
            Notification::Nothing
        } else {
            Notification::Native
        },
{
    if !(config.show_notifications && config.min_time_to_notify as u128 <= elapsed) {
        return Notification::Nothing;
    }
    let mut body = "Command execution ".to_owned();
    body.append(rendered);
    match add_terminal_notification(
        term_program,
        body.as_str(),
        config.notification_timeout,
        on_linux,
    ) {
        Some(seq) => return Notification::Terminal(seq),
        None => {},
    }
    if on_linux && !graphical_session {
        return Notification::Nothing;
    }
    if !native_notifications {
        return Notification::Nothing;
    }
    Notification::Native
}

/// A command that took longer than one for which the module shows makes it
/// show too.
pub proof fn lemma_shows_monotone(config: CmdDurationConfig, shorter: u128, longer: u128)
    requires
        shows(config, Some(shorter)),
        shorter <= longer,
    ensures
        shows(config, Some(longer)),
{
}

/// A rendered duration is never empty.
pub proof fn lemma_rendered_time_not_empty(ms: nat, show_millis: bool)
    ensures
        render_time_text(ms, show_millis).len() > 0,
{
    reveal_strlit("0ms");
    reveal_strlit("d");
    reveal_strlit("h");
    reveal_strlit("m");
    reveal_strlit("s");
    reveal_strlit("ms");
    assert("0ms"@.len() == 3);
    if ms > 0 {
        let millis = ms % 1000;
        let raw_seconds = ms / 1000;
        let seconds = raw_seconds % 60;
        let raw_minutes = raw_seconds / 60;
        let minutes = raw_minutes % 60;
        let raw_hours = raw_minutes / 60;
        let hours = raw_hours % 24;
        let days = raw_hours / 24;
        assert(raw_seconds == 0 ==> millis == ms);
        assert(raw_seconds > 0 ==> (seconds > 0 || minutes > 0 || hours > 0 || days > 0)) by {
            if raw_seconds > 0 && seconds == 0 && minutes == 0 && hours == 0 {
                assert(raw_seconds == raw_minutes * 60);
                assert(raw_minutes == raw_hours * 60);
                assert(raw_hours == days * 24);
                assert(raw_hours > 0) by (nonlinear_arith)
                    requires
                        raw_seconds == raw_minutes * 60,
                        raw_minutes == raw_hours * 60,
                        raw_seconds > 0,
                ;
            }
        }
        let tail: Seq<char> = if show_millis || ms < 1000 {
            time_component(millis, "ms"@)
        } else {
            Seq::empty()
        };
        assert(render_time_text(ms, show_millis) == time_component(days, "d"@) + time_component(
            hours,
            "h"@,
        ) + time_component(minutes, "m"@) + time_component(seconds, "s"@) + tail);
        lemma_decimal_not_empty(days);
        lemma_decimal_not_empty(hours);
        lemma_decimal_not_empty(minutes);
        lemma_decimal_not_empty(seconds);
        lemma_decimal_not_empty(millis);
    }
}

proof fn lemma_decimal_not_empty(n: nat)
    ensures
        decimal(n).len() > 0,
    decreases n,
{
    if n >= 10 {
        lemma_decimal_not_empty(n / 10);
    }
}

/// The thresholds: a command that took exactly `min_time` shows and one that
/// took a millisecond less does not; nothing shows without a duration or
/// with a negative `min_time`. A notification is due for a command that took
/// exactly `min_time_to_notify`, not for a shorter one, and never while
/// notifications are off.
pub proof fn lemma_thresholds(config: CmdDurationConfig, elapsed: u128)
    ensures
        config.min_time >= 0 ==> shows(config, Some(config.min_time as u128)),
        config.min_time > 0 ==> !shows(config, Some((config.min_time - 1) as u128)),
        !shows(config, None),
        config.min_time < 0 ==> !shows(config, Some(elapsed)),
        config.show_notifications ==> notification_due(config, config.min_time_to_notify as u128),
        (config.min_time_to_notify as u128) > elapsed ==> !notification_due(config, elapsed),
        !config.show_notifications ==> !notification_due(config, elapsed),
{
}

} // verus!
