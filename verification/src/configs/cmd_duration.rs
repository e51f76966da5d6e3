//! Settings of the `cmd_duration` module.
use vstd::prelude::*;

verus! {

#[derive(Clone)]
pub struct CmdDurationConfig<'a> {
    /// The shortest duration, in milliseconds, for which the module shows.
    pub min_time: i64,
    /// The format for the module.
    pub format: &'a str,
    /// Whether milliseconds are shown beside seconds.
    pub show_milliseconds: bool,
    /// The style for the module.
    pub style: &'a str,
    /// Disables the `cmd_duration` module.
    pub disabled: bool,
    /// Whether a notification is sent when a command finishes.
    pub show_notifications: bool,
    /// The shortest duration, in milliseconds, for which a notification is sent.
    pub min_time_to_notify: i64,
    /// How long, in milliseconds, a notification stays up.
    pub notification_timeout: Option<u32>,
}

impl<'a> Default for CmdDurationConfig<'a> {
    fn default() -> (r: Self)
        ensures
            r.min_time == 2_000,
            r.format@ == "took [$duration]($style) "@,
            r.show_milliseconds == false,
            r.style@ == "yellow bold"@,
            r.disabled == false,
            r.show_notifications == false,
            r.min_time_to_notify == 45_000,
            r.notification_timeout is None,
    {
        CmdDurationConfig {
            min_time: 2_000,
            format: "took [$duration]($style) ",
            show_milliseconds: false,
            style: "yellow bold",
            disabled: false,
            show_notifications: false,
            min_time_to_notify: 45_000,
            notification_timeout: None,
        }
    }
}

} // verus!
