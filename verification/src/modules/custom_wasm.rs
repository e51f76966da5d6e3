//! The `custom_wasm` prompt module: a module whose values come from a
//! WebAssembly component. The library decides whether the component is to be
//! run and how its answers are used; running it is the caller's work.
use vstd::prelude::*;
use crate::config::Either;
use crate::configs::custom_wasm::CustomWasmConfig;
use crate::text::{opt_str_view, opt_view, str_eq, trim, trim_str};

verus! {

/// Whether the configured `os` lets the module run on `current_os`: no `os`
/// is set, it names the running system, or it is `unix` on a Unix system.
pub open spec fn os_allows(os: Option<&str>, current_os: Seq<char>, is_unix: bool) -> bool {
    match os {
        None => true,
        Some(o) => o@ == current_os || (o@ == "unix"@ && is_unix),
    }
}

/// Whether no detection criteria are configured: no files, extensions or
/// folders, and `when = false`. The component alone then decides.
pub open spec fn no_criteria(config: CustomWasmConfig) -> bool {
    &&& config.detect_files@.len() == 0
    &&& config.detect_extensions@.len() == 0
    &&& config.detect_folders@.len() == 0
    &&& config.when == Either::<bool, &str>::First(false)
}

/// What a call into the component gave back.
#[derive(Debug, PartialEq, Clone, Copy)]
pub enum ComponentAnswer<T> {
    /// The component answered.
    Value(T),
    /// The component answered with an error of its own.
    GuestError,
    /// The call itself failed: the component trapped or ran out of time.
    CallFailed,
}

/// What has just been found out about the module's surroundings.
#[derive(Debug, PartialEq, Clone, Copy)]
pub enum WasmGateEvent {
    /// Nothing yet.
    Start,
    /// Whether the current directory is in a repository.
    RepoChecked(bool),
    /// Whether the detection files, extensions or folders match, or `None`
    /// when the directory cannot be scanned.
    Scanned(Option<bool>),
    /// Whether the `when` command succeeded.
    WhenRan(bool),
    /// Whether the component file was found, loaded and instantiated.
    Loaded(bool),
    /// What the component's `is-enabled` gave back.
    EnabledAnswered(ComponentAnswer<bool>),
}

/// What is to happen next.
#[derive(Debug, PartialEq, Clone, Copy)]
pub enum WasmGateAction<'a> {
    /// The module does not show.
    Skip,
    /// Find out whether the current directory is in a repository.
    CheckRepo,
    /// Scan the directory for the detection files, extensions and folders.
    Scan,
    /// Run the `when` command.
    RunWhen(&'a str),
    /// Load the component from `wasm_path` and ask it.
    LoadComponent,
    /// Call the component's `is-enabled`.
    AskEnabled,
    /// Render the format with the values that the component gives.
    Render,
}

/// The step after the repository requirement is met: an empty `wasm_path`
/// rules the module out, and without detection criteria the component decides.
pub open spec fn after_repo_check<'a>(config: CustomWasmConfig<'a>) -> WasmGateAction<'a> {
    if config.wasm_path@.len() == 0 {
        WasmGateAction::Skip
    } else if no_criteria(config) {
        WasmGateAction::LoadComponent
    } else {
        WasmGateAction::Scan
    }
}

/// The cheap checks made before the component is touched, one event at a time.
pub open spec fn gate<'a>(
    config: CustomWasmConfig<'a>,
    current_os: Seq<char>,
    is_unix: bool,
    event: WasmGateEvent,
) -> WasmGateAction<'a> {
    match event {
        WasmGateEvent::Start => if config.disabled || !os_allows(config.os, current_os, is_unix) {
            WasmGateAction::Skip
        } else if config.require_repo {
            WasmGateAction::CheckRepo
        } else {
            after_repo_check(config)
        },
        WasmGateEvent::RepoChecked(in_repo) => if !in_repo {
            WasmGateAction::Skip
        } else {
            after_repo_check(config)
        },
        WasmGateEvent::Scanned(None) => WasmGateAction::Skip,
        WasmGateEvent::Scanned(Some(true)) => WasmGateAction::LoadComponent,
        WasmGateEvent::Scanned(Some(false)) => match config.when {
            Either::First(b) => if b {
                WasmGateAction::LoadComponent
            } else {
                WasmGateAction::Skip
            },
            Either::Second(cmd) => WasmGateAction::RunWhen(cmd),
        },
        WasmGateEvent::WhenRan(ok) => if ok {
            WasmGateAction::LoadComponent
        } else {
            WasmGateAction::Skip
        },
        WasmGateEvent::Loaded(ok) => if ok {
            WasmGateAction::AskEnabled
        } else {
            WasmGateAction::Skip
        },
        WasmGateEvent::EnabledAnswered(answer) => if answer == ComponentAnswer::Value(true) {
            WasmGateAction::Render
        } else {
            WasmGateAction::Skip
        },
    }
}

fn after_repo<'a>(config: &CustomWasmConfig<'a>) -> (r: WasmGateAction<'a>)
    ensures
        r == after_repo_check(*config),
{
    if config.wasm_path.is_empty() {
        return WasmGateAction::Skip;
    }
    let none = config.detect_files.len() == 0 && config.detect_extensions.len() == 0
        && config.detect_folders.len() == 0 && match config.when {
        Either::First(b) => !b,
        Either::Second(_) => false,
    };
    if none {
        WasmGateAction::LoadComponent
    } else {
        WasmGateAction::Scan
    }
}

/// Decides, one event at a time, whether the WebAssembly component is to be
/// loaded (see `gate`).
pub fn module<'a>(
    config: &CustomWasmConfig<'a>,
    current_os: &str,
    is_unix: bool,
    event: WasmGateEvent,
) -> (r: WasmGateAction<'a>)
    ensures
        r == gate(*config, current_os@, is_unix, event),
{
    match event {
        WasmGateEvent::Start => {
            if config.disabled {
                return WasmGateAction::Skip;
            }
            match config.os {
                Some(os) => {
                    if !str_eq(os, current_os) && !(str_eq(os, "unix") && is_unix) {
                        return WasmGateAction::Skip;
                    }
                },
                None => {},
            }
            if config.require_repo {
                WasmGateAction::CheckRepo
            } else {
                after_repo(config)
            }
        },
        WasmGateEvent::RepoChecked(in_repo) => if !in_repo {
            WasmGateAction::Skip
        } else {
            after_repo(config)
        },
        WasmGateEvent::Scanned(None) => WasmGateAction::Skip,
        WasmGateEvent::Scanned(Some(true)) => WasmGateAction::LoadComponent,
        WasmGateEvent::Scanned(Some(false)) => match config.when {
            Either::First(b) => if b {
                WasmGateAction::LoadComponent
            } else {
                WasmGateAction::Skip
            },
            Either::Second(cmd) => WasmGateAction::RunWhen(cmd),
        },
        WasmGateEvent::WhenRan(ok) => if ok {
            WasmGateAction::LoadComponent
        } else {
            WasmGateAction::Skip
        },
        WasmGateEvent::Loaded(ok) => if ok {
            WasmGateAction::AskEnabled
        } else {
            WasmGateAction::Skip
        },
        WasmGateEvent::EnabledAnswered(answer) => match answer {
            ComponentAnswer::Value(true) => WasmGateAction::Render,
            _ => WasmGateAction::Skip,
        },
    }
}

/// What the component's `map-meta` gave for a meta variable: `None` when the
/// call failed, which rules the whole module out; otherwise the value it
/// named, if any (an error of the component's own names none).
pub fn meta_answer(answer: ComponentAnswer<Option<String>>) -> (r: Option<Option<String>>)
    ensures
        r == match answer {
            ComponentAnswer::Value(v) => Some(v),
            ComponentAnswer::GuestError => Some(None),
            ComponentAnswer::CallFailed => None,
        },
{
    match answer {
        ComponentAnswer::Value(v) => Some(v),
        ComponentAnswer::GuestError => Some(None),
        ComponentAnswer::CallFailed => None,
    }
}

/// The text of a meta variable: what the component gave for it, else
/// `$symbol` is the configured symbol.
pub fn map_meta<'a>(component_value: Option<&'a str>, variable: &str, symbol: &'a str) -> (r: Option<
    &'a str,
>)
    ensures
        r == match component_value {
            Some(v) => Some(v),
            None => if variable@ == "symbol"@ {
                Some(symbol)
            } else {
                None
            },
        },
{
    match component_value {
        Some(v) => Some(v),
        None => if str_eq(variable, "symbol") {
            Some(symbol)
        } else {
            None
        },
    }
}

/// The style of a style variable: what the component gave for it; when it
/// gave none, `$style` is the configured style; when the call or the
/// component failed, there is none.
pub fn map_style(answer: ComponentAnswer<Option<String>>, variable: &str, style: &str) -> (r: Option<
    String,
>)
    ensures
        opt_view(r) == match answer {
            ComponentAnswer::Value(Some(v)) => Some(v@),
            ComponentAnswer::Value(None) => if variable@ == "style"@ {
                Some(style@)
            } else {
                None
            },
            _ => None,
        },
{
    match answer {
        ComponentAnswer::Value(Some(v)) => Some(v),
        ComponentAnswer::Value(None) => if str_eq(variable, "style") {
            Some(style.to_owned())
        } else {
            None
        },
        _ => None,
    }
}

/// The value of a variable from what the component gave for it: trimmed, and
/// nothing when that leaves no text, when it gave none, or when the call or
/// the component failed.
pub fn map_value(answer: ComponentAnswer<Option<&str>>) -> (r: Option<String>)
    ensures
        opt_view(r) == match answer {
            ComponentAnswer::Value(Some(v)) => if trim(v@).len() > 0 {
                Some(trim(v@))
            } else {
                None
            },
            _ => None,
        },
{
    match answer {
        ComponentAnswer::Value(Some(v)) => {
            let t = trim_str(v);
            if t.is_empty() {
                None
            } else {
                Some(t.to_owned())
            }
        },
        _ => None,
    }
}

/// The shell that runs the `when` command and the arguments it is given:
/// the configured shell and its arguments, else `$STARSHIP_SHELL`, else `cmd`
/// on Windows and `sh` elsewhere.
pub fn get_shell<'a>(shell_args: &Vec<&'a str>, env_shell: Option<&str>, is_windows: bool) -> (r: (
    String,
    Vec<&'a str>,
))
    ensures
        shell_args@.len() > 0 ==> r.0@ == shell_args@[0]@ && r.1@ == shell_args@.drop_first(),
        shell_args@.len() == 0 ==> r.1@.len() == 0 && r.0@ == match env_shell {
            Some(e) => e@,
            None => if is_windows {
                "cmd"@
            } else {
                "sh"@
            },
        },
{
    if shell_args.len() > 0 {
        let mut rest: Vec<&'a str> = Vec::new();
        let mut k: usize = 1;
        while k < shell_args.len()
            invariant
                1 <= k <= shell_args.len(),
                rest@ == shell_args@.subrange(1, k as int),
            decreases shell_args.len() - k,
        {
            rest.push(shell_args[k]);
            assert(rest@ =~= shell_args@.subrange(1, k + 1));
            k = k + 1;
        }
        assert(rest@ =~= shell_args@.drop_first());
        (shell_args[0].to_owned(), rest)
    } else {
        match env_shell {
            Some(e) => (e.to_owned(), Vec::new()),
            None => if is_windows {
                ("cmd".to_owned(), Vec::new())
            } else {
                ("sh".to_owned(), Vec::new())
            },
        }
    }
}

/// The shells that take a command in a particular way, by the file stem of
/// the shell's path.
pub open spec fn is_powershell(stem: Option<&str>) -> bool {
    stem is Some && (stem->0@ == "pwsh"@ || stem->0@ == "powershell"@)
}

pub open spec fn is_cmd(stem: Option<&str>) -> bool {
    stem is Some && stem->0@ == "cmd"@
}

pub open spec fn is_nu(stem: Option<&str>) -> bool {
    stem is Some && stem->0@ == "nu"@
}

/// How a shell takes the command: the arguments to add, and whether it reads
/// the command from its input (`true`) or takes it as an argument (`false`).
/// PowerShell reads it from its input (`-NoProfile -Command -`), `cmd` takes it
/// after `/C` and `nu` after `-c`; these arguments are added only when no
/// shell arguments are configured. Other shells read it from their input.
pub fn handle_shell(shell_stem: Option<&str>, no_args: bool) -> (r: (Vec<&'static str>, bool))
    ensures
        is_powershell(shell_stem) ==> r.1 && r.0@ == if no_args {
            seq!["-NoProfile", "-Command", "-"]
        } else {
            Seq::empty()
        },
        is_cmd(shell_stem) ==> !r.1 && r.0@ == if no_args {
            seq!["/C"]
        } else {
            Seq::empty()
        },
        is_nu(shell_stem) ==> !r.1 && r.0@ == if no_args {
            seq!["-c"]
        } else {
            Seq::empty()
        },
        !is_powershell(shell_stem) && !is_cmd(shell_stem) && !is_nu(shell_stem) ==> r.1
            && r.0@.len() == 0,
{
    proof {
        reveal_strlit("pwsh");
        reveal_strlit("powershell");
        reveal_strlit("cmd");
        reveal_strlit("nu");
        assert("pwsh"@.len() == 4 && "powershell"@.len() == 10 && "cmd"@.len() == 3 && "nu"@.len()
            == 2);
    }
    let stem = match shell_stem {
        Some(s) => s,
        None => return (Vec::new(), true),
    };
    if str_eq(stem, "pwsh") || str_eq(stem, "powershell") {
        if no_args {
            (vec!["-NoProfile", "-Command", "-"], true)
        } else {
            (Vec::new(), true)
        }
    } else if str_eq(stem, "cmd") {
        if no_args {
            (vec!["/C"], false)
        } else {
            (Vec::new(), false)
        }
    } else if str_eq(stem, "nu") {
        if no_args {
            (vec!["-c"], false)
        } else {
            (Vec::new(), false)
        }
    } else {
        (Vec::new(), true)
    }
}

/// The program that runs the `when` command.
#[derive(Debug, PartialEq, Clone, Copy)]
pub enum ShellProgram {
    /// The shell chosen by `get_shell`.
    Chosen,
    /// A fallback shell, started with one argument before the shell arguments.
    Fallback { program: &'static str, first_arg: &'static str },
}

/// Which program runs the `when` command, and whether it reads the command
/// from its input, `None` leaving that to `handle_shell`. A chosen shell that
/// cannot be found is replaced by `cmd /C` on Windows and `/usr/bin/env sh`
/// elsewhere (reading from its input there) when no shell was configured, that
/// is when the shell arguments are empty; a shell that the user named is never
/// replaced, and the command then cannot run.
pub fn shell_command_plan(
    shell_found: bool,
    shell_args_empty: bool,
    configured_use_stdin: Option<bool>,
    is_windows: bool,
) -> (r: Option<(ShellProgram, Option<bool>)>)
    ensures
        shell_found ==> r == Some((ShellProgram::Chosen, configured_use_stdin)),
        !shell_found && !shell_args_empty ==> r is None,
        !shell_found && shell_args_empty ==> r == Some(
            (
                if is_windows {
                    ShellProgram::Fallback { program: "cmd", first_arg: "/C" }
                } else {
                    ShellProgram::Fallback { program: "/usr/bin/env", first_arg: "sh" }
                },
                Some(!is_windows),
            ),
        ),
{
    if shell_found {
        Some((ShellProgram::Chosen, configured_use_stdin))
    } else if shell_args_empty {
        if is_windows {
            Some((ShellProgram::Fallback { program: "cmd", first_arg: "/C" }, Some(false)))
        } else {
            Some((ShellProgram::Fallback { program: "/usr/bin/env", first_arg: "sh" }, Some(true)))
        }
    } else {
        None
    }
}

/// Whether the `when` command succeeded: it could be run and exited with success.
pub fn exec_when(exit_success: Option<bool>) -> (r: bool)
    ensures
        r == (exit_success == Some(true)),
{
    match exit_success {
        Some(ok) => ok,
        None => false,
    }
}

/// The most memory, in bytes, that a component may use.
pub const WASM_MEMORY_LIMIT: usize = 67108864;

/// How long the component may run.
#[derive(Debug, PartialEq, Clone, Copy)]
pub struct WasmLimits {
    /// The epoch deadline set on the component's store: the component traps
    /// once the engine's epoch has been advanced this many times.
    pub epoch_deadline: u64,
    /// After how many milliseconds the engine's epoch is advanced, if ever.
    pub interrupt_after_ms: Option<u64>,
    /// The most memory, in bytes, that the component may use.
    pub memory_limit: usize,
}

/// The limits a component runs under: unless `ignore_timeout` is set, it is
/// interrupted once `command_timeout` milliseconds have passed; its memory is
/// bounded by 64 MiB in any case.
pub fn wasm_limits(ignore_timeout: bool, command_timeout: u64) -> (r: WasmLimits)
    ensures
        r.memory_limit == 64 * 1024 * 1024,
        ignore_timeout ==> r.epoch_deadline == u64::MAX && r.interrupt_after_ms is None,
        !ignore_timeout ==> r.epoch_deadline == 1 && r.interrupt_after_ms == Some(command_timeout),
{
    if ignore_timeout {
        WasmLimits { epoch_deadline: u64::MAX, interrupt_after_ms: None, memory_limit: WASM_MEMORY_LIMIT }
    } else {
        WasmLimits {
            epoch_deadline: 1,
            interrupt_after_ms: Some(command_timeout),
            memory_limit: WASM_MEMORY_LIMIT,
        }
    }
}

/// How long the `when` command may run, in milliseconds: `command_timeout`,
/// unless `ignore_timeout` is set.
pub fn command_time_limit(ignore_timeout: bool, command_timeout: u64) -> (r: Option<u64>)
    ensures
        r == if ignore_timeout {
            None
        } else {
            Some(command_timeout)
        },
{
    if ignore_timeout {
        None
    } else {
        Some(command_timeout)
    }
}

// ---------------------------------------------------------------------------
// Laws
/// A disabled module, or one whose `os` is not the running system, is never
/// run: not even its repository or detection checks are made.
pub proof fn lemma_disabled_or_other_os_skips(
    config: CustomWasmConfig,
    current_os: Seq<char>,
    is_unix: bool,
)
    requires
        config.disabled || !os_allows(config.os, current_os, is_unix),
    ensures
        gate(config, current_os, is_unix, WasmGateEvent::Start) == WasmGateAction::Skip,
{
}

/// Without a `wasm_path` no component is loaded and no directory is scanned,
/// whatever the repository check found.
pub proof fn lemma_empty_path_loads_nothing(
    config: CustomWasmConfig,
    current_os: Seq<char>,
    is_unix: bool,
    in_repo: bool,
)
    requires
        config.wasm_path@.len() == 0,
    ensures
        gate(config, current_os, is_unix, WasmGateEvent::Start) == WasmGateAction::Skip || gate(
            config,
            current_os,
            is_unix,
            WasmGateEvent::Start,
        ) == WasmGateAction::CheckRepo,
        gate(config, current_os, is_unix, WasmGateEvent::RepoChecked(in_repo))
            == WasmGateAction::Skip,
{
}

/// With no detection criteria configured, the component alone decides: it
/// is loaded without scanning the directory or running `when`.
pub proof fn lemma_component_alone_decides(
    config: CustomWasmConfig,
    current_os: Seq<char>,
    is_unix: bool,
)
    requires
        !config.disabled,
        os_allows(config.os, current_os, is_unix),
        !config.require_repo,
        config.wasm_path@.len() > 0,
        no_criteria(config),
    ensures
        gate(config, current_os, is_unix, WasmGateEvent::Start) == WasmGateAction::LoadComponent,
{
}

/// Once the component is loaded, it decides: the module is rendered exactly
/// when `is-enabled` answered `true`; an answer of `false`, an error of the
/// component or a failed call leaves it out. A component that could not be
/// loaded leaves it out as well.
pub proof fn lemma_component_enabled_decides(
    config: CustomWasmConfig,
    current_os: Seq<char>,
    is_unix: bool,
    answer: ComponentAnswer<bool>,
)
    ensures
        gate(config, current_os, is_unix, WasmGateEvent::Loaded(false)) == WasmGateAction::Skip,
        gate(config, current_os, is_unix, WasmGateEvent::Loaded(true))
            == WasmGateAction::AskEnabled,
        (gate(config, current_os, is_unix, WasmGateEvent::EnabledAnswered(answer))
            == WasmGateAction::Render) <==> answer == ComponentAnswer::Value(true),
        gate(config, current_os, is_unix, WasmGateEvent::EnabledAnswered(answer))
            != WasmGateAction::Render ==> gate(
            config,
            current_os,
            is_unix,
            WasmGateEvent::EnabledAnswered(answer),
        ) == WasmGateAction::Skip,
{
}

/// The `when` command decides when the detection files, extensions and
/// folders did not match: the component is loaded exactly when the command
/// succeeded; a configured `when = true` loads it without running anything,
/// and `when = false` leaves the module out.
pub proof fn lemma_when_decides(
    config: CustomWasmConfig,
    current_os: Seq<char>,
    is_unix: bool,
    succeeded: bool,
)
    ensures
        (gate(config, current_os, is_unix, WasmGateEvent::WhenRan(succeeded))
            == WasmGateAction::LoadComponent) <==> succeeded,
        !succeeded ==> gate(config, current_os, is_unix, WasmGateEvent::WhenRan(succeeded))
            == WasmGateAction::Skip,
        config.when == Either::<bool, &str>::First(true) ==> gate(
            config,
            current_os,
            is_unix,
            WasmGateEvent::Scanned(Some(false)),
        ) == WasmGateAction::LoadComponent,
        config.when == Either::<bool, &str>::First(false) ==> gate(
            config,
            current_os,
            is_unix,
            WasmGateEvent::Scanned(Some(false)),
        ) == WasmGateAction::Skip,
        config.when matches Either::Second(cmd) ==> gate(
            config,
            current_os,
            is_unix,
            WasmGateEvent::Scanned(Some(false)),
        ) == WasmGateAction::RunWhen(cmd),
        gate(config, current_os, is_unix, WasmGateEvent::Scanned(Some(true)))
            == WasmGateAction::LoadComponent,
{
}

/// The checks before the component, in their order: a disabled module or
/// one configured for another system never shows; otherwise a required
/// repository is checked first and its absence leaves the module out; then
/// an empty `wasm_path` leaves it out, detection criteria are scanned for
/// when any are configured, and without any the component is loaded; a
/// directory that cannot be scanned leaves the module out.
pub proof fn lemma_gate_order(
    config: CustomWasmConfig,
    current_os: Seq<char>,
    is_unix: bool,
)
    ensures
        config.disabled ==> gate(config, current_os, is_unix, WasmGateEvent::Start)
            == WasmGateAction::Skip,
        (config.os matches Some(o) && o@ != current_os && !(o@ == "unix"@ && is_unix)) ==> gate(
            config,
            current_os,
            is_unix,
            WasmGateEvent::Start,
        ) == WasmGateAction::Skip,
        (!config.disabled && (config.os is None || config.os->0@ == current_os || (
        config.os->0@ == "unix"@ && is_unix)) && config.require_repo) ==> gate(
            config,
            current_os,
            is_unix,
            WasmGateEvent::Start,
        ) == WasmGateAction::CheckRepo,
        gate(config, current_os, is_unix, WasmGateEvent::RepoChecked(false))
            == WasmGateAction::Skip,
        (!config.disabled && (config.os is None || config.os->0@ == current_os || (
        config.os->0@ == "unix"@ && is_unix)) && !config.require_repo) ==> gate(
            config,
            current_os,
            is_unix,
            WasmGateEvent::Start,
        ) == gate(config, current_os, is_unix, WasmGateEvent::RepoChecked(true)),
        config.wasm_path@.len() == 0 ==> gate(
            config,
            current_os,
            is_unix,
            WasmGateEvent::RepoChecked(true),
        ) == WasmGateAction::Skip,
        (config.wasm_path@.len() > 0 && (config.detect_files@.len() > 0
            || config.detect_extensions@.len() > 0 || config.detect_folders@.len() > 0
            || config.when != Either::<bool, &str>::First(false))) ==> gate(
            config,
            current_os,
            is_unix,
            WasmGateEvent::RepoChecked(true),
        ) == WasmGateAction::Scan,
        (config.wasm_path@.len() > 0 && config.detect_files@.len() == 0
            && config.detect_extensions@.len() == 0 && config.detect_folders@.len() == 0
            && config.when == Either::<bool, &str>::First(false)) ==> gate(
            config,
            current_os,
            is_unix,
            WasmGateEvent::RepoChecked(true),
        ) == WasmGateAction::LoadComponent,
        gate(config, current_os, is_unix, WasmGateEvent::Scanned(None)) == WasmGateAction::Skip,
{
}

} // verus!
