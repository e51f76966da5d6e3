use starship::config::Either;
use starship::configs::custom_wasm::CustomWasmConfig;
use starship::modules::custom_wasm::{
    command_time_limit, exec_when, get_shell, handle_shell, map_meta, map_style, map_value,
    meta_answer, module, shell_command_plan, wasm_limits, ComponentAnswer, ShellProgram,
    WasmGateAction, WasmGateEvent,
};

#[test]
fn test_disabled() {
    let config = CustomWasmConfig {
        disabled: true,
        wasm_path: "/tmp/test.wasm",
        ..CustomWasmConfig::default()
    };
    assert_eq!(module(&config, "linux", true, WasmGateEvent::Start), WasmGateAction::Skip);
}

#[test]
fn test_missing_wasm_path() {
    let config = CustomWasmConfig {
        disabled: false,
        wasm_path: "",
        ..CustomWasmConfig::default()
    };
    assert_eq!(module(&config, "linux", true, WasmGateEvent::Start), WasmGateAction::Skip);
}

#[test]
fn gate_steps() {
    let config = CustomWasmConfig {
        wasm_path: "/tmp/m.wasm",
        ..CustomWasmConfig::default()
    };
    // No detection criteria: the component alone decides.
    assert_eq!(module(&config, "linux", true, WasmGateEvent::Start), WasmGateAction::LoadComponent);
    let other_os = CustomWasmConfig { os: Some("windows"), ..config.clone() };
    assert_eq!(module(&other_os, "linux", true, WasmGateEvent::Start), WasmGateAction::Skip);
    let unix = CustomWasmConfig { os: Some("unix"), ..config.clone() };
    assert_eq!(module(&unix, "linux", true, WasmGateEvent::Start), WasmGateAction::LoadComponent);
    assert_eq!(module(&unix, "windows", false, WasmGateEvent::Start), WasmGateAction::Skip);
    let repo = CustomWasmConfig { require_repo: true, ..config.clone() };
    assert_eq!(module(&repo, "linux", true, WasmGateEvent::Start), WasmGateAction::CheckRepo);
    assert_eq!(module(&repo, "linux", true, WasmGateEvent::RepoChecked(false)), WasmGateAction::Skip);
    let detect = CustomWasmConfig {
        detect_files: vec!["Cargo.toml"],
        when: Either::Second("test -e x"),
        ..config.clone()
    };
    assert_eq!(module(&detect, "linux", true, WasmGateEvent::Start), WasmGateAction::Scan);
    assert_eq!(
        module(&detect, "linux", true, WasmGateEvent::Scanned(Some(true))),
        WasmGateAction::LoadComponent
    );
    assert_eq!(
        module(&detect, "linux", true, WasmGateEvent::Scanned(Some(false))),
        WasmGateAction::RunWhen("test -e x")
    );
    assert_eq!(module(&detect, "linux", true, WasmGateEvent::Scanned(None)), WasmGateAction::Skip);
    assert_eq!(module(&detect, "linux", true, WasmGateEvent::WhenRan(false)), WasmGateAction::Skip);
    let when_true = CustomWasmConfig { when: Either::First(true), ..config.clone() };
    assert_eq!(module(&when_true, "linux", true, WasmGateEvent::Start), WasmGateAction::Scan);
    assert_eq!(
        module(&when_true, "linux", true, WasmGateEvent::Scanned(Some(false))),
        WasmGateAction::LoadComponent
    );
}

#[test]
fn component_values() {
    assert_eq!(map_value(ComponentAnswer::Value(Some("  WASM[user] \n"))), Some("WASM[user]".to_owned()));
    assert_eq!(map_value(ComponentAnswer::Value(Some("   "))), None);
    assert_eq!(map_value(ComponentAnswer::Value(None)), None);
    assert_eq!(map_value(ComponentAnswer::GuestError), None);
    assert_eq!(map_value(ComponentAnswer::CallFailed), None);
    assert_eq!(map_meta(Some("🦀"), "symbol", "🧩 "), Some("🦀"));
    assert_eq!(map_meta(None, "symbol", "🧩 "), Some("🧩 "));
    assert_eq!(map_meta(None, "other", "🧩 "), None);
    assert_eq!(map_style(ComponentAnswer::Value(None), "style", "bold blue"), Some("bold blue".to_owned()));
    assert_eq!(
        map_style(ComponentAnswer::Value(Some("red".to_owned())), "style", "bold blue"),
        Some("red".to_owned())
    );
    assert_eq!(map_style(ComponentAnswer::Value(None), "x", "bold blue"), None);
    assert_eq!(map_style(ComponentAnswer::GuestError, "style", "bold blue"), None);
    assert_eq!(map_style(ComponentAnswer::CallFailed, "style", "bold blue"), None);
    assert_eq!(meta_answer(ComponentAnswer::Value(Some("v".to_owned()))), Some(Some("v".to_owned())));
    assert_eq!(meta_answer(ComponentAnswer::Value(None)), Some(None));
    assert_eq!(meta_answer(ComponentAnswer::GuestError), Some(None));
    assert_eq!(meta_answer(ComponentAnswer::CallFailed), None);
}

#[test]
fn component_decides_once_loaded() {
    let config = CustomWasmConfig {
        wasm_path: "/tmp/m.wasm",
        ..CustomWasmConfig::default()
    };
    let step = |event| module(&config, "linux", true, event);
    assert_eq!(step(WasmGateEvent::Loaded(false)), WasmGateAction::Skip);
    assert_eq!(step(WasmGateEvent::Loaded(true)), WasmGateAction::AskEnabled);
    assert_eq!(
        step(WasmGateEvent::EnabledAnswered(ComponentAnswer::Value(true))),
        WasmGateAction::Render
    );
    assert_eq!(
        step(WasmGateEvent::EnabledAnswered(ComponentAnswer::Value(false))),
        WasmGateAction::Skip
    );
    assert_eq!(
        step(WasmGateEvent::EnabledAnswered(ComponentAnswer::GuestError)),
        WasmGateAction::Skip
    );
    assert_eq!(
        step(WasmGateEvent::EnabledAnswered(ComponentAnswer::CallFailed)),
        WasmGateAction::Skip
    );
}

#[test]
fn shells() {
    assert_eq!(get_shell(&vec!["bash", "--norc"], Some("zsh"), false), ("bash".to_owned(), vec!["--norc"]));
    assert_eq!(get_shell(&vec![], Some("zsh"), false), ("zsh".to_owned(), vec![]));
    assert_eq!(get_shell(&vec![], None, false), ("sh".to_owned(), vec![]));
    assert_eq!(get_shell(&vec![], None, true), ("cmd".to_owned(), vec![]));
    assert_eq!(handle_shell(Some("pwsh"), true), (vec!["-NoProfile", "-Command", "-"], true));
    assert_eq!(handle_shell(Some("powershell"), false), (vec![], true));
    assert_eq!(handle_shell(Some("cmd"), true), (vec!["/C"], false));
    assert_eq!(handle_shell(Some("nu"), true), (vec!["-c"], false));
    assert_eq!(handle_shell(Some("bash"), true), (vec![], true));
    assert_eq!(handle_shell(None, true), (vec![], true));
    assert!(exec_when(Some(true)));
    assert!(!exec_when(Some(false)));
    assert!(!exec_when(None));
}

#[test]
fn shell_fallbacks_and_limits() {
    assert_eq!(shell_command_plan(true, true, Some(false), false), Some((ShellProgram::Chosen, Some(false))));
    assert_eq!(shell_command_plan(false, false, None, false), None);
    assert_eq!(shell_command_plan(false, false, Some(true), true), None);
    assert_eq!(
        shell_command_plan(false, true, None, false),
        Some((ShellProgram::Fallback { program: "/usr/bin/env", first_arg: "sh" }, Some(true)))
    );
    assert_eq!(
        shell_command_plan(false, true, Some(true), true),
        Some((ShellProgram::Fallback { program: "cmd", first_arg: "/C" }, Some(false)))
    );
    let limited = wasm_limits(false, 500);
    assert_eq!(limited.epoch_deadline, 1);
    assert_eq!(limited.interrupt_after_ms, Some(500));
    assert_eq!(limited.memory_limit, 64 * 1024 * 1024);
    let unlimited = wasm_limits(true, 500);
    assert_eq!(unlimited.epoch_deadline, u64::MAX);
    assert_eq!(unlimited.interrupt_after_ms, None);
    assert_eq!(command_time_limit(false, 500), Some(500));
    assert_eq!(command_time_limit(true, 500), None);
}
