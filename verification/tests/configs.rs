use starship::config::Either;
use starship::configs::battery::BatteryConfig;
use starship::configs::c::CConfig;
use starship::configs::custom_wasm::CustomWasmConfig;
use starship::configs::gcloud::GcloudConfig;
use starship::configs::hg_branch::HgBranchConfig;
use starship::configs::java::JavaConfig;
use starship::configs::rust::RustConfig;

#[test]
fn rust_config_defaults() {
    let c = RustConfig::default();
    assert_eq!(c.format, "via [$symbol($version )]($style)");
    assert_eq!(c.version_format, "v${raw}");
    assert_eq!(c.detect_extensions, vec!["rs"]);
    assert_eq!(c.detect_files, vec!["Cargo.toml"]);
    assert!(c.detect_folders.is_empty());
    assert!(!c.disabled);
}

#[test]
fn documented_defaults() {
    let c = CConfig::default();
    assert_eq!(c.commands, vec![vec!["cc", "--version"], vec!["gcc", "--version"], vec!["clang", "--version"]]);
    assert_eq!(c.style, "149 bold");
    let j = JavaConfig::default();
    assert_eq!(
        j.detect_files,
        vec!["pom.xml", "build.gradle.kts", "build.sbt", ".java-version", "deps.edn", "project.clj", "build.boot"]
    );
    assert_eq!(j.style, "red dimmed");
    let b = BatteryConfig::default();
    assert_eq!(b.display.len(), 1);
    assert_eq!(b.display[0].threshold, 10);
    assert_eq!(b.display[0].style, "red bold");
    assert_eq!(HgBranchConfig::default().truncation_length, i64::MAX);
    assert!(GcloudConfig::default().region_aliases.is_empty());
    let w = CustomWasmConfig::default();
    assert_eq!(w.when, Either::First(false));
    assert!(w.shell.0.is_empty());
    assert_eq!(w.description, "Custom WASM module");
}
