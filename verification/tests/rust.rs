use starship::configs::rust::RustConfig;
use starship::modules::rust::{
    accept_channel, channel_text, default_host_triple_or_guess, env_rustup_toolchain,
    execute_rustc_version, execute_rustup_default, extract_toolchain_from_rustup_run_rustc_version,
    find_rust_toolchain_file, find_toolchain_dir, first_toolchain_entry, format_rustc_version, format_rustc_version_verbose,
    format_semver, format_toolchain, get_env_toolchain_override, get_module_numeric_version,
    get_module_version, get_rustc_verbose_version, get_rustup_rustc_version,
    get_toolchain_version, map_meta, overlapping_not_installed_text, map_style, map_variable, module, module_version_from_rustc,
    rustc_is_rustup_managed, scan_man_page_rust_version, scan_manifest_rust_version,
    version_from_man_page, version_from_manifest, ChannelText, OverrideSource, RustVariable,
    RustcQuery, RustcVersionFacts, RustcVersionQuery, RustupRunRustcVersionOutcome,
    RustupSettings, Step, ToolchainFileQuery, strip_dos_path, strip_dos_path_windows, ToolchainVersionFile, get_version_from_toolchain_dir,
};

fn settings_with_overrides(overrides: &[(&str, &str)]) -> RustupSettings {
    RustupSettings {
        default_host_triple: Some("x86_64-unknown-linux-gnu".to_owned()),
        default_toolchain: Some("stable".to_owned()),
        overrides: overrides
            .iter()
            .map(|(d, t)| (d.to_string(), t.to_string()))
            .collect(),
        version: Some("12".to_owned()),
    }
}

/// Rustup's settings read from the text of `settings.toml`, kept only in the
/// settings format that the module knows.
fn rustup_settings_from_toml_str(text: &str) -> Option<RustupSettings> {
    let table: toml::Table = toml::from_str(text).ok()?;
    let text_of = |key: &str| table.get(key).and_then(|v| v.as_str()).map(str::to_owned);
    let mut overrides = Vec::new();
    for (dir, toolchain) in table.get("overrides")?.as_table()? {
        overrides.push((dir.clone(), toolchain.as_str()?.to_owned()));
    }
    RustupSettings {
        default_host_triple: text_of("default_host_triple"),
        default_toolchain: text_of("default_toolchain"),
        overrides,
        version: text_of("version"),
    }
    .checked()
}

#[test]
fn test_rustup_settings_from_toml_value() {
    assert_eq!(
        rustup_settings_from_toml_str(
            r#"
default_host_triple = "x86_64-unknown-linux-gnu"
default_toolchain = "stable"
version = "12"

[overrides]
"/home/user/src/starship" = "1.40.0-x86_64-unknown-linux-gnu"
"#
        ),
        Some(RustupSettings {
            default_host_triple: Some("x86_64-unknown-linux-gnu".to_owned()),
            default_toolchain: Some("stable".to_owned()),
            overrides: vec![(
                "/home/user/src/starship".into(),
                "1.40.0-x86_64-unknown-linux-gnu".to_owned(),
            )],
            version: Some("12".to_string())
        }),
    );

    // Invalid or missing version key causes a failure
    assert_eq!(
        rustup_settings_from_toml_str(
            r#"
            default_host_triple = "x86_64-unknown-linux-gnu"
            default_toolchain = "stable"

            [overrides]
            "/home/user/src/starship" = "1.39.0-x86_64-unknown-linux-gnu"
        "#
        ),
        None,
    );
    let other = RustupSettings {
        version: Some("11".to_owned()),
        ..RustupSettings::default()
    };
    assert_eq!(other.checked(), None);
}

#[test]
fn test_override_matches_correct_directories() {
    let test_settings = settings_with_overrides(&[
        ("/home/user/src/a", "beta-x86_64-unknown-linux-gnu"),
        ("/home/user/src/b", "nightly-x86_64-unknown-linux-gnu"),
        ("/home/user/src/b/d c", "stable-x86_64-pc-windows-msvc"),
    ]);

    let overrides_cwd_a = "/home/user/src/a/src";
    let overrides_cwd_b = "/home/user/src/b/tests";
    let overrides_cwd_c = "/home/user/src/c/examples";
    let overrides_cwd_d = "/home/user/src/b/d c/spaces";
    let overrides_cwd_e = "/home/user/src/b_and_more";
    let overrides_cwd_f = "/home/user/src/b";

    let beta_toolchain = "beta-x86_64-unknown-linux-gnu";
    let nightly_toolchain = "nightly-x86_64-unknown-linux-gnu";
    let stable_toolchain = "stable-x86_64-pc-windows-msvc";

    assert_eq!(
        test_settings.lookup_override(overrides_cwd_a),
        Some(beta_toolchain.to_string())
    );
    assert_eq!(
        test_settings.lookup_override(overrides_cwd_b),
        Some(nightly_toolchain.to_string())
    );
    assert_eq!(test_settings.lookup_override(overrides_cwd_c), None);
    assert_eq!(
        test_settings.lookup_override(overrides_cwd_d),
        Some(stable_toolchain.to_string())
    );
    assert_eq!(test_settings.lookup_override(overrides_cwd_e), None);
    assert_eq!(
        test_settings.lookup_override(overrides_cwd_f),
        Some(nightly_toolchain.to_string())
    );
}

#[test]
fn test_extract_toolchain_from_override_with_dospath() {
    let test_settings = rustup_settings_from_toml_str(
        r#"
default_host_triple = "x86_64-unknown-linux-gnu"
default_toolchain = "stable"
version = "12"

[overrides]
"C:\\src1" = "beta-x86_64-unknown-linux-gnu"
"\\\\?\\C:\\src2" = "beta-x86_64-unknown-linux-gnu"
"#,
    )
    .unwrap();
    let overrides_cwd_a: &str = r"\\?\C:\src1";
    let overrides_cwd_b: &str = r"C:\src1";
    let overrides_cwd_c: &str = r"\\?\C:\src2";
    let overrides_cwd_d: &str = r"C:\src2";

    let beta_toolchain: &str = "beta-x86_64-unknown-linux-gnu";

    assert_eq!(
        test_settings.lookup_override_on(overrides_cwd_a, true),
        Some(beta_toolchain.to_string())
    );
    assert_eq!(
        test_settings.lookup_override_on(overrides_cwd_b, true),
        Some(beta_toolchain.to_string())
    );
    assert_eq!(
        test_settings.lookup_override_on(overrides_cwd_c, true),
        Some(beta_toolchain.to_string())
    );
    assert_eq!(
        test_settings.lookup_override_on(overrides_cwd_d, true),
        Some(beta_toolchain.to_string())
    );
}

#[test]
fn dos_paths_only_on_windows() {
    assert_eq!(strip_dos_path_windows(r"\\?\C:\src".to_owned()), r"C:\src".to_owned());
    assert_eq!(strip_dos_path_windows(r"C:\src".to_owned()), r"C:\src".to_owned());
    assert_eq!(strip_dos_path(r"\\?\C:\src".to_owned()), r"\\?\C:\src".to_owned());
    let settings = settings_with_overrides(&[(r"C:\src1", "beta")]);
    assert_eq!(settings.lookup_override_on(r"C:\src1\sub", true), Some("beta".to_owned()));
    assert_eq!(settings.lookup_override_on(r"C:\src10", true), None);
    // On Unix `\` is no separator.
    assert_eq!(settings.lookup_override(r"C:\src1\sub"), None);
    assert_eq!(settings.lookup_override_on(r"C:/src1/sub", true), Some("beta".to_owned()));
}

#[test]
fn lookup_override_compares_whole_components() {
    let settings = settings_with_overrides(&[("/a/b/", "one"), ("/a//b/c", "two")]);
    assert_eq!(settings.lookup_override("/a/b"), Some("one".to_string()));
    assert_eq!(settings.lookup_override("/a/b/./c/d"), Some("two".to_string()));
    assert_eq!(settings.lookup_override("/a/bc"), None);
    assert_eq!(settings.lookup_override("a/b"), None);
}

#[test]
fn test_extract_toolchain_from_rustup_run_rustc_version() {
    assert_eq!(
        extract_toolchain_from_rustup_run_rustc_version(true, b"rustc 1.34.0\n".to_vec(), vec![]),
        RustupRunRustcVersionOutcome::RustcVersion("rustc 1.34.0\n".to_owned()),
    );
    assert_eq!(
        extract_toolchain_from_rustup_run_rustc_version(
            false,
            vec![],
            b"error: toolchain 'channel-triple' is not installed\n".to_vec()
        ),
        RustupRunRustcVersionOutcome::ToolchainNotInstalled("channel-triple".to_owned()),
    );
    assert_eq!(
        extract_toolchain_from_rustup_run_rustc_version(true, b"\xc3\x28".to_vec(), vec![]),
        RustupRunRustcVersionOutcome::Error,
    );
    assert_eq!(
        extract_toolchain_from_rustup_run_rustc_version(false, vec![], b"\xc3\x28".to_vec()),
        RustupRunRustcVersionOutcome::Error,
    );
    assert_eq!(
        extract_toolchain_from_rustup_run_rustc_version(false, vec![], b"error:".to_vec()),
        RustupRunRustcVersionOutcome::Error,
    );
}

#[test]
fn extract_decodes_multibyte_output() {
    assert_eq!(
        extract_toolchain_from_rustup_run_rustc_version(true, "rustc é\n".as_bytes().to_vec(), vec![]),
        RustupRunRustcVersionOutcome::RustcVersion("rustc é\n".to_owned()),
    );
}

#[test]
fn test_format_rustc_version() {
    let config = RustConfig::default();
    let rustc_stable = "rustc 1.34.0 (91856ed52 2019-04-10)";
    let rustc_beta = "rustc 1.34.0-beta.1 (2bc1d406d 2019-04-10)";
    let rustc_nightly = "rustc 1.34.0-nightly (b139669f3 2019-04-10)";
    assert_eq!(
        format_rustc_version(rustc_nightly, config.version_format),
        Some("v1.34.0-nightly".to_string())
    );
    assert_eq!(
        format_rustc_version(rustc_beta, config.version_format),
        Some("v1.34.0-beta.1".to_string())
    );
    assert_eq!(
        format_rustc_version(rustc_stable, config.version_format),
        Some("v1.34.0".to_string())
    );
    assert_eq!(
        format_rustc_version("rustc 1.34.0", config.version_format),
        Some("v1.34.0".to_string())
    );
}

#[test]
fn format_rustc_version_with_other_formats() {
    let line = "rustc 1.34.2 (91856ed52 2019-04-10)";
    assert_eq!(format_rustc_version(line, "${major}.${minor}"), Some("1.34".to_string()));
    assert_eq!(format_rustc_version(line, "$patch!"), Some("2!".to_string()));
    assert_eq!(format_rustc_version("rustc 7", "$major-$minor-$patch"), Some("7--".to_string()));
    // A format that cannot be used falls back to `v<version>`.
    assert_eq!(format_rustc_version(line, "[$raw](bold)"), Some("v1.34.2".to_string()));
    assert_eq!(format_rustc_version(line, "$"), Some("v1.34.2".to_string()));
    assert_eq!(format_rustc_version("rustc", "v${raw}"), None);
    assert_eq!(format_rustc_version("", "v${raw}"), None);
}

/// The toolchain a toolchain file names, read as the program reads it.
fn read_toolchain_file(contents: &str, only_toml: bool) -> Option<String> {
    let channel = match channel_text(contents, only_toml) {
        ChannelText::Nothing => None,
        ChannelText::Whole(text) => Some(text.to_owned()),
        ChannelText::Toml => toml::from_str::<toml::Table>(contents)
            .ok()?
            .get("toolchain")?
            .get("channel")?
            .as_str()
            .map(str::to_owned),
    };
    accept_channel(channel.as_deref())
}

/// Searches for a toolchain file from a directory with `dir_count`
/// directories up to the root, among `files` given as (levels up, name, contents).
fn search_toolchain_files(dir_count: usize, files: &[(usize, &str, &str)]) -> Option<String> {
    let mut answers: Vec<Option<String>> = Vec::new();
    loop {
        match find_rust_toolchain_file(dir_count, &answers) {
            Step::Done(toolchain) => return toolchain,
            Step::Ask(query) => {
                let name = if query.toml { "rust-toolchain.toml" } else { "rust-toolchain" };
                let contents = files
                    .iter()
                    .find(|(up, n, _)| *up == query.up && *n == name)
                    .map(|f| f.2);
                answers.push(contents.and_then(|c| read_toolchain_file(c, query.toml)));
            },
        }
    }
}

#[test]
fn test_find_rust_toolchain_file() {
    let toml_text = "[toolchain]\nchannel = \"1.34.0\"";
    let toml_lines = "\n\n[toolchain]\n\n\nchannel = \"1.34.0\"";
    let found = Some("1.34.0".to_owned());
    // `rust-toolchain` with toolchain in one line, in toml format, with new lines
    assert_eq!(search_toolchain_files(3, &[(0, "rust-toolchain", "1.34.0")]), found);
    assert_eq!(search_toolchain_files(3, &[(0, "rust-toolchain", toml_text)]), found);
    assert_eq!(search_toolchain_files(3, &[(0, "rust-toolchain", toml_lines)]), found);
    // `rust-toolchain` in parent directory.
    assert_eq!(search_toolchain_files(4, &[(1, "rust-toolchain", toml_lines)]), found);
    // `rust-toolchain.toml` with toolchain in one line: this does not work.
    assert_eq!(search_toolchain_files(3, &[(0, "rust-toolchain.toml", "1.34.0")]), None);
    // `rust-toolchain.toml` in toml format, with new lines, in parent directory
    assert_eq!(search_toolchain_files(3, &[(0, "rust-toolchain.toml", toml_text)]), found);
    assert_eq!(search_toolchain_files(3, &[(0, "rust-toolchain.toml", toml_lines)]), found);
    assert_eq!(search_toolchain_files(4, &[(1, "rust-toolchain.toml", toml_lines)]), found);
    // The nearest directory wins, and `rust-toolchain` before `rust-toolchain.toml`.
    assert_eq!(
        search_toolchain_files(
            4,
            &[(1, "rust-toolchain", "nightly"), (0, "rust-toolchain.toml", toml_text)],
        ),
        found
    );
    assert_eq!(
        search_toolchain_files(
            4,
            &[(0, "rust-toolchain.toml", "[toolchain]\nchannel = \"beta\""), (0, "rust-toolchain", "1.34.0")],
        ),
        found
    );
    // No file anywhere up to the root.
    assert_eq!(search_toolchain_files(3, &[]), None);
    assert_eq!(search_toolchain_files(2, &[(2, "rust-toolchain", "1.34.0")]), None);

    // The order in which the files are asked for.
    assert_eq!(
        find_rust_toolchain_file(2, &vec![]),
        Step::Ask(ToolchainFileQuery { up: 0, toml: false })
    );
    assert_eq!(
        find_rust_toolchain_file(2, &vec![None]),
        Step::Ask(ToolchainFileQuery { up: 0, toml: true })
    );
    assert_eq!(
        find_rust_toolchain_file(2, &vec![None, None, None]),
        Step::Ask(ToolchainFileQuery { up: 1, toml: true })
    );
    assert_eq!(find_rust_toolchain_file(2, &vec![None; 4]), Step::Done(None));
    assert_eq!(
        find_rust_toolchain_file(2, &vec![None, Some("stable".to_owned())]),
        Step::Done(Some("stable".to_owned()))
    );

    // `rust-toolchain` with toolchain in one line
    let contents = "1.34.0";
    assert_eq!(channel_text(contents, false), ChannelText::Whole("1.34.0"));
    assert_eq!(accept_channel(Some(contents)), Some("1.34.0".to_owned()));

    // `rust-toolchain` in toml format, with and without blank lines
    for contents in [
        "[toolchain]\nchannel = \"1.34.0\"",
        "\n\n[toolchain]\n\n\nchannel = \"1.34.0\"",
    ] {
        assert_eq!(channel_text(contents, false), ChannelText::Toml);
        assert_eq!(channel_text(contents, true), ChannelText::Toml);
        let table: toml::Table = toml::from_str(contents).unwrap();
        let channel = table["toolchain"]["channel"].as_str();
        assert_eq!(accept_channel(channel), Some("1.34.0".to_owned()));
    }

    // `rust-toolchain.toml` with toolchain in one line: read as TOML, which
    // it is not, so it names no toolchain.
    assert_eq!(channel_text("1.34.0", true), ChannelText::Toml);
    assert!(toml::from_str::<toml::Table>("1.34.0").is_err());

    assert_eq!(channel_text("", false), ChannelText::Nothing);
    assert_eq!(accept_channel(Some("  \n")), None);
    assert_eq!(accept_channel(Some(" nightly\n")), Some("nightly".to_owned()));
    assert_eq!(accept_channel(None), None);
}

#[test]
fn test_find_rust_toolchain_file_rejects_relative_paths() {
    // Relative path with separator — must be rejected
    assert_eq!(channel_text("../some-toolchain", false), ChannelText::Whole("../some-toolchain"));
    assert_eq!(accept_channel(Some("../some-toolchain")), None);
    // Absolute path — must be accepted
    assert_eq!(
        accept_channel(Some("/opt/my-toolchain")),
        Some("/opt/my-toolchain".to_owned()),
    );
    // Plain channel name (no separator) — must be accepted
    assert_eq!(accept_channel(Some("stable")), Some("stable".to_owned()));
    assert_eq!(accept_channel(Some("./stable")), None);
    assert_eq!(accept_channel(Some("stable/")), Some("stable/".to_owned()));
    assert_eq!(search_toolchain_files(2, &[(0, "rust-toolchain", "../some-toolchain")]), None);
    assert_eq!(
        search_toolchain_files(2, &[(0, "rust-toolchain", "/opt/my-toolchain")]),
        Some("/opt/my-toolchain".to_owned())
    );
    assert_eq!(
        search_toolchain_files(2, &[(0, "rust-toolchain", "stable")]),
        Some("stable".to_owned())
    );
}

#[test]
fn test_format_rustc_version_verbose() {
    let stable = "rustc 1.40.0 (73528e339 2019-12-16)
binary: rustc
commit-hash: 73528e339aae0f17a15ffa49a8ac608f50c6cf14
commit-date: 2019-12-16
host: x86_64-unknown-linux-gnu
release: 1.40.0
LLVM version: 9.0
";
    let beta = "rustc 1.41.0-beta.1 (eb3f7c2d3 2019-12-17)
binary: rustc
commit-hash: eb3f7c2d3aec576f47eba854cfbd3c1187b8a2a0
commit-date: 2019-12-17
host: x86_64-unknown-linux-gnu
release: 1.41.0-beta.1
LLVM version: 9.0
";
    let nightly = "rustc 1.42.0-nightly (da3629b05 2019-12-29)
binary: rustc
commit-hash: da3629b05f8f1b425a738bfe9fe9aedd47c5417a
commit-date: 2019-12-29
host: x86_64-unknown-linux-gnu
release: 1.42.0-nightly
LLVM version: 9.0
";
    let check = |input: &str, toolchain: Option<&str>, expected: Option<(&str, &str)>| {
        assert_eq!(
            format_rustc_version_verbose(input, toolchain)
                .as_ref()
                .map(|(s1, s2)| (&**s1, &**s2)),
            expected,
        );
    };
    check(stable, None, Some(("v1.40.0", "x86_64-unknown-linux-gnu")));
    check(stable, Some("stable"), Some(("v1.40.0", "stable")));
    check(beta, None, Some(("v1.41.0", "x86_64-unknown-linux-gnu")));
    check(beta, Some("beta"), Some(("v1.41.0", "beta")));
    check(nightly, None, Some(("v1.42.0", "x86_64-unknown-linux-gnu")));
    check(nightly, Some("nightly"), Some(("v1.42.0", "nightly")));
    check("", None, None);
    check("", Some("stable"), None);
}

#[test]
fn verbose_version_takes_the_last_line_and_crlf() {
    let out = "release: 1.0.0\r\nhost: a\r\nrelease: release: 2.0.0-x\r\n";
    assert_eq!(
        format_rustc_version_verbose(out, None),
        Some(("v2.0.0".to_owned(), "a".to_owned()))
    );
    assert_eq!(format_rustc_version_verbose("release: 1.0.0\n", None), None);
}

#[test]
fn test_scan_manifest_rust_version_stable() {
    let manifest = r#"manifest-version = "2"
date = "2026-03-26"

[pkg.rust]
version = "1.94.1 (e408947bf 2026-03-25)"
target = {}
"#;
    assert_eq!(
        scan_manifest_rust_version(manifest),
        Some("1.94.1 (e408947bf 2026-03-25)"),
        "should extract version from [pkg.rust] section",
    );
}

#[test]
fn test_scan_manifest_rust_version_ignores_other_sections() {
    let manifest = r#"[pkg.other]
version = "0.0.1"

[pkg.rust]
version = "1.94.1 (e408947bf 2026-03-25)"
"#;
    assert_eq!(
        scan_manifest_rust_version(manifest),
        Some("1.94.1 (e408947bf 2026-03-25)"),
        "should not match version = in sections before [pkg.rust]",
    );
}

#[test]
fn test_scan_manifest_rust_version_missing_section() {
    let manifest = "[pkg.other]\nversion = \"1.0\"\n";
    assert_eq!(
        scan_manifest_rust_version(manifest),
        None,
        "should return None when [pkg.rust] section is absent",
    );
}

#[test]
fn test_scan_manifest_rust_version_missing_version_key() {
    let manifest = "[pkg.rust]\ntarget = {}\n";
    assert_eq!(
        scan_manifest_rust_version(manifest),
        None,
        "should return None when [pkg.rust] has no version key",
    );
}

#[test]
fn scan_manifest_stops_at_next_section_and_needs_closing_quote() {
    assert_eq!(scan_manifest_rust_version("[pkg.rust]\n[pkg.x]\nversion = \"1\"\n"), None);
    assert_eq!(scan_manifest_rust_version("[pkg.rust]\nversion = \"1.0\n"), None);
    assert_eq!(
        version_from_manifest("[pkg.rust]\nversion = \"1.2.3 (abc 2020-01-01)\"\n"),
        Some("rustc 1.2.3 (abc 2020-01-01)".to_owned())
    );
}

#[test]
fn test_find_toolchain_dir_rejects_path_based_toolchains() {
    assert_eq!(find_toolchain_dir("/opt/my-toolchain", None), None);
    assert_eq!(find_toolchain_dir("../my-toolchain", None), None);
}

#[test]
fn find_toolchain_dir_names_in_order() {
    assert_eq!(find_toolchain_dir("stable", None), Some(vec!["stable".to_owned()]));
    assert_eq!(
        find_toolchain_dir("stable", Some("x86_64-unknown-linux-gnu")),
        Some(vec![
            "stable".to_owned(),
            "stable-x86_64-unknown-linux-gnu".to_owned()
        ])
    );
    let entries = vec![
        "nightly-x86_64-unknown-linux-gnu".to_owned(),
        "stable".to_owned(),
        "stable-aarch64-apple-darwin".to_owned(),
        "stable-x86_64-unknown-linux-gnu".to_owned(),
    ];
    assert_eq!(first_toolchain_entry(&entries, "stable"), Some(2));
    assert_eq!(first_toolchain_entry(&entries, "beta"), None);
}

#[test]
fn test_scan_man_page_rust_version() {
    let man = r#".TH RUSTC "1" "April 2019" "rustc 1.97.0-beta.6 (b2282dd56 2026-07-01)" "User Commands"
.SH NAME
rustc \- The Rust compiler
"#;
    assert_eq!(
        scan_man_page_rust_version(man),
        Some("1.97.0-beta.6 (b2282dd56 2026-07-01)"),
        "should extract the version from the .TH header",
    );
    assert_eq!(
        version_from_man_page(man),
        Some("rustc 1.97.0-beta.6 (b2282dd56 2026-07-01)".to_owned())
    );
}

#[test]
fn test_scan_man_page_rust_version_placeholder() {
    let man = r#".TH RUSTC "1" "April 2019" "rustc <INSERT VERSION HERE>" "User Commands"
.SH NAME
rustc \- The Rust compiler
"#;
    assert_eq!(
        scan_man_page_rust_version(man),
        None,
        "should reject the placeholder shipped by older toolchains",
    );
}

#[test]
fn test_scan_man_page_rust_version_bare_version() {
    let man = r#".TH RUSTC "1" "April 2019" "rustc 1.20.0" "User Commands"
.SH NAME
rustc \- The Rust compiler
"#;
    assert_eq!(
        scan_man_page_rust_version(man),
        None,
        "should reject a bare version without hash and date",
    );
}

#[test]
fn scan_man_page_uses_the_first_header_line() {
    let man = ".SH NAME\n.TH RUSTC \"1\" \"x\" \"rustc 1.2.3 (abc 2020)\"\n.TH RUSTC \"rustc 9.9.9 (z y)\"\n";
    assert_eq!(scan_man_page_rust_version(man), Some("1.2.3 (abc 2020)"));
    assert_eq!(scan_man_page_rust_version(".TH RUSTC no version\n"), None);
    assert_eq!(scan_man_page_rust_version(".TH RUSTC \"rustc 1.2 (a b)\n"), None);
}

#[test]
fn format_semver_and_toolchain() {
    assert_eq!(format_semver("1.41.0-beta.1"), "v1.41.0");
    assert_eq!(format_semver("1.41.0"), "v1.41.0");
    assert_eq!(format_semver(""), "v");
    assert_eq!(
        format_toolchain("stable-x86_64-unknown-linux-gnu", Some("x86_64-unknown-linux-gnu")),
        "stable"
    );
    assert_eq!(
        format_toolchain("stable-x86_64-pc-windows-msvc", Some("x86_64-unknown-linux-gnu")),
        "stable-x86_64-pc-windows-msvc"
    );
    assert_eq!(format_toolchain("a-b-b", Some("b")), "a");
    assert_eq!(format_toolchain("nightly", None), "nightly");
}

#[test]
fn toolchain_override_follows_precedence() {
    let found = |s: &str| Some(s.to_owned());
    assert_eq!(get_env_toolchain_override(&vec![]), Step::Ask(OverrideSource::Environment));
    assert_eq!(
        get_env_toolchain_override(&vec![None]),
        Step::Ask(OverrideSource::SettingsOverride)
    );
    assert_eq!(
        get_env_toolchain_override(&vec![None, None]),
        Step::Ask(OverrideSource::ToolchainFile)
    );
    assert_eq!(
        get_env_toolchain_override(&vec![None, None, None]),
        Step::Ask(OverrideSource::SettingsDefault)
    );
    assert_eq!(
        get_env_toolchain_override(&vec![None, None, None, None]),
        Step::Ask(OverrideSource::RustupDefault)
    );
    assert_eq!(
        get_env_toolchain_override(&vec![None, None, None, None, None]),
        Step::Done(None)
    );
    assert_eq!(
        get_env_toolchain_override(&vec![None, found("file"), found("later")]),
        Step::Done(found("file"))
    );
    assert_eq!(get_env_toolchain_override(&vec![found("env")]), Step::Done(found("env")));
}

#[test]
fn toolchain_override_sources() {
    assert_eq!(env_rustup_toolchain(Some("  nightly \n")), Some("nightly".to_owned()));
    assert_eq!(env_rustup_toolchain(None), None);
    assert_eq!(
        execute_rustup_default(Some("stable-x86_64-apple-darwin (default)\n")),
        Some("stable-x86_64-apple-darwin".to_owned())
    );
    assert_eq!(execute_rustup_default(Some(" \n")), None);
    assert_eq!(execute_rustup_default(None), None);
    let settings = settings_with_overrides(&[]);
    assert_eq!(settings.default_toolchain(), Some("stable"));
    assert_eq!(settings.default_host_triple(), Some("x86_64-unknown-linux-gnu"));
    assert_eq!(
        default_host_triple_or_guess(&settings),
        Some("x86_64-unknown-linux-gnu".to_owned())
    );
    // Without a configured triple the guess is whatever the machine gives.
    let _ = default_host_triple_or_guess(&RustupSettings::default());
}

#[test]
fn rustc_version_steps() {
    let mut facts = RustcVersionFacts {
        rustup_managed: None,
        toolchain_override: None,
        toolchain_dir_version: None,
        run_rustc: None,
    };
    assert_eq!(get_rustup_rustc_version(&facts), Step::Ask(RustcVersionQuery::RustupManaged));
    facts.rustup_managed = Some(false);
    assert_eq!(
        get_rustup_rustc_version(&facts),
        Step::Done(RustupRunRustcVersionOutcome::RustupNotWorking)
    );
    facts.rustup_managed = Some(true);
    assert_eq!(get_rustup_rustc_version(&facts), Step::Ask(RustcVersionQuery::ToolchainOverride));
    facts.toolchain_override = Some(None);
    assert_eq!(
        get_rustup_rustc_version(&facts),
        Step::Done(RustupRunRustcVersionOutcome::ToolchainUnknown)
    );
    facts.toolchain_override = Some(Some("stable".to_owned()));
    assert_eq!(
        get_rustup_rustc_version(&facts),
        Step::Ask(RustcVersionQuery::ToolchainDirVersion("stable".to_owned()))
    );
    facts.toolchain_dir_version = Some(None);
    assert_eq!(
        get_rustup_rustc_version(&facts),
        Step::Ask(RustcVersionQuery::RunRustc("stable".to_owned()))
    );
    facts.run_rustc = Some(RustupRunRustcVersionOutcome::Error);
    assert_eq!(
        get_rustup_rustc_version(&facts),
        Step::Done(RustupRunRustcVersionOutcome::Error)
    );
    facts.toolchain_dir_version = Some(Some("rustc 1.0.0".to_owned()));
    assert_eq!(
        get_rustup_rustc_version(&facts),
        Step::Done(RustupRunRustcVersionOutcome::RustcVersion("rustc 1.0.0".to_owned()))
    );
}

#[test]
fn shown_values() {
    let v = RustupRunRustcVersionOutcome::RustcVersion("rustc 1.34.0-nightly (abc 2019)".to_owned());
    assert_eq!(get_module_version(&v, "v${raw}"), Step::Done(Some("v1.34.0-nightly".to_owned())));
    assert_eq!(get_module_numeric_version(&v), Step::Done(Some("v1.34.0".to_owned())));
    assert_eq!(
        get_toolchain_version(&v, Some("nightly-x86_64-unknown-linux-gnu"), Some("x86_64-unknown-linux-gnu")),
        Step::Done(Some("nightly".to_owned()))
    );
    let missing = RustupRunRustcVersionOutcome::ToolchainNotInstalled("beta".to_owned());
    assert_eq!(get_module_version(&missing, "v${raw}"), Step::Done(Some("beta".to_owned())));
    assert_eq!(get_module_numeric_version(&missing), Step::Done(None));
    let unknown = RustupRunRustcVersionOutcome::ToolchainUnknown;
    assert_eq!(get_module_version(&unknown, "v${raw}"), Step::Ask(RustcQuery::RustcVersion));
    assert_eq!(get_module_numeric_version(&unknown), Step::Ask(RustcQuery::RustcVerbose));
    assert_eq!(get_toolchain_version(&unknown, None, None), Step::Ask(RustcQuery::RustcVerbose));
    let err = RustupRunRustcVersionOutcome::Error;
    assert_eq!(get_module_version(&err, "v${raw}"), Step::Done(None));
    assert_eq!(get_toolchain_version(&err, None, None), Step::Done(None));
    assert_eq!(
        get_module_numeric_version(&RustupRunRustcVersionOutcome::RustcVersion("1.2.3-x".to_owned())),
        Step::Done(Some("v1.2.3".to_owned()))
    );
    assert_eq!(
        module_version_from_rustc(Some("rustc 1.5.0 (a b)\n".to_owned()), "v${raw}"),
        Some("v1.5.0".to_owned())
    );
    assert_eq!(module_version_from_rustc(Some(String::new()), "v${raw}"), None);
    assert_eq!(execute_rustc_version(Some(String::new())), None);
    assert_eq!(execute_rustc_version(Some("x".to_owned())), Some("x".to_owned()));
}

#[test]
fn verbose_version_from_process_output() {
    let out = b"release: 1.40.0\nhost: x86_64-unknown-linux-gnu\n".to_vec();
    assert_eq!(
        get_rustc_verbose_version(true, out.clone(), Some("stable")),
        Some(("v1.40.0".to_owned(), "stable".to_owned()))
    );
    assert_eq!(get_rustc_verbose_version(false, out, Some("stable")), None);
    assert_eq!(get_rustc_verbose_version(true, vec![0xff], None), None);
}

#[test]
fn rustup_managed_rustc() {
    let home = Some("/home/u/.rustup");
    let cargo = Some("/home/u/.cargo");
    assert!(rustc_is_rustup_managed("/home/u/.cargo/bin/rustc", home, cargo, false));
    assert!(rustc_is_rustup_managed(
        "/home/u/.rustup/toolchains/stable/bin/rustc",
        home,
        cargo,
        false
    ));
    assert!(!rustc_is_rustup_managed("/usr/bin/rustc", home, cargo, false));
    assert!(rustc_is_rustup_managed("/usr/bin/rustc", home, cargo, true));
    assert!(!rustc_is_rustup_managed("/home/u/.cargo/binx/rustc", home, cargo, false));
    assert!(!rustc_is_rustup_managed("/home/u/.cargo/bin/rustc", None, None, false));
}

#[test]
fn module_and_variables() {
    let config = RustConfig::default();
    assert_eq!(module(&config, false), None);
    assert_eq!(module(&config, true), Some("via [$symbol($version )]($style)"));
    assert_eq!(map_variable("version"), Some(RustVariable::Version));
    assert_eq!(map_variable("numver"), Some(RustVariable::NumericVersion));
    assert_eq!(map_variable("toolchain"), Some(RustVariable::Toolchain));
    assert_eq!(map_variable("symbol"), None);
    assert_eq!(map_meta(&config, "symbol"), Some("🦀 "));
    assert_eq!(map_meta(&config, "style"), None);
    assert_eq!(map_style(&config, "style"), Some("bold red"));
    assert_eq!(map_style(&config, "symbol"), None);
}

#[test]
fn overlapping_error_message() {
    assert!(overlapping_not_installed_text("error: toolchain ' is not installed\n"));
    assert!(!overlapping_not_installed_text(
        "error: toolchain 'x' is not installed\n"
    ));
    assert!(!overlapping_not_installed_text("error:"));
}

#[test]
fn toolchain_dir_version_reads_man_page_then_manifest() {
    let man = ".TH RUSTC \"1\" \"April 2019\" \"rustc 1.77.0 (aeda7d245 2024-03-13)\" \"User Commands\"\n";
    let old_man = ".TH RUSTC \"1\" \"April 2019\" \"rustc <INSERT VERSION HERE>\" \"User Commands\"\n";
    let manifest = "[pkg.rust]\nversion = \"1.2.3 (abc 2020-01-01)\"\n";
    assert_eq!(get_version_from_toolchain_dir(None, None), Step::Ask(ToolchainVersionFile::ManPage));
    assert_eq!(
        get_version_from_toolchain_dir(Some(Some(man)), None),
        Step::Done(Some("rustc 1.77.0 (aeda7d245 2024-03-13)".to_owned()))
    );
    assert_eq!(
        get_version_from_toolchain_dir(Some(Some(old_man)), None),
        Step::Ask(ToolchainVersionFile::Manifest)
    );
    assert_eq!(
        get_version_from_toolchain_dir(Some(None), None),
        Step::Ask(ToolchainVersionFile::Manifest)
    );
    assert_eq!(
        get_version_from_toolchain_dir(Some(Some(old_man)), Some(Some(manifest))),
        Step::Done(Some("rustc 1.2.3 (abc 2020-01-01)".to_owned()))
    );
    assert_eq!(get_version_from_toolchain_dir(Some(None), Some(None)), Step::Done(None));
    assert_eq!(get_version_from_toolchain_dir(Some(None), Some(Some("[pkg.cargo]\n"))), Step::Done(None));
}

#[test]
fn deepest_override_wins_in_any_order() {
    let nested = [("/home/user/src/b/d c", "stable"), ("/home/user/src/b", "nightly"), ("/home", "beta")];
    let mut reversed = nested;
    reversed.reverse();
    for overrides in [nested, reversed] {
        let settings = settings_with_overrides(&overrides);
        assert_eq!(settings.lookup_override("/home/user/src/b/d c/x"), Some("stable".to_owned()));
        assert_eq!(settings.lookup_override("/home/user/src/b/x"), Some("nightly".to_owned()));
        assert_eq!(settings.lookup_override("/home/user"), Some("beta".to_owned()));
        assert_eq!(settings.lookup_override("/"), None);
    }
}
