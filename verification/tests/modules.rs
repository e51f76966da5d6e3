use starship::modules::{
    all_modules, description, detect, get_module_name, timed_module, TimedModule,
};

const ALL_MODULES: &[&str] = &[
    "aws", "azure", "battery", "buf", "bun", "c", "character", "cmake", "cmd_duration", "cobol",
    "conda", "container", "cpp", "crystal", "daml", "dart", "deno", "directory", "direnv",
    "docker_context", "dotnet", "elixir", "elm", "env_var", "erlang", "fennel", "fill",
    "fortran", "fossil_branch", "fossil_metrics", "gcloud", "git_branch", "git_commit",
    "git_metrics", "git_state", "git_status", "gleam", "golang", "gradle", "guix_shell",
    "haskell", "haxe", "helm", "hg_branch", "hg_state", "hostname", "java", "jobs", "julia",
    "kotlin", "kubernetes", "line_break", "localip", "lua", "maven", "memory_usage", "meson",
    "mise", "mojo", "nats", "netns", "nim", "nix_shell", "nodejs", "ocaml", "odin", "opa",
    "openstack", "os", "package", "perl", "php", "pijul_channel", "pixi", "pulumi",
    "purescript", "python", "quarto", "raku", "red", "rlang", "ruby", "rust", "scala", "shell",
    "shlvl", "singularity", "solidity", "spack", "status", "sudo", "swift", "terraform", "time",
    "typst", "username", "vagrant", "vcs", "vcsh", "vlang", "xmake", "zig",
];

#[test]
fn all_modules_have_description() {
    for module in all_modules() {
        println!("Checking if {module:?} has a description");
        assert_ne!(description(module), "<no description>");
    }
}

#[test]
fn module_list_names_every_module() {
    let mut listed = all_modules();
    listed.sort();
    let mut expected = ALL_MODULES.to_vec();
    expected.sort();
    assert_eq!(listed, expected);
}

#[test]
fn descriptions_of_modules() {
    assert_eq!(description("rust"), "The currently installed version of Rust");
    assert_eq!(description("cmd_duration"), "How long the last command took to execute");
    assert_eq!(description("unknown_module"), "<no description>");
    assert_eq!(description(""), "<no description>");
}

#[test]
fn module_name_of_an_instance() {
    assert_eq!(get_module_name("work_aws", Some("aws")), "aws");
    assert_eq!(get_module_name("rust", None), "rust");
}

#[test]
fn detection_by_files_extensions_and_folders() {
    let entries = vec![
        ("Cargo.toml".to_owned(), false),
        ("src".to_owned(), true),
        (".rs".to_owned(), false),
        ("main.tar.gz".to_owned(), false),
    ];
    assert!(detect(&entries, &vec!["Cargo.toml"], &vec![], &vec![]));
    assert!(detect(&entries, &vec![], &vec![], &vec!["src"]));
    assert!(!detect(&entries, &vec!["src"], &vec![], &vec![]));
    assert!(!detect(&entries, &vec![], &vec!["rs"], &vec![]));
    assert!(detect(&entries, &vec![], &vec!["gz"], &vec![]));
    assert!(!detect(&entries, &vec![], &vec!["tar.gz"], &vec![]));
    assert!(!detect(&vec![], &vec!["Cargo.toml"], &vec!["rs"], &vec!["src"]));
}

#[test]
fn slow_modules_report_their_duration() {
    assert_eq!(timed_module(true, 0), TimedModule::Unchanged);
    assert_eq!(timed_module(false, 0), TimedModule::Unchanged);
    assert_eq!(timed_module(true, 1), TimedModule::RecordDuration);
    assert_eq!(timed_module(false, 1), TimedModule::EmptyWithDuration);
    assert_eq!(timed_module(false, 250), TimedModule::EmptyWithDuration);
}
