//! The prompt modules, and what each of them shows.
use vstd::prelude::*;
use crate::path::{extension_of, file_extension};
use crate::text::str_eq;

pub mod cmd_duration;
pub mod custom_wasm;
pub mod rust;

verus! {

/// The module that a configured instance runs: the `module` key of the
/// instance's settings when it names one, else the instance's own name.
pub fn get_module_name<'a>(instance_name: &'a str, configured_module: Option<&'a str>) -> (r: &'a str)
    ensures
        r == match configured_module {
            Some(m) => m,
            None => instance_name,
        },
{
    match configured_module {
        Some(m) => m,
        None => instance_name,
    }
}

/// What becomes of a module's result once its computation has been timed.
#[derive(Debug, PartialEq, Clone, Copy)]
pub enum TimedModule {
    /// The result is returned as it is.
    Unchanged,
    /// The module records the time its computation took.
    RecordDuration,
    /// An empty module is made, to record the time the computation took.
    EmptyWithDuration,
}

/// A computation that took a millisecond or more is reported: the module
/// records its duration, and where there is no module an empty one is made to
/// hold it. A faster one leaves the result as it is, since a module's
/// duration is zero to begin with.
pub fn timed_module(has_module: bool, elapsed_ms: u128) -> (r: TimedModule)
    ensures
        elapsed_ms < 1 ==> r == TimedModule::Unchanged,
        elapsed_ms >= 1 && has_module ==> r == TimedModule::RecordDuration,
        elapsed_ms >= 1 && !has_module ==> r == TimedModule::EmptyWithDuration,
{
    if elapsed_ms < 1 {
        TimedModule::Unchanged
    } else if has_module {
        TimedModule::RecordDuration
    } else {
        TimedModule::EmptyWithDuration
    }
}

/// What each module shows, by the module's name; `<no description>` for a
/// name that is not a module's.
pub open spec fn module_description(module: Seq<char>) -> Seq<char> {
    if module == "aws"@ {
        "The current AWS region and profile"@
    } else if module == "azure"@ {
        "The current Azure subscription"@
    } else if module == "battery"@ {
        "The current charge of the device's battery and its current charging status"@
    } else if module == "buf"@ {
        "The currently installed version of the Buf CLI"@
    } else if module == "bun"@ {
        "The currently installed version of the Bun"@
    } else if module == "c"@ {
        "Your C compiler type"@
    } else if module == "character"@ {
        "A character (usually an arrow) beside where the text is entered in your terminal"@
    } else if module == "cmake"@ {
        "The currently installed version of CMake"@
    } else if module == "cmd_duration"@ {
        "How long the last command took to execute"@
    } else if module == "cobol"@ {
        "The currently installed version of COBOL/GNUCOBOL"@
    } else if module == "conda"@ {
        "The current conda environment, if $CONDA_DEFAULT_ENV is set"@
    } else if module == "container"@ {
        "The container indicator, if inside a container."@
    } else if module == "cpp"@ {
        "your cpp compiler type"@
    } else if module == "crystal"@ {
        "The currently installed version of Crystal"@
    } else if module == "daml"@ {
        "The Daml SDK version of your project"@
    } else if module == "dart"@ {
        "The currently installed version of Dart"@
    } else if module == "deno"@ {
        "The currently installed version of Deno"@
    } else if module == "directory"@ {
        "The current working directory"@
    } else if module == "direnv"@ {
        "The currently applied direnv file"@
    } else if module == "docker_context"@ {
        "The current docker context"@
    } else if module == "dotnet"@ {
        "The relevant version of the .NET Core SDK for the current directory"@
    } else if module == "elixir"@ {
        "The currently installed versions of Elixir and OTP"@
    } else if module == "elm"@ {
        "The currently installed version of Elm"@
    } else if module == "env_var"@ {
        "Displays the current value of a selected environment variable"@
    } else if module == "erlang"@ {
        "Current OTP version"@
    } else if module == "fennel"@ {
        "The currently installed version of Fennel"@
    } else if module == "fill"@ {
        "Fills the remaining space on the line with a pad string"@
    } else if module == "fortran"@ {
        "The currently used version of Fortran"@
    } else if module == "fossil_branch"@ {
        "The active branch of the check-out in your current directory"@
    } else if module == "fossil_metrics"@ {
        "The currently added/deleted lines in your check-out"@
    } else if module == "gcloud"@ {
        "The current GCP client configuration"@
    } else if module == "git_branch"@ {
        "The active branch of the repo in your current directory"@
    } else if module == "git_commit"@ {
        "The active commit (and tag if any) of the repo in your current directory"@
    } else if module == "git_metrics"@ {
        "The currently added/deleted lines in your repo"@
    } else if module == "git_state"@ {
        "The current git operation, and it's progress"@
    } else if module == "git_status"@ {
        "Symbol representing the state of the repo"@
    } else if module == "gleam"@ {
        "The currently installed version of Gleam"@
    } else if module == "golang"@ {
        "The currently installed version of Golang"@
    } else if module == "gradle"@ {
        "The currently installed version of Gradle"@
    } else if module == "guix_shell"@ {
        "The guix-shell environment"@
    } else if module == "haskell"@ {
        "The selected version of the Haskell toolchain"@
    } else if module == "haxe"@ {
        "The currently installed version of Haxe"@
    } else if module == "helm"@ {
        "The currently installed version of Helm"@
    } else if module == "hg_branch"@ {
        "The active branch and topic of the repo in your current directory"@
    } else if module == "hg_state"@ {
        "The current hg operation"@
    } else if module == "hostname"@ {
        "The system hostname"@
    } else if module == "java"@ {
        "The currently installed version of Java"@
    } else if module == "jobs"@ {
        "The current number of jobs running"@
    } else if module == "julia"@ {
        "The currently installed version of Julia"@
    } else if module == "kotlin"@ {
        "The currently installed version of Kotlin"@
    } else if module == "kubernetes"@ {
        "The current Kubernetes context name and, if set, the namespace"@
    } else if module == "line_break"@ {
        "Separates the prompt into two lines"@
    } else if module == "localip"@ {
        "The currently assigned ipv4 address"@
    } else if module == "lua"@ {
        "The currently installed version of Lua"@
    } else if module == "maven"@ {
        "The Maven Wrapper version of the current project"@
    } else if module == "memory_usage"@ {
        "Current system memory and swap usage"@
    } else if module == "meson"@ {
        "The current Meson environment, if $MESON_DEVENV and $MESON_PROJECT_NAME are set"@
    } else if module == "mise"@ {
        "The current mise status"@
    } else if module == "mojo"@ {
        "The currently installed version of Mojo"@
    } else if module == "nats"@ {
        "The current NATS context"@
    } else if module == "netns"@ {
        "The current network namespace"@
    } else if module == "nim"@ {
        "The currently installed version of Nim"@
    } else if module == "nix_shell"@ {
        "The nix-shell environment"@
    } else if module == "nodejs"@ {
        "The currently installed version of NodeJS"@
    } else if module == "ocaml"@ {
        "The currently installed version of OCaml"@
    } else if module == "odin"@ {
        "The currently installed version of Odin"@
    } else if module == "opa"@ {
        "The currently installed version of Open Platform Agent"@
    } else if module == "openstack"@ {
        "The current OpenStack cloud and project"@
    } else if module == "os"@ {
        "The current operating system"@
    } else if module == "package"@ {
        "The package version of the current directory's project"@
    } else if module == "perl"@ {
        "The currently installed version of Perl"@
    } else if module == "php"@ {
        "The currently installed version of PHP"@
    } else if module == "pijul_channel"@ {
        "The current channel of the repo in the current directory"@
    } else if module == "pixi"@ {
        "The currently installed version of Pixi, and the active environment if $PIXI_ENVIRONMENT_NAME is set"@
    } else if module == "pulumi"@ {
        "The current username, stack, and installed version of Pulumi"@
    } else if module == "purescript"@ {
        "The currently installed version of PureScript"@
    } else if module == "python"@ {
        "The currently installed version of Python"@
    } else if module == "quarto"@ {
        "The current installed version of quarto"@
    } else if module == "raku"@ {
        "The currently installed version of Raku"@
    } else if module == "red"@ {
        "The currently installed version of Red"@
    } else if module == "rlang"@ {
        "The currently installed version of R"@
    } else if module == "ruby"@ {
        "The currently installed version of Ruby"@
    } else if module == "rust"@ {
        "The currently installed version of Rust"@
    } else if module == "scala"@ {
        "The currently installed version of Scala"@
    } else if module == "shell"@ {
        "The currently used shell indicator"@
    } else if module == "shlvl"@ {
        "The current value of SHLVL"@
    } else if module == "singularity"@ {
        "The currently used Singularity image"@
    } else if module == "solidity"@ {
        "The current installed version of Solidity"@
    } else if module == "spack"@ {
        "The current spack environment, if $SPACK_ENV is set"@
    } else if module == "status"@ {
        "The status of the last command"@
    } else if module == "sudo"@ {
        "The sudo credentials are currently cached"@
    } else if module == "swift"@ {
        "The currently installed version of Swift"@
    } else if module == "terraform"@ {
        "The currently selected terraform workspace and version"@
    } else if module == "time"@ {
        "The current local time"@
    } else if module == "typst"@ {
        "The current installed version of typst"@
    } else if module == "username"@ {
        "The active user's username"@
    } else if module == "vagrant"@ {
        "The currently installed version of Vagrant"@
    } else if module == "vcs"@ {
        "The currently active VCS repository (first one matching)"@
    } else if module == "vcsh"@ {
        "The currently active VCSH repository"@
    } else if module == "vlang"@ {
        "The currently installed version of V"@
    } else if module == "xmake"@ {
        "The currently installed version of XMake"@
    } else if module == "zig"@ {
        "The currently installed version of Zig"@
    } else {
        "<no description>"@
    }
}

/// The description of a module, as `starship module --list` shows it.
pub fn description(module: &str) -> (r: &'static str)
    ensures
        r@ == module_description(module@),
{
    if str_eq(module, "aws") {
        "The current AWS region and profile"
    } else if str_eq(module, "azure") {
        "The current Azure subscription"
    } else if str_eq(module, "battery") {
        "The current charge of the device's battery and its current charging status"
    } else if str_eq(module, "buf") {
        "The currently installed version of the Buf CLI"
    } else if str_eq(module, "bun") {
        "The currently installed version of the Bun"
    } else if str_eq(module, "c") {
        "Your C compiler type"
    } else if str_eq(module, "character") {
        "A character (usually an arrow) beside where the text is entered in your terminal"
    } else if str_eq(module, "cmake") {
        "The currently installed version of CMake"
    } else if str_eq(module, "cmd_duration") {
        "How long the last command took to execute"
    } else if str_eq(module, "cobol") {
        "The currently installed version of COBOL/GNUCOBOL"
    } else if str_eq(module, "conda") {
        "The current conda environment, if $CONDA_DEFAULT_ENV is set"
    } else if str_eq(module, "container") {
        "The container indicator, if inside a container."
    } else if str_eq(module, "cpp") {
        "your cpp compiler type"
    } else if str_eq(module, "crystal") {
        "The currently installed version of Crystal"
    } else if str_eq(module, "daml") {
        "The Daml SDK version of your project"
    } else if str_eq(module, "dart") {
        "The currently installed version of Dart"
    } else if str_eq(module, "deno") {
        "The currently installed version of Deno"
    } else if str_eq(module, "directory") {
        "The current working directory"
    } else if str_eq(module, "direnv") {
        "The currently applied direnv file"
    } else if str_eq(module, "docker_context") {
        "The current docker context"
    } else if str_eq(module, "dotnet") {
        "The relevant version of the .NET Core SDK for the current directory"
    } else if str_eq(module, "elixir") {
        "The currently installed versions of Elixir and OTP"
    } else if str_eq(module, "elm") {
        "The currently installed version of Elm"
    } else if str_eq(module, "env_var") {
        "Displays the current value of a selected environment variable"
    } else if str_eq(module, "erlang") {
        "Current OTP version"
    } else if str_eq(module, "fennel") {
        "The currently installed version of Fennel"
    } else if str_eq(module, "fill") {
        "Fills the remaining space on the line with a pad string"
    } else if str_eq(module, "fortran") {
        "The currently used version of Fortran"
    } else if str_eq(module, "fossil_branch") {
        "The active branch of the check-out in your current directory"
    } else if str_eq(module, "fossil_metrics") {
        "The currently added/deleted lines in your check-out"
    } else if str_eq(module, "gcloud") {
        "The current GCP client configuration"
    } else if str_eq(module, "git_branch") {
        "The active branch of the repo in your current directory"
    } else if str_eq(module, "git_commit") {
        "The active commit (and tag if any) of the repo in your current directory"
    } else if str_eq(module, "git_metrics") {
        "The currently added/deleted lines in your repo"
    } else if str_eq(module, "git_state") {
        "The current git operation, and it's progress"
    } else if str_eq(module, "git_status") {
        "Symbol representing the state of the repo"
    } else if str_eq(module, "gleam") {
        "The currently installed version of Gleam"
    } else if str_eq(module, "golang") {
        "The currently installed version of Golang"
    } else if str_eq(module, "gradle") {
        "The currently installed version of Gradle"
    } else if str_eq(module, "guix_shell") {
        "The guix-shell environment"
    } else if str_eq(module, "haskell") {
        "The selected version of the Haskell toolchain"
    } else if str_eq(module, "haxe") {
        "The currently installed version of Haxe"
    } else if str_eq(module, "helm") {
        "The currently installed version of Helm"
    } else if str_eq(module, "hg_branch") {
        "The active branch and topic of the repo in your current directory"
    } else if str_eq(module, "hg_state") {
        "The current hg operation"
    } else if str_eq(module, "hostname") {
        "The system hostname"
    } else if str_eq(module, "java") {
        "The currently installed version of Java"
    } else if str_eq(module, "jobs") {
        "The current number of jobs running"
    } else if str_eq(module, "julia") {
        "The currently installed version of Julia"
    } else if str_eq(module, "kotlin") {
        "The currently installed version of Kotlin"
    } else if str_eq(module, "kubernetes") {
        "The current Kubernetes context name and, if set, the namespace"
    } else if str_eq(module, "line_break") {
        "Separates the prompt into two lines"
    } else if str_eq(module, "localip") {
        "The currently assigned ipv4 address"
    } else if str_eq(module, "lua") {
        "The currently installed version of Lua"
    } else if str_eq(module, "maven") {
        "The Maven Wrapper version of the current project"
    } else if str_eq(module, "memory_usage") {
        "Current system memory and swap usage"
    } else if str_eq(module, "meson") {
        "The current Meson environment, if $MESON_DEVENV and $MESON_PROJECT_NAME are set"
    } else if str_eq(module, "mise") {
        "The current mise status"
    } else if str_eq(module, "mojo") {
        "The currently installed version of Mojo"
    } else if str_eq(module, "nats") {
        "The current NATS context"
    } else if str_eq(module, "netns") {
        "The current network namespace"
    } else if str_eq(module, "nim") {
        "The currently installed version of Nim"
    } else if str_eq(module, "nix_shell") {
        "The nix-shell environment"
    } else if str_eq(module, "nodejs") {
        "The currently installed version of NodeJS"
    } else if str_eq(module, "ocaml") {
        "The currently installed version of OCaml"
    } else if str_eq(module, "odin") {
        "The currently installed version of Odin"
    } else if str_eq(module, "opa") {
        "The currently installed version of Open Platform Agent"
    } else if str_eq(module, "openstack") {
        "The current OpenStack cloud and project"
    } else if str_eq(module, "os") {
        "The current operating system"
    } else if str_eq(module, "package") {
        "The package version of the current directory's project"
    } else if str_eq(module, "perl") {
        "The currently installed version of Perl"
    } else if str_eq(module, "php") {
        "The currently installed version of PHP"
    } else if str_eq(module, "pijul_channel") {
        "The current channel of the repo in the current directory"
    } else if str_eq(module, "pixi") {
        "The currently installed version of Pixi, and the active environment if $PIXI_ENVIRONMENT_NAME is set"
    } else if str_eq(module, "pulumi") {
        "The current username, stack, and installed version of Pulumi"
    } else if str_eq(module, "purescript") {
        "The currently installed version of PureScript"
    } else if str_eq(module, "python") {
        "The currently installed version of Python"
    } else if str_eq(module, "quarto") {
        "The current installed version of quarto"
    } else if str_eq(module, "raku") {
        "The currently installed version of Raku"
    } else if str_eq(module, "red") {
        "The currently installed version of Red"
    } else if str_eq(module, "rlang") {
        "The currently installed version of R"
    } else if str_eq(module, "ruby") {
        "The currently installed version of Ruby"
    } else if str_eq(module, "rust") {
        "The currently installed version of Rust"
    } else if str_eq(module, "scala") {
        "The currently installed version of Scala"
    } else if str_eq(module, "shell") {
        "The currently used shell indicator"
    } else if str_eq(module, "shlvl") {
        "The current value of SHLVL"
    } else if str_eq(module, "singularity") {
        "The currently used Singularity image"
    } else if str_eq(module, "solidity") {
        "The current installed version of Solidity"
    } else if str_eq(module, "spack") {
        "The current spack environment, if $SPACK_ENV is set"
    } else if str_eq(module, "status") {
        "The status of the last command"
    } else if str_eq(module, "sudo") {
        "The sudo credentials are currently cached"
    } else if str_eq(module, "swift") {
        "The currently installed version of Swift"
    } else if str_eq(module, "terraform") {
        "The currently selected terraform workspace and version"
    } else if str_eq(module, "time") {
        "The current local time"
    } else if str_eq(module, "typst") {
        "The current installed version of typst"
    } else if str_eq(module, "username") {
        "The active user's username"
    } else if str_eq(module, "vagrant") {
        "The currently installed version of Vagrant"
    } else if str_eq(module, "vcs") {
        "The currently active VCS repository (first one matching)"
    } else if str_eq(module, "vcsh") {
        "The currently active VCSH repository"
    } else if str_eq(module, "vlang") {
        "The currently installed version of V"
    } else if str_eq(module, "xmake") {
        "The currently installed version of XMake"
    } else if str_eq(module, "zig") {
        "The currently installed version of Zig"
    } else {
        "<no description>"
    }
}

/// Whether a directory entry, by its name and whether it is a directory,
/// is one that a module looks for.
pub open spec fn entry_matches(
    name: Seq<char>,
    is_dir: bool,
    files: Seq<&str>,
    extensions: Seq<&str>,
    folders: Seq<&str>,
) -> bool {
    if is_dir {
        exists|i: int| 0 <= i < folders.len() && #[trigger] folders[i]@ == name
    } else {
        (exists|i: int| 0 <= i < files.len() && #[trigger] files[i]@ == name) || (match file_extension(
            name,
        ) {
            Some(e) => exists|i: int| 0 <= i < extensions.len() && #[trigger] extensions[i]@ == e,
            None => false,
        })
    }
}

fn contains_name(list: &Vec<&str>, name: &str) -> (r: bool)
    ensures
        r == exists|i: int| 0 <= i < list@.len() && #[trigger] list@[i]@ == name@,
{
    let mut k: usize = 0;
    while k < list.len()
        invariant
            k <= list.len(),
            forall|i: int| 0 <= i < k ==> #[trigger] list@[i]@ != name@,
        decreases list.len() - k,
    {
        if str_eq(list[k], name) {
            return true;
        }
        k = k + 1;
    }
    false
}

/// Whether a module detects its kind of project in a directory holding
/// `entries`: a folder it names, a file it names, or a file with an extension
/// it names.
pub fn detect(
    entries: &Vec<(String, bool)>,
    files: &Vec<&str>,
    extensions: &Vec<&str>,
    folders: &Vec<&str>,
) -> (r: bool)
    ensures
        r == exists|i: int|
            0 <= i < entries@.len() && entry_matches(
                #[trigger] entries@[i].0@,
                entries@[i].1,
                files@,
                extensions@,
                folders@,
            ),
{
    let mut k: usize = 0;
    while k < entries.len()
        invariant
            k <= entries.len(),
            forall|i: int|
                0 <= i < k ==> !entry_matches(
                    #[trigger] entries@[i].0@,
                    entries@[i].1,
                    files@,
                    extensions@,
                    folders@,
                ),
        decreases entries.len() - k,
    {
        let name = entries[k].0.as_str();
        let found = if entries[k].1 {
            contains_name(folders, name)
        } else if contains_name(files, name) {
            true
        } else {
            match extension_of(name) {
                Some(e) => contains_name(extensions, e),
                None => false,
            }
        };
        if found {
            return true;
        }
        k = k + 1;
    }
    false
}


/// Whether `name` is the name of one of the prompt's modules.
pub open spec fn is_module_name(name: Seq<char>) -> bool {
    name == "aws"@
        || name == "azure"@
        || name == "battery"@
        || name == "buf"@
        || name == "bun"@
        || name == "c"@
        || name == "character"@
        || name == "cmake"@
        || name == "cmd_duration"@
        || name == "cobol"@
        || name == "conda"@
        || name == "container"@
        || name == "cpp"@
        || name == "crystal"@
        || name == "daml"@
        || name == "dart"@
        || name == "deno"@
        || name == "directory"@
        || name == "direnv"@
        || name == "docker_context"@
        || name == "dotnet"@
        || name == "elixir"@
        || name == "elm"@
        || name == "env_var"@
        || name == "erlang"@
        || name == "fennel"@
        || name == "fill"@
        || name == "fortran"@
        || name == "fossil_branch"@
        || name == "fossil_metrics"@
        || name == "gcloud"@
        || name == "git_branch"@
        || name == "git_commit"@
        || name == "git_metrics"@
        || name == "git_state"@
        || name == "git_status"@
        || name == "gleam"@
        || name == "golang"@
        || name == "gradle"@
        || name == "guix_shell"@
        || name == "haskell"@
        || name == "haxe"@
        || name == "helm"@
        || name == "hg_branch"@
        || name == "hg_state"@
        || name == "hostname"@
        || name == "java"@
        || name == "jobs"@
        || name == "julia"@
        || name == "kotlin"@
        || name == "kubernetes"@
        || name == "line_break"@
        || name == "localip"@
        || name == "lua"@
        || name == "maven"@
        || name == "memory_usage"@
        || name == "meson"@
        || name == "mise"@
        || name == "mojo"@
        || name == "nats"@
        || name == "netns"@
        || name == "nim"@
        || name == "nix_shell"@
        || name == "nodejs"@
        || name == "ocaml"@
        || name == "odin"@
        || name == "opa"@
        || name == "openstack"@
        || name == "os"@
        || name == "package"@
        || name == "perl"@
        || name == "php"@
        || name == "pijul_channel"@
        || name == "pixi"@
        || name == "pulumi"@
        || name == "purescript"@
        || name == "python"@
        || name == "quarto"@
        || name == "raku"@
        || name == "red"@
        || name == "rlang"@
        || name == "ruby"@
        || name == "rust"@
        || name == "scala"@
        || name == "shell"@
        || name == "shlvl"@
        || name == "singularity"@
        || name == "solidity"@
        || name == "spack"@
        || name == "status"@
        || name == "sudo"@
        || name == "swift"@
        || name == "terraform"@
        || name == "time"@
        || name == "typst"@
        || name == "username"@
        || name == "vagrant"@
        || name == "vcs"@
        || name == "vcsh"@
        || name == "vlang"@
        || name == "xmake"@
        || name == "zig"@
}

/// The names of all the prompt's modules.
pub fn all_modules() -> (r: Vec<&'static str>)
    ensures
        r@.len() == 102,
        forall|i: int| 0 <= i < r@.len() ==> is_module_name(#[trigger] r@[i]@),
        forall|name: Seq<char>| is_module_name(name) ==> exists|i: int|
            0 <= i < r@.len() && #[trigger] r@[i]@ == name,
{
    let r = vec![
        "aws", "azure", "battery", "buf", "bun", "c",
        "character", "cmake", "cmd_duration", "cobol", "conda", "container",
        "cpp", "crystal", "daml", "dart", "deno", "directory",
        "direnv", "docker_context", "dotnet", "elixir", "elm", "env_var",
        "erlang", "fennel", "fill", "fortran", "fossil_branch", "fossil_metrics",
        "gcloud", "git_branch", "git_commit", "git_metrics", "git_state", "git_status",
        "gleam", "golang", "gradle", "guix_shell", "haskell", "haxe",
        "helm", "hg_branch", "hg_state", "hostname", "java", "jobs",
        "julia", "kotlin", "kubernetes", "line_break", "localip", "lua",
        "maven", "memory_usage", "meson", "mise", "mojo", "nats",
        "netns", "nim", "nix_shell", "nodejs", "ocaml", "odin",
        "opa", "openstack", "os", "package", "perl", "php",
        "pijul_channel", "pixi", "pulumi", "purescript", "python", "quarto",
        "raku", "red", "rlang", "ruby", "rust", "scala",
        "shell", "shlvl", "singularity", "solidity", "spack", "status",
        "sudo", "swift", "terraform", "time", "typst", "username",
        "vagrant", "vcs", "vcsh", "vlang", "xmake", "zig",
    ];
    r
}

/// Every module has a description: for each module's name, `description`
/// gives a text of its own, not `<no description>`.
pub proof fn lemma_all_modules_have_description(name: Seq<char>)
    requires
        is_module_name(name),
    ensures
        module_description(name) != "<no description>"@,
        module_description(name).len() > 0,
{
    reveal_strlit("<no description>");
    assert("<no description>"@.len() == 16);
    reveal_strlit("The current AWS region and profile");
    assert("The current AWS region and profile"@.len() == 34);
    reveal_strlit("The current Azure subscription");
    assert("The current Azure subscription"@.len() == 30);
    reveal_strlit("The current charge of the device's battery and its current charging status");
    assert("The current charge of the device's battery and its current charging status"@.len() == 74);
    reveal_strlit("The currently installed version of the Buf CLI");
    assert("The currently installed version of the Buf CLI"@.len() == 46);
    reveal_strlit("The currently installed version of the Bun");
    assert("The currently installed version of the Bun"@.len() == 42);
    reveal_strlit("Your C compiler type");
    assert("Your C compiler type"@.len() == 20);
    reveal_strlit("A character (usually an arrow) beside where the text is entered in your terminal");
    assert("A character (usually an arrow) beside where the text is entered in your terminal"@.len() == 80);
    reveal_strlit("The currently installed version of CMake");
    assert("The currently installed version of CMake"@.len() == 40);
    reveal_strlit("How long the last command took to execute");
    assert("How long the last command took to execute"@.len() == 41);
    reveal_strlit("The currently installed version of COBOL/GNUCOBOL");
    assert("The currently installed version of COBOL/GNUCOBOL"@.len() == 49);
    reveal_strlit("The current conda environment, if $CONDA_DEFAULT_ENV is set");
    assert("The current conda environment, if $CONDA_DEFAULT_ENV is set"@.len() == 59);
    reveal_strlit("The container indicator, if inside a container.");
    assert("The container indicator, if inside a container."@.len() == 47);
    reveal_strlit("your cpp compiler type");
    assert("your cpp compiler type"@.len() == 22);
    reveal_strlit("The currently installed version of Crystal");
    assert("The currently installed version of Crystal"@.len() == 42);
    reveal_strlit("The Daml SDK version of your project");
    assert("The Daml SDK version of your project"@.len() == 36);
    reveal_strlit("The currently installed version of Dart");
    assert("The currently installed version of Dart"@.len() == 39);
    reveal_strlit("The currently installed version of Deno");
    assert("The currently installed version of Deno"@.len() == 39);
    reveal_strlit("The current working directory");
    assert("The current working directory"@.len() == 29);
    reveal_strlit("The currently applied direnv file");
    assert("The currently applied direnv file"@.len() == 33);
    reveal_strlit("The current docker context");
    assert("The current docker context"@.len() == 26);
    reveal_strlit("The relevant version of the .NET Core SDK for the current directory");
    assert("The relevant version of the .NET Core SDK for the current directory"@.len() == 67);
    reveal_strlit("The currently installed versions of Elixir and OTP");
    assert("The currently installed versions of Elixir and OTP"@.len() == 50);
    reveal_strlit("The currently installed version of Elm");
    assert("The currently installed version of Elm"@.len() == 38);
    reveal_strlit("Displays the current value of a selected environment variable");
    assert("Displays the current value of a selected environment variable"@.len() == 61);
    reveal_strlit("Current OTP version");
    assert("Current OTP version"@.len() == 19);
    reveal_strlit("The currently installed version of Fennel");
    assert("The currently installed version of Fennel"@.len() == 41);
    reveal_strlit("Fills the remaining space on the line with a pad string");
    assert("Fills the remaining space on the line with a pad string"@.len() == 55);
    reveal_strlit("The currently used version of Fortran");
    assert("The currently used version of Fortran"@.len() == 37);
    reveal_strlit("The active branch of the check-out in your current directory");
    assert("The active branch of the check-out in your current directory"@.len() == 60);
    reveal_strlit("The currently added/deleted lines in your check-out");
    assert("The currently added/deleted lines in your check-out"@.len() == 51);
    reveal_strlit("The current GCP client configuration");
    assert("The current GCP client configuration"@.len() == 36);
    reveal_strlit("The active branch of the repo in your current directory");
    assert("The active branch of the repo in your current directory"@.len() == 55);
    reveal_strlit("The active commit (and tag if any) of the repo in your current directory");
    assert("The active commit (and tag if any) of the repo in your current directory"@.len() == 72);
    reveal_strlit("The currently added/deleted lines in your repo");
    assert("The currently added/deleted lines in your repo"@.len() == 46);
    reveal_strlit("The current git operation, and it's progress");
    assert("The current git operation, and it's progress"@.len() == 44);
    reveal_strlit("Symbol representing the state of the repo");
    assert("Symbol representing the state of the repo"@.len() == 41);
    reveal_strlit("The currently installed version of Gleam");
    assert("The currently installed version of Gleam"@.len() == 40);
    reveal_strlit("The currently installed version of Golang");
    assert("The currently installed version of Golang"@.len() == 41);
    reveal_strlit("The currently installed version of Gradle");
    assert("The currently installed version of Gradle"@.len() == 41);
    reveal_strlit("The guix-shell environment");
    assert("The guix-shell environment"@.len() == 26);
    reveal_strlit("The selected version of the Haskell toolchain");
    assert("The selected version of the Haskell toolchain"@.len() == 45);
    reveal_strlit("The currently installed version of Haxe");
    assert("The currently installed version of Haxe"@.len() == 39);
    reveal_strlit("The currently installed version of Helm");
    assert("The currently installed version of Helm"@.len() == 39);
    reveal_strlit("The active branch and topic of the repo in your current directory");
    assert("The active branch and topic of the repo in your current directory"@.len() == 65);
    reveal_strlit("The current hg operation");
    assert("The current hg operation"@.len() == 24);
    reveal_strlit("The system hostname");
    assert("The system hostname"@.len() == 19);
    reveal_strlit("The currently installed version of Java");
    assert("The currently installed version of Java"@.len() == 39);
    reveal_strlit("The current number of jobs running");
    assert("The current number of jobs running"@.len() == 34);
    reveal_strlit("The currently installed version of Julia");
    assert("The currently installed version of Julia"@.len() == 40);
    reveal_strlit("The currently installed version of Kotlin");
    assert("The currently installed version of Kotlin"@.len() == 41);
    reveal_strlit("The current Kubernetes context name and, if set, the namespace");
    assert("The current Kubernetes context name and, if set, the namespace"@.len() == 62);
    reveal_strlit("Separates the prompt into two lines");
    assert("Separates the prompt into two lines"@.len() == 35);
    reveal_strlit("The currently assigned ipv4 address");
    assert("The currently assigned ipv4 address"@.len() == 35);
    reveal_strlit("The currently installed version of Lua");
    assert("The currently installed version of Lua"@.len() == 38);
    reveal_strlit("The Maven Wrapper version of the current project");
    assert("The Maven Wrapper version of the current project"@.len() == 48);
    reveal_strlit("Current system memory and swap usage");
    assert("Current system memory and swap usage"@.len() == 36);
    reveal_strlit("The current Meson environment, if $MESON_DEVENV and $MESON_PROJECT_NAME are set");
    assert("The current Meson environment, if $MESON_DEVENV and $MESON_PROJECT_NAME are set"@.len() == 79);
    reveal_strlit("The current mise status");
    assert("The current mise status"@.len() == 23);
    reveal_strlit("The currently installed version of Mojo");
    assert("The currently installed version of Mojo"@.len() == 39);
    reveal_strlit("The current NATS context");
    assert("The current NATS context"@.len() == 24);
    reveal_strlit("The current network namespace");
    assert("The current network namespace"@.len() == 29);
    reveal_strlit("The currently installed version of Nim");
    assert("The currently installed version of Nim"@.len() == 38);
    reveal_strlit("The nix-shell environment");
    assert("The nix-shell environment"@.len() == 25);
    reveal_strlit("The currently installed version of NodeJS");
    assert("The currently installed version of NodeJS"@.len() == 41);
    reveal_strlit("The currently installed version of OCaml");
    assert("The currently installed version of OCaml"@.len() == 40);
    reveal_strlit("The currently installed version of Odin");
    assert("The currently installed version of Odin"@.len() == 39);
    reveal_strlit("The currently installed version of Open Platform Agent");
    assert("The currently installed version of Open Platform Agent"@.len() == 54);
    reveal_strlit("The current OpenStack cloud and project");
    assert("The current OpenStack cloud and project"@.len() == 39);
    reveal_strlit("The current operating system");
    assert("The current operating system"@.len() == 28);
    reveal_strlit("The package version of the current directory's project");
    assert("The package version of the current directory's project"@.len() == 54);
    reveal_strlit("The currently installed version of Perl");
    assert("The currently installed version of Perl"@.len() == 39);
    reveal_strlit("The currently installed version of PHP");
    assert("The currently installed version of PHP"@.len() == 38);
    reveal_strlit("The current channel of the repo in the current directory");
    assert("The current channel of the repo in the current directory"@.len() == 56);
    reveal_strlit("The currently installed version of Pixi, and the active environment if $PIXI_ENVIRONMENT_NAME is set");
    assert("The currently installed version of Pixi, and the active environment if $PIXI_ENVIRONMENT_NAME is set"@.len() == 100);
    reveal_strlit("The current username, stack, and installed version of Pulumi");
    assert("The current username, stack, and installed version of Pulumi"@.len() == 60);
    reveal_strlit("The currently installed version of PureScript");
    assert("The currently installed version of PureScript"@.len() == 45);
    reveal_strlit("The currently installed version of Python");
    assert("The currently installed version of Python"@.len() == 41);
    reveal_strlit("The current installed version of quarto");
    assert("The current installed version of quarto"@.len() == 39);
    reveal_strlit("The currently installed version of Raku");
    assert("The currently installed version of Raku"@.len() == 39);
    reveal_strlit("The currently installed version of Red");
    assert("The currently installed version of Red"@.len() == 38);
    reveal_strlit("The currently installed version of R");
    assert("The currently installed version of R"@.len() == 36);
    reveal_strlit("The currently installed version of Ruby");
    assert("The currently installed version of Ruby"@.len() == 39);
    reveal_strlit("The currently installed version of Rust");
    assert("The currently installed version of Rust"@.len() == 39);
    reveal_strlit("The currently installed version of Scala");
    assert("The currently installed version of Scala"@.len() == 40);
    reveal_strlit("The currently used shell indicator");
    assert("The currently used shell indicator"@.len() == 34);
    reveal_strlit("The current value of SHLVL");
    assert("The current value of SHLVL"@.len() == 26);
    reveal_strlit("The currently used Singularity image");
    assert("The currently used Singularity image"@.len() == 36);
    reveal_strlit("The current installed version of Solidity");
    assert("The current installed version of Solidity"@.len() == 41);
    reveal_strlit("The current spack environment, if $SPACK_ENV is set");
    assert("The current spack environment, if $SPACK_ENV is set"@.len() == 51);
    reveal_strlit("The status of the last command");
    assert("The status of the last command"@.len() == 30);
    reveal_strlit("The sudo credentials are currently cached");
    assert("The sudo credentials are currently cached"@.len() == 41);
    reveal_strlit("The currently installed version of Swift");
    assert("The currently installed version of Swift"@.len() == 40);
    reveal_strlit("The currently selected terraform workspace and version");
    assert("The currently selected terraform workspace and version"@.len() == 54);
    reveal_strlit("The current local time");
    assert("The current local time"@.len() == 22);
    reveal_strlit("The current installed version of typst");
    assert("The current installed version of typst"@.len() == 38);
    reveal_strlit("The active user's username");
    assert("The active user's username"@.len() == 26);
    reveal_strlit("The currently installed version of Vagrant");
    assert("The currently installed version of Vagrant"@.len() == 42);
    reveal_strlit("The currently active VCS repository (first one matching)");
    assert("The currently active VCS repository (first one matching)"@.len() == 56);
    reveal_strlit("The currently active VCSH repository");
    assert("The currently active VCSH repository"@.len() == 36);
    reveal_strlit("The currently installed version of V");
    assert("The currently installed version of V"@.len() == 36);
    reveal_strlit("The currently installed version of XMake");
    assert("The currently installed version of XMake"@.len() == 40);
    reveal_strlit("The currently installed version of Zig");
    assert("The currently installed version of Zig"@.len() == 38);
}


/// Every module has a description of its own: two different modules never
/// share one.
#[verifier::rlimit(100)]
#[verifier::spinoff_prover]
pub proof fn lemma_descriptions_distinct(a: Seq<char>, b: Seq<char>)
    requires
        is_module_name(a),
        is_module_name(b),
        a != b,
    ensures
        module_description(a) != module_description(b),
{
    reveal_strlit("The current AWS region and profile");
    assert("The current AWS region and profile"@.len() == 34);
    reveal_strlit("The current Azure subscription");
    assert("The current Azure subscription"@.len() == 30);
    reveal_strlit("The current charge of the device's battery and its current charging status");
    assert("The current charge of the device's battery and its current charging status"@.len() == 74);
    reveal_strlit("The currently installed version of the Buf CLI");
    assert("The currently installed version of the Buf CLI"@.len() == 46);
    reveal_strlit("The currently installed version of the Bun");
    assert("The currently installed version of the Bun"@.len() == 42);
    reveal_strlit("Your C compiler type");
    assert("Your C compiler type"@.len() == 20);
    reveal_strlit("A character (usually an arrow) beside where the text is entered in your terminal");
    assert("A character (usually an arrow) beside where the text is entered in your terminal"@.len() == 80);
    reveal_strlit("The currently installed version of CMake");
    assert("The currently installed version of CMake"@.len() == 40);
    reveal_strlit("How long the last command took to execute");
    assert("How long the last command took to execute"@.len() == 41);
    reveal_strlit("The currently installed version of COBOL/GNUCOBOL");
    assert("The currently installed version of COBOL/GNUCOBOL"@.len() == 49);
    reveal_strlit("The current conda environment, if $CONDA_DEFAULT_ENV is set");
    assert("The current conda environment, if $CONDA_DEFAULT_ENV is set"@.len() == 59);
    reveal_strlit("The container indicator, if inside a container.");
    assert("The container indicator, if inside a container."@.len() == 47);
    reveal_strlit("your cpp compiler type");
    assert("your cpp compiler type"@.len() == 22);
    reveal_strlit("The currently installed version of Crystal");
    assert("The currently installed version of Crystal"@.len() == 42);
    reveal_strlit("The Daml SDK version of your project");
    assert("The Daml SDK version of your project"@.len() == 36);
    reveal_strlit("The currently installed version of Dart");
    assert("The currently installed version of Dart"@.len() == 39);
    reveal_strlit("The currently installed version of Deno");
    assert("The currently installed version of Deno"@.len() == 39);
    reveal_strlit("The current working directory");
    assert("The current working directory"@.len() == 29);
    reveal_strlit("The currently applied direnv file");
    assert("The currently applied direnv file"@.len() == 33);
    reveal_strlit("The current docker context");
    assert("The current docker context"@.len() == 26);
    reveal_strlit("The relevant version of the .NET Core SDK for the current directory");
    assert("The relevant version of the .NET Core SDK for the current directory"@.len() == 67);
    reveal_strlit("The currently installed versions of Elixir and OTP");
    assert("The currently installed versions of Elixir and OTP"@.len() == 50);
    reveal_strlit("The currently installed version of Elm");
    assert("The currently installed version of Elm"@.len() == 38);
    reveal_strlit("Displays the current value of a selected environment variable");
    assert("Displays the current value of a selected environment variable"@.len() == 61);
    reveal_strlit("Current OTP version");
    assert("Current OTP version"@.len() == 19);
    reveal_strlit("The currently installed version of Fennel");
    assert("The currently installed version of Fennel"@.len() == 41);
    reveal_strlit("Fills the remaining space on the line with a pad string");
    assert("Fills the remaining space on the line with a pad string"@.len() == 55);
    reveal_strlit("The currently used version of Fortran");
    assert("The currently used version of Fortran"@.len() == 37);
    reveal_strlit("The active branch of the check-out in your current directory");
    assert("The active branch of the check-out in your current directory"@.len() == 60);
    reveal_strlit("The currently added/deleted lines in your check-out");
    assert("The currently added/deleted lines in your check-out"@.len() == 51);
    reveal_strlit("The current GCP client configuration");
    assert("The current GCP client configuration"@.len() == 36);
    reveal_strlit("The active branch of the repo in your current directory");
    assert("The active branch of the repo in your current directory"@.len() == 55);
    reveal_strlit("The active commit (and tag if any) of the repo in your current directory");
    assert("The active commit (and tag if any) of the repo in your current directory"@.len() == 72);
    reveal_strlit("The currently added/deleted lines in your repo");
    assert("The currently added/deleted lines in your repo"@.len() == 46);
    reveal_strlit("The current git operation, and it's progress");
    assert("The current git operation, and it's progress"@.len() == 44);
    reveal_strlit("Symbol representing the state of the repo");
    assert("Symbol representing the state of the repo"@.len() == 41);
    reveal_strlit("The currently installed version of Gleam");
    assert("The currently installed version of Gleam"@.len() == 40);
    reveal_strlit("The currently installed version of Golang");
    assert("The currently installed version of Golang"@.len() == 41);
    reveal_strlit("The currently installed version of Gradle");
    assert("The currently installed version of Gradle"@.len() == 41);
    reveal_strlit("The guix-shell environment");
    assert("The guix-shell environment"@.len() == 26);
    reveal_strlit("The selected version of the Haskell toolchain");
    assert("The selected version of the Haskell toolchain"@.len() == 45);
    reveal_strlit("The currently installed version of Haxe");
    assert("The currently installed version of Haxe"@.len() == 39);
    reveal_strlit("The currently installed version of Helm");
    assert("The currently installed version of Helm"@.len() == 39);
    reveal_strlit("The active branch and topic of the repo in your current directory");
    assert("The active branch and topic of the repo in your current directory"@.len() == 65);
    reveal_strlit("The current hg operation");
    assert("The current hg operation"@.len() == 24);
    reveal_strlit("The system hostname");
    assert("The system hostname"@.len() == 19);
    reveal_strlit("The currently installed version of Java");
    assert("The currently installed version of Java"@.len() == 39);
    reveal_strlit("The current number of jobs running");
    assert("The current number of jobs running"@.len() == 34);
    reveal_strlit("The currently installed version of Julia");
    assert("The currently installed version of Julia"@.len() == 40);
    reveal_strlit("The currently installed version of Kotlin");
    assert("The currently installed version of Kotlin"@.len() == 41);
    reveal_strlit("The current Kubernetes context name and, if set, the namespace");
    assert("The current Kubernetes context name and, if set, the namespace"@.len() == 62);
    reveal_strlit("Separates the prompt into two lines");
    assert("Separates the prompt into two lines"@.len() == 35);
    reveal_strlit("The currently assigned ipv4 address");
    assert("The currently assigned ipv4 address"@.len() == 35);
    reveal_strlit("The currently installed version of Lua");
    assert("The currently installed version of Lua"@.len() == 38);
    reveal_strlit("The Maven Wrapper version of the current project");
    assert("The Maven Wrapper version of the current project"@.len() == 48);
    reveal_strlit("Current system memory and swap usage");
    assert("Current system memory and swap usage"@.len() == 36);
    reveal_strlit("The current Meson environment, if $MESON_DEVENV and $MESON_PROJECT_NAME are set");
    assert("The current Meson environment, if $MESON_DEVENV and $MESON_PROJECT_NAME are set"@.len() == 79);
    reveal_strlit("The current mise status");
    assert("The current mise status"@.len() == 23);
    reveal_strlit("The currently installed version of Mojo");
    assert("The currently installed version of Mojo"@.len() == 39);
    reveal_strlit("The current NATS context");
    assert("The current NATS context"@.len() == 24);
    reveal_strlit("The current network namespace");
    assert("The current network namespace"@.len() == 29);
    reveal_strlit("The currently installed version of Nim");
    assert("The currently installed version of Nim"@.len() == 38);
    reveal_strlit("The nix-shell environment");
    assert("The nix-shell environment"@.len() == 25);
    reveal_strlit("The currently installed version of NodeJS");
    assert("The currently installed version of NodeJS"@.len() == 41);
    reveal_strlit("The currently installed version of OCaml");
    assert("The currently installed version of OCaml"@.len() == 40);
    reveal_strlit("The currently installed version of Odin");
    assert("The currently installed version of Odin"@.len() == 39);
    reveal_strlit("The currently installed version of Open Platform Agent");
    assert("The currently installed version of Open Platform Agent"@.len() == 54);
    reveal_strlit("The current OpenStack cloud and project");
    assert("The current OpenStack cloud and project"@.len() == 39);
    reveal_strlit("The current operating system");
    assert("The current operating system"@.len() == 28);
    reveal_strlit("The package version of the current directory's project");
    assert("The package version of the current directory's project"@.len() == 54);
    reveal_strlit("The currently installed version of Perl");
    assert("The currently installed version of Perl"@.len() == 39);
    reveal_strlit("The currently installed version of PHP");
    assert("The currently installed version of PHP"@.len() == 38);
    reveal_strlit("The current channel of the repo in the current directory");
    assert("The current channel of the repo in the current directory"@.len() == 56);
    reveal_strlit("The currently installed version of Pixi, and the active environment if $PIXI_ENVIRONMENT_NAME is set");
    assert("The currently installed version of Pixi, and the active environment if $PIXI_ENVIRONMENT_NAME is set"@.len() == 100);
    reveal_strlit("The current username, stack, and installed version of Pulumi");
    assert("The current username, stack, and installed version of Pulumi"@.len() == 60);
    reveal_strlit("The currently installed version of PureScript");
    assert("The currently installed version of PureScript"@.len() == 45);
    reveal_strlit("The currently installed version of Python");
    assert("The currently installed version of Python"@.len() == 41);
    reveal_strlit("The current installed version of quarto");
    assert("The current installed version of quarto"@.len() == 39);
    reveal_strlit("The currently installed version of Raku");
    assert("The currently installed version of Raku"@.len() == 39);
    reveal_strlit("The currently installed version of Red");
    assert("The currently installed version of Red"@.len() == 38);
    reveal_strlit("The currently installed version of R");
    assert("The currently installed version of R"@.len() == 36);
    reveal_strlit("The currently installed version of Ruby");
    assert("The currently installed version of Ruby"@.len() == 39);
    reveal_strlit("The currently installed version of Rust");
    assert("The currently installed version of Rust"@.len() == 39);
    reveal_strlit("The currently installed version of Scala");
    assert("The currently installed version of Scala"@.len() == 40);
    reveal_strlit("The currently used shell indicator");
    assert("The currently used shell indicator"@.len() == 34);
    reveal_strlit("The current value of SHLVL");
    assert("The current value of SHLVL"@.len() == 26);
    reveal_strlit("The currently used Singularity image");
    assert("The currently used Singularity image"@.len() == 36);
    reveal_strlit("The current installed version of Solidity");
    assert("The current installed version of Solidity"@.len() == 41);
    reveal_strlit("The current spack environment, if $SPACK_ENV is set");
    assert("The current spack environment, if $SPACK_ENV is set"@.len() == 51);
    reveal_strlit("The status of the last command");
    assert("The status of the last command"@.len() == 30);
    reveal_strlit("The sudo credentials are currently cached");
    assert("The sudo credentials are currently cached"@.len() == 41);
    reveal_strlit("The currently installed version of Swift");
    assert("The currently installed version of Swift"@.len() == 40);
    reveal_strlit("The currently selected terraform workspace and version");
    assert("The currently selected terraform workspace and version"@.len() == 54);
    reveal_strlit("The current local time");
    assert("The current local time"@.len() == 22);
    reveal_strlit("The current installed version of typst");
    assert("The current installed version of typst"@.len() == 38);
    reveal_strlit("The active user's username");
    assert("The active user's username"@.len() == 26);
    reveal_strlit("The currently installed version of Vagrant");
    assert("The currently installed version of Vagrant"@.len() == 42);
    reveal_strlit("The currently active VCS repository (first one matching)");
    assert("The currently active VCS repository (first one matching)"@.len() == 56);
    reveal_strlit("The currently active VCSH repository");
    assert("The currently active VCSH repository"@.len() == 36);
    reveal_strlit("The currently installed version of V");
    assert("The currently installed version of V"@.len() == 36);
    reveal_strlit("The currently installed version of XMake");
    assert("The currently installed version of XMake"@.len() == 40);
    reveal_strlit("The currently installed version of Zig");
    assert("The currently installed version of Zig"@.len() == 38);
    assert("The current AWS region and profile"@[12] != "The current number of jobs running"@[12]);
    assert("The current AWS region and profile"@[11] != "The currently used shell indicator"@[11]);
    assert("The current number of jobs running"@[11] != "The currently used shell indicator"@[11]);
    assert("The current Azure subscription"@[4] != "The status of the last command"@[4]);
    assert("The currently installed version of the Buf CLI"@[14] != "The currently added/deleted lines in your repo"@[14]);
    assert("The currently installed version of the Bun"@[35] != "The currently installed version of Crystal"@[35]);
    assert("The currently installed version of the Bun"@[35] != "The currently installed version of Vagrant"@[35]);
    assert("The currently installed version of Crystal"@[35] != "The currently installed version of Vagrant"@[35]);
    assert("The currently installed version of CMake"@[35] != "The currently installed version of Gleam"@[35]);
    assert("The currently installed version of CMake"@[35] != "The currently installed version of Julia"@[35]);
    assert("The currently installed version of CMake"@[35] != "The currently installed version of OCaml"@[35]);
    assert("The currently installed version of CMake"@[35] != "The currently installed version of Scala"@[35]);
    assert("The currently installed version of CMake"@[35] != "The currently installed version of Swift"@[35]);
    assert("The currently installed version of CMake"@[35] != "The currently installed version of XMake"@[35]);
    assert("The currently installed version of Gleam"@[35] != "The currently installed version of Julia"@[35]);
    assert("The currently installed version of Gleam"@[35] != "The currently installed version of OCaml"@[35]);
    assert("The currently installed version of Gleam"@[35] != "The currently installed version of Scala"@[35]);
    assert("The currently installed version of Gleam"@[35] != "The currently installed version of Swift"@[35]);
    assert("The currently installed version of Gleam"@[35] != "The currently installed version of XMake"@[35]);
    assert("The currently installed version of Julia"@[35] != "The currently installed version of OCaml"@[35]);
    assert("The currently installed version of Julia"@[35] != "The currently installed version of Scala"@[35]);
    assert("The currently installed version of Julia"@[35] != "The currently installed version of Swift"@[35]);
    assert("The currently installed version of Julia"@[35] != "The currently installed version of XMake"@[35]);
    assert("The currently installed version of OCaml"@[35] != "The currently installed version of Scala"@[35]);
    assert("The currently installed version of OCaml"@[35] != "The currently installed version of Swift"@[35]);
    assert("The currently installed version of OCaml"@[35] != "The currently installed version of XMake"@[35]);
    assert("The currently installed version of Scala"@[36] != "The currently installed version of Swift"@[36]);
    assert("The currently installed version of Scala"@[35] != "The currently installed version of XMake"@[35]);
    assert("The currently installed version of Swift"@[35] != "The currently installed version of XMake"@[35]);
    assert("How long the last command took to execute"@[0] != "The currently installed version of Fennel"@[0]);
    assert("How long the last command took to execute"@[0] != "Symbol representing the state of the repo"@[0]);
    assert("How long the last command took to execute"@[0] != "The currently installed version of Golang"@[0]);
    assert("How long the last command took to execute"@[0] != "The currently installed version of Gradle"@[0]);
    assert("How long the last command took to execute"@[0] != "The currently installed version of Kotlin"@[0]);
    assert("How long the last command took to execute"@[0] != "The currently installed version of NodeJS"@[0]);
    assert("How long the last command took to execute"@[0] != "The currently installed version of Python"@[0]);
    assert("How long the last command took to execute"@[0] != "The current installed version of Solidity"@[0]);
    assert("How long the last command took to execute"@[0] != "The sudo credentials are currently cached"@[0]);
    assert("The currently installed version of Fennel"@[0] != "Symbol representing the state of the repo"@[0]);
    assert("The currently installed version of Fennel"@[35] != "The currently installed version of Golang"@[35]);
    assert("The currently installed version of Fennel"@[35] != "The currently installed version of Gradle"@[35]);
    assert("The currently installed version of Fennel"@[35] != "The currently installed version of Kotlin"@[35]);
    assert("The currently installed version of Fennel"@[35] != "The currently installed version of NodeJS"@[35]);
    assert("The currently installed version of Fennel"@[35] != "The currently installed version of Python"@[35]);
    assert("The currently installed version of Fennel"@[11] != "The current installed version of Solidity"@[11]);
    assert("The currently installed version of Fennel"@[4] != "The sudo credentials are currently cached"@[4]);
    assert("Symbol representing the state of the repo"@[0] != "The currently installed version of Golang"@[0]);
    assert("Symbol representing the state of the repo"@[0] != "The currently installed version of Gradle"@[0]);
    assert("Symbol representing the state of the repo"@[0] != "The currently installed version of Kotlin"@[0]);
    assert("Symbol representing the state of the repo"@[0] != "The currently installed version of NodeJS"@[0]);
    assert("Symbol representing the state of the repo"@[0] != "The currently installed version of Python"@[0]);
    assert("Symbol representing the state of the repo"@[0] != "The current installed version of Solidity"@[0]);
    assert("Symbol representing the state of the repo"@[0] != "The sudo credentials are currently cached"@[0]);
    assert("The currently installed version of Golang"@[36] != "The currently installed version of Gradle"@[36]);
    assert("The currently installed version of Golang"@[35] != "The currently installed version of Kotlin"@[35]);
    assert("The currently installed version of Golang"@[35] != "The currently installed version of NodeJS"@[35]);
    assert("The currently installed version of Golang"@[35] != "The currently installed version of Python"@[35]);
    assert("The currently installed version of Golang"@[11] != "The current installed version of Solidity"@[11]);
    assert("The currently installed version of Golang"@[4] != "The sudo credentials are currently cached"@[4]);
    assert("The currently installed version of Gradle"@[35] != "The currently installed version of Kotlin"@[35]);
    assert("The currently installed version of Gradle"@[35] != "The currently installed version of NodeJS"@[35]);
    assert("The currently installed version of Gradle"@[35] != "The currently installed version of Python"@[35]);
    assert("The currently installed version of Gradle"@[11] != "The current installed version of Solidity"@[11]);
    assert("The currently installed version of Gradle"@[4] != "The sudo credentials are currently cached"@[4]);
    assert("The currently installed version of Kotlin"@[35] != "The currently installed version of NodeJS"@[35]);
    assert("The currently installed version of Kotlin"@[35] != "The currently installed version of Python"@[35]);
    assert("The currently installed version of Kotlin"@[11] != "The current installed version of Solidity"@[11]);
    assert("The currently installed version of Kotlin"@[4] != "The sudo credentials are currently cached"@[4]);
    assert("The currently installed version of NodeJS"@[35] != "The currently installed version of Python"@[35]);
    assert("The currently installed version of NodeJS"@[11] != "The current installed version of Solidity"@[11]);
    assert("The currently installed version of NodeJS"@[4] != "The sudo credentials are currently cached"@[4]);
    assert("The currently installed version of Python"@[11] != "The current installed version of Solidity"@[11]);
    assert("The currently installed version of Python"@[4] != "The sudo credentials are currently cached"@[4]);
    assert("The current installed version of Solidity"@[4] != "The sudo credentials are currently cached"@[4]);
    assert("your cpp compiler type"@[0] != "The current local time"@[0]);
    assert("The Daml SDK version of your project"@[4] != "The current GCP client configuration"@[4]);
    assert("The Daml SDK version of your project"@[0] != "Current system memory and swap usage"@[0]);
    assert("The Daml SDK version of your project"@[4] != "The currently installed version of R"@[4]);
    assert("The Daml SDK version of your project"@[4] != "The currently used Singularity image"@[4]);
    assert("The Daml SDK version of your project"@[4] != "The currently active VCSH repository"@[4]);
    assert("The Daml SDK version of your project"@[4] != "The currently installed version of V"@[4]);
    assert("The current GCP client configuration"@[0] != "Current system memory and swap usage"@[0]);
    assert("The current GCP client configuration"@[11] != "The currently installed version of R"@[11]);
    assert("The current GCP client configuration"@[11] != "The currently used Singularity image"@[11]);
    assert("The current GCP client configuration"@[11] != "The currently active VCSH repository"@[11]);
    assert("The current GCP client configuration"@[11] != "The currently installed version of V"@[11]);
    assert("Current system memory and swap usage"@[0] != "The currently installed version of R"@[0]);
    assert("Current system memory and swap usage"@[0] != "The currently used Singularity image"@[0]);
    assert("Current system memory and swap usage"@[0] != "The currently active VCSH repository"@[0]);
    assert("Current system memory and swap usage"@[0] != "The currently installed version of V"@[0]);
    assert("The currently installed version of R"@[14] != "The currently used Singularity image"@[14]);
    assert("The currently installed version of R"@[14] != "The currently active VCSH repository"@[14]);
    assert("The currently installed version of R"@[35] != "The currently installed version of V"@[35]);
    assert("The currently used Singularity image"@[14] != "The currently active VCSH repository"@[14]);
    assert("The currently used Singularity image"@[14] != "The currently installed version of V"@[14]);
    assert("The currently active VCSH repository"@[14] != "The currently installed version of V"@[14]);
    assert("The currently installed version of Dart"@[36] != "The currently installed version of Deno"@[36]);
    assert("The currently installed version of Dart"@[35] != "The currently installed version of Haxe"@[35]);
    assert("The currently installed version of Dart"@[35] != "The currently installed version of Helm"@[35]);
    assert("The currently installed version of Dart"@[35] != "The currently installed version of Java"@[35]);
    assert("The currently installed version of Dart"@[35] != "The currently installed version of Mojo"@[35]);
    assert("The currently installed version of Dart"@[35] != "The currently installed version of Odin"@[35]);
    assert("The currently installed version of Dart"@[11] != "The current OpenStack cloud and project"@[11]);
    assert("The currently installed version of Dart"@[35] != "The currently installed version of Perl"@[35]);
    assert("The currently installed version of Dart"@[11] != "The current installed version of quarto"@[11]);
    assert("The currently installed version of Dart"@[35] != "The currently installed version of Raku"@[35]);
    assert("The currently installed version of Dart"@[35] != "The currently installed version of Ruby"@[35]);
    assert("The currently installed version of Dart"@[35] != "The currently installed version of Rust"@[35]);
    assert("The currently installed version of Deno"@[35] != "The currently installed version of Haxe"@[35]);
    assert("The currently installed version of Deno"@[35] != "The currently installed version of Helm"@[35]);
    assert("The currently installed version of Deno"@[35] != "The currently installed version of Java"@[35]);
    assert("The currently installed version of Deno"@[35] != "The currently installed version of Mojo"@[35]);
    assert("The currently installed version of Deno"@[35] != "The currently installed version of Odin"@[35]);
    assert("The currently installed version of Deno"@[11] != "The current OpenStack cloud and project"@[11]);
    assert("The currently installed version of Deno"@[35] != "The currently installed version of Perl"@[35]);
    assert("The currently installed version of Deno"@[11] != "The current installed version of quarto"@[11]);
    assert("The currently installed version of Deno"@[35] != "The currently installed version of Raku"@[35]);
    assert("The currently installed version of Deno"@[35] != "The currently installed version of Ruby"@[35]);
    assert("The currently installed version of Deno"@[35] != "The currently installed version of Rust"@[35]);
    assert("The currently installed version of Haxe"@[36] != "The currently installed version of Helm"@[36]);
    assert("The currently installed version of Haxe"@[35] != "The currently installed version of Java"@[35]);
    assert("The currently installed version of Haxe"@[35] != "The currently installed version of Mojo"@[35]);
    assert("The currently installed version of Haxe"@[35] != "The currently installed version of Odin"@[35]);
    assert("The currently installed version of Haxe"@[11] != "The current OpenStack cloud and project"@[11]);
    assert("The currently installed version of Haxe"@[35] != "The currently installed version of Perl"@[35]);
    assert("The currently installed version of Haxe"@[11] != "The current installed version of quarto"@[11]);
    assert("The currently installed version of Haxe"@[35] != "The currently installed version of Raku"@[35]);
    assert("The currently installed version of Haxe"@[35] != "The currently installed version of Ruby"@[35]);
    assert("The currently installed version of Haxe"@[35] != "The currently installed version of Rust"@[35]);
    assert("The currently installed version of Helm"@[35] != "The currently installed version of Java"@[35]);
    assert("The currently installed version of Helm"@[35] != "The currently installed version of Mojo"@[35]);
    assert("The currently installed version of Helm"@[35] != "The currently installed version of Odin"@[35]);
    assert("The currently installed version of Helm"@[11] != "The current OpenStack cloud and project"@[11]);
    assert("The currently installed version of Helm"@[35] != "The currently installed version of Perl"@[35]);
    assert("The currently installed version of Helm"@[11] != "The current installed version of quarto"@[11]);
    assert("The currently installed version of Helm"@[35] != "The currently installed version of Raku"@[35]);
    assert("The currently installed version of Helm"@[35] != "The currently installed version of Ruby"@[35]);
    assert("The currently installed version of Helm"@[35] != "The currently installed version of Rust"@[35]);
    assert("The currently installed version of Java"@[35] != "The currently installed version of Mojo"@[35]);
    assert("The currently installed version of Java"@[35] != "The currently installed version of Odin"@[35]);
    assert("The currently installed version of Java"@[11] != "The current OpenStack cloud and project"@[11]);
    assert("The currently installed version of Java"@[35] != "The currently installed version of Perl"@[35]);
    assert("The currently installed version of Java"@[11] != "The current installed version of quarto"@[11]);
    assert("The currently installed version of Java"@[35] != "The currently installed version of Raku"@[35]);
    assert("The currently installed version of Java"@[35] != "The currently installed version of Ruby"@[35]);
    assert("The currently installed version of Java"@[35] != "The currently installed version of Rust"@[35]);
    assert("The currently installed version of Mojo"@[35] != "The currently installed version of Odin"@[35]);
    assert("The currently installed version of Mojo"@[11] != "The current OpenStack cloud and project"@[11]);
    assert("The currently installed version of Mojo"@[35] != "The currently installed version of Perl"@[35]);
    assert("The currently installed version of Mojo"@[11] != "The current installed version of quarto"@[11]);
    assert("The currently installed version of Mojo"@[35] != "The currently installed version of Raku"@[35]);
    assert("The currently installed version of Mojo"@[35] != "The currently installed version of Ruby"@[35]);
    assert("The currently installed version of Mojo"@[35] != "The currently installed version of Rust"@[35]);
    assert("The currently installed version of Odin"@[11] != "The current OpenStack cloud and project"@[11]);
    assert("The currently installed version of Odin"@[35] != "The currently installed version of Perl"@[35]);
    assert("The currently installed version of Odin"@[11] != "The current installed version of quarto"@[11]);
    assert("The currently installed version of Odin"@[35] != "The currently installed version of Raku"@[35]);
    assert("The currently installed version of Odin"@[35] != "The currently installed version of Ruby"@[35]);
    assert("The currently installed version of Odin"@[35] != "The currently installed version of Rust"@[35]);
    assert("The current OpenStack cloud and project"@[11] != "The currently installed version of Perl"@[11]);
    assert("The current OpenStack cloud and project"@[12] != "The current installed version of quarto"@[12]);
    assert("The current OpenStack cloud and project"@[11] != "The currently installed version of Raku"@[11]);
    assert("The current OpenStack cloud and project"@[11] != "The currently installed version of Ruby"@[11]);
    assert("The current OpenStack cloud and project"@[11] != "The currently installed version of Rust"@[11]);
    assert("The currently installed version of Perl"@[11] != "The current installed version of quarto"@[11]);
    assert("The currently installed version of Perl"@[35] != "The currently installed version of Raku"@[35]);
    assert("The currently installed version of Perl"@[35] != "The currently installed version of Ruby"@[35]);
    assert("The currently installed version of Perl"@[35] != "The currently installed version of Rust"@[35]);
    assert("The current installed version of quarto"@[11] != "The currently installed version of Raku"@[11]);
    assert("The current installed version of quarto"@[11] != "The currently installed version of Ruby"@[11]);
    assert("The current installed version of quarto"@[11] != "The currently installed version of Rust"@[11]);
    assert("The currently installed version of Raku"@[36] != "The currently installed version of Ruby"@[36]);
    assert("The currently installed version of Raku"@[36] != "The currently installed version of Rust"@[36]);
    assert("The currently installed version of Ruby"@[37] != "The currently installed version of Rust"@[37]);
    assert("The current working directory"@[12] != "The current network namespace"@[12]);
    assert("The current docker context"@[4] != "The guix-shell environment"@[4]);
    assert("The current docker context"@[12] != "The current value of SHLVL"@[12]);
    assert("The current docker context"@[4] != "The active user's username"@[4]);
    assert("The guix-shell environment"@[4] != "The current value of SHLVL"@[4]);
    assert("The guix-shell environment"@[4] != "The active user's username"@[4]);
    assert("The current value of SHLVL"@[4] != "The active user's username"@[4]);
    assert("The currently installed version of Elm"@[35] != "The currently installed version of Lua"@[35]);
    assert("The currently installed version of Elm"@[35] != "The currently installed version of Nim"@[35]);
    assert("The currently installed version of Elm"@[35] != "The currently installed version of PHP"@[35]);
    assert("The currently installed version of Elm"@[35] != "The currently installed version of Red"@[35]);
    assert("The currently installed version of Elm"@[11] != "The current installed version of typst"@[11]);
    assert("The currently installed version of Elm"@[35] != "The currently installed version of Zig"@[35]);
    assert("The currently installed version of Lua"@[35] != "The currently installed version of Nim"@[35]);
    assert("The currently installed version of Lua"@[35] != "The currently installed version of PHP"@[35]);
    assert("The currently installed version of Lua"@[35] != "The currently installed version of Red"@[35]);
    assert("The currently installed version of Lua"@[11] != "The current installed version of typst"@[11]);
    assert("The currently installed version of Lua"@[35] != "The currently installed version of Zig"@[35]);
    assert("The currently installed version of Nim"@[35] != "The currently installed version of PHP"@[35]);
    assert("The currently installed version of Nim"@[35] != "The currently installed version of Red"@[35]);
    assert("The currently installed version of Nim"@[11] != "The current installed version of typst"@[11]);
    assert("The currently installed version of Nim"@[35] != "The currently installed version of Zig"@[35]);
    assert("The currently installed version of PHP"@[35] != "The currently installed version of Red"@[35]);
    assert("The currently installed version of PHP"@[11] != "The current installed version of typst"@[11]);
    assert("The currently installed version of PHP"@[35] != "The currently installed version of Zig"@[35]);
    assert("The currently installed version of Red"@[11] != "The current installed version of typst"@[11]);
    assert("The currently installed version of Red"@[35] != "The currently installed version of Zig"@[35]);
    assert("The current installed version of typst"@[11] != "The currently installed version of Zig"@[11]);
    assert("Current OTP version"@[0] != "The system hostname"@[0]);
    assert("Fills the remaining space on the line with a pad string"@[0] != "The active branch of the repo in your current directory"@[0]);
    assert("The active branch of the check-out in your current directory"@[4] != "The current username, stack, and installed version of Pulumi"@[4]);
    assert("The currently added/deleted lines in your check-out"@[11] != "The current spack environment, if $SPACK_ENV is set"@[11]);
    assert("The selected version of the Haskell toolchain"@[4] != "The currently installed version of PureScript"@[4]);
    assert("The current hg operation"@[12] != "The current NATS context"@[12]);
    assert("Separates the prompt into two lines"@[0] != "The currently assigned ipv4 address"@[0]);
    assert("The currently installed version of Open Platform Agent"@[4] != "The package version of the current directory's project"@[4]);
    assert("The currently installed version of Open Platform Agent"@[14] != "The currently selected terraform workspace and version"@[14]);
    assert("The package version of the current directory's project"@[4] != "The currently selected terraform workspace and version"@[4]);
    assert("The current channel of the repo in the current directory"@[11] != "The currently active VCS repository (first one matching)"@[11]);
}

/// A module detects its project by any one of its criteria, each on its own:
/// a file it names, a file whose extension it names (whatever files it also
/// names), or a folder it names. Folders are matched by name only, and files
/// never by a folder's name.
pub proof fn lemma_detect_by_any_criterion(
    name: Seq<char>,
    files: Seq<&str>,
    extensions: Seq<&str>,
    folders: Seq<&str>,
    k: int,
)
    ensures
        (0 <= k < files.len() && files[k]@ == name) ==> entry_matches(
            name,
            false,
            files,
            extensions,
            folders,
        ),
        (0 <= k < extensions.len() && file_extension(name) == Some(extensions[k]@))
            ==> entry_matches(name, false, files, extensions, folders),
        (0 <= k < extensions.len() && file_extension(name) == Some(extensions[k]@))
            ==> entry_matches(name, false, Seq::empty(), extensions, folders),
        (0 <= k < folders.len() && folders[k]@ == name) ==> entry_matches(
            name,
            true,
            files,
            extensions,
            folders,
        ),
        entry_matches(name, true, files, extensions, folders) ==> exists|i: int|
            0 <= i < folders.len() && #[trigger] folders[i]@ == name,
        entry_matches(name, false, files, extensions, folders) ==> ((exists|i: int|
            0 <= i < files.len() && #[trigger] files[i]@ == name) || exists|i: int|
            0 <= i < extensions.len() && file_extension(name) == Some(#[trigger] extensions[i]@)),
        (forall|i: int| 0 <= i < files.len() ==> #[trigger] files[i]@ != name) && (forall|i: int|
            0 <= i < extensions.len() ==> file_extension(name) != Some(#[trigger] extensions[i]@))
            ==> !entry_matches(name, false, files, extensions, folders),
{
}

/// A name that is no module's has no description: `description` gives
/// `<no description>` exactly for the names that are not modules'.
pub proof fn lemma_only_modules_have_descriptions(name: Seq<char>)
    ensures
        !is_module_name(name) ==> module_description(name) == "<no description>"@,
        is_module_name(name) ==> module_description(name) != "<no description>"@,
{
    if is_module_name(name) {
        lemma_all_modules_have_description(name);
    }
}

} // verus!
