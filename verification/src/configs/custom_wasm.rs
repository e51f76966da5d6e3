//! Settings of the `custom_wasm` module.
use crate::config::{Either, VecOr};
use vstd::prelude::*;

verus! {

#[derive(Clone)]
pub struct CustomWasmConfig<'a> {
    pub format: &'a str,
    pub symbol: &'a str,
    pub wasm_path: &'a str,
    pub style: &'a str,
    pub disabled: bool,
    pub detect_files: Vec<&'a str>,
    pub detect_extensions: Vec<&'a str>,
    pub detect_folders: Vec<&'a str>,
    pub when: Either<bool, &'a str>,
    pub require_repo: bool,
    pub shell: VecOr<&'a str>,
    pub os: Option<&'a str>,
    pub use_stdin: Option<bool>,
    pub ignore_timeout: bool,
    pub description: &'a str,
}

impl<'a> Default for CustomWasmConfig<'a> {
    fn default() -> (r: Self)
        ensures
            r.format@ == "[$symbol$output]($style) "@,
            r.symbol@ == "🧩 "@,
            r.wasm_path@ == ""@,
            r.style@ == "bold blue"@,
            r.disabled == false,
            r.detect_files@.len() == 0,
            r.detect_extensions@.len() == 0,
            r.detect_folders@.len() == 0,
            r.when == Either::<bool, &'a str>::First(false),
            r.require_repo == false,
            r.shell.0@.len() == 0,
            r.os is None,
            r.use_stdin is None,
            r.ignore_timeout == false,
            r.description@ == "Custom WASM module"@,
    {
        CustomWasmConfig {
            format: "[$symbol$output]($style) ",
            symbol: "🧩 ",
            wasm_path: "",
            style: "bold blue",
            disabled: false,
            detect_files: Vec::default(),
            detect_extensions: Vec::default(),
            detect_folders: Vec::default(),
            when: Either::First(false),
            require_repo: false,
            shell: VecOr::default(),
            os: None,
            use_stdin: None,
            ignore_timeout: false,
            description: "Custom WASM module",
        }
    }
}

} // verus!
