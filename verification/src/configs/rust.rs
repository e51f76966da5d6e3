//! Settings of the `rust` module.
use vstd::prelude::*;

verus! {

#[derive(Clone)]
pub struct RustConfig<'a> {
    /// The format for the module.
    pub format: &'a str,
    /// The version format. Available vars are `raw`, `major`, `minor`, & `patch`
    pub version_format: &'a str,
    pub symbol: &'a str,
    /// The style for the module.
    pub style: &'a str,
    pub disabled: bool,
    /// Which extensions should trigger this module.
    pub detect_extensions: Vec<&'a str>,
    /// Which filenames should trigger this module.
    pub detect_files: Vec<&'a str>,
    /// Which folders should trigger this module.
    pub detect_folders: Vec<&'a str>,
}

impl<'a> Default for RustConfig<'a> {
    fn default() -> (r: Self)
        ensures
            r.format@ == "via [$symbol($version )]($style)"@,
            r.version_format@ == "v${raw}"@,
            r.symbol@ == "🦀 "@,
            r.style@ == "bold red"@,
            r.disabled == false,
            r.detect_extensions@ == seq!["rs"],
            r.detect_files@ == seq!["Cargo.toml"],
            r.detect_folders@.len() == 0,
    {
        RustConfig {
            format: "via [$symbol($version )]($style)",
            version_format: "v${raw}",
            symbol: "🦀 ",
            style: "bold red",
            disabled: false,
            detect_extensions: vec!["rs"],
            detect_files: vec!["Cargo.toml"],
            detect_folders: vec![],
        }
    }
}

} // verus!
