//! Settings of the `rlang` module.
use vstd::prelude::*;

verus! {

#[derive(Clone)]
pub struct RLangConfig<'a> {
    /// The format for the module.
    pub format: &'a str,
    /// The version format. Available vars are `raw`, `major`, `minor`, & `patch`
    pub version_format: &'a str,
    /// The style for the module.
    pub style: &'a str,
    pub symbol: &'a str,
    pub disabled: bool,
    /// Which extensions should trigger this module.
    pub detect_extensions: Vec<&'a str>,
    /// Which filenames should trigger this module.
    pub detect_files: Vec<&'a str>,
    /// Which folders should trigger this module.
    pub detect_folders: Vec<&'a str>,
}

impl<'a> Default for RLangConfig<'a> {
    fn default() -> (r: Self)
        ensures
            r.format@ == "via [$symbol($version )]($style)"@,
            r.version_format@ == "v${raw}"@,
            r.style@ == "blue bold"@,
            r.symbol@ == "📐 "@,
            r.disabled == false,
            r.detect_extensions@ == seq!["R", "Rd", "Rmd", "Rproj", "Rsx"],
            r.detect_files@ == seq![".Rprofile"],
            r.detect_folders@ == seq![".Rproj.user"],
    {
        RLangConfig {
            format: "via [$symbol($version )]($style)",
            version_format: "v${raw}",
            style: "blue bold",
            symbol: "📐 ",
            disabled: false,
            detect_extensions: vec!["R", "Rd", "Rmd", "Rproj", "Rsx"],
            detect_files: vec![".Rprofile"],
            detect_folders: vec![".Rproj.user"],
        }
    }
}

} // verus!
