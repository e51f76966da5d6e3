//! Settings of the `buf` module.
use vstd::prelude::*;

verus! {

#[derive(Clone)]
pub struct BufConfig<'a> {
    /// The format for the `buf` module.
    pub format: &'a str,
    /// The version format. Available vars are `raw`, `major`, `minor`, & `patch`
    pub version_format: &'a str,
    /// The symbol used before displaying the version of Buf.
    pub symbol: &'a str,
    /// The style for the module.
    pub style: &'a str,
    /// Disables the `elixir` module.
    pub disabled: bool,
    /// Which extensions should trigger this module.
    pub detect_extensions: Vec<&'a str>,
    /// Which filenames should trigger this module.
    pub detect_files: Vec<&'a str>,
    /// Which folders should trigger this module.
    pub detect_folders: Vec<&'a str>,
}

impl<'a> Default for BufConfig<'a> {
    fn default() -> (r: Self)
        ensures
            r.format@ == "with [$symbol ($version)]($style)"@,
            r.version_format@ == "v${raw}"@,
            r.symbol@ == ""@,
            r.style@ == "bold blue"@,
            r.disabled == false,
            r.detect_extensions@.len() == 0,
            r.detect_files@ == seq!["buf.yaml", "buf.gen.yaml", "buf.work.yaml"],
            r.detect_folders@.len() == 0,
    {
        BufConfig {
            format: "with [$symbol ($version)]($style)",
            version_format: "v${raw}",
            symbol: "",
            style: "bold blue",
            disabled: false,
            detect_extensions: vec![],
            detect_files: vec!["buf.yaml", "buf.gen.yaml", "buf.work.yaml"],
            detect_folders: vec![],
        }
    }
}

} // verus!
