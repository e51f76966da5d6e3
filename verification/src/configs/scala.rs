//! Settings of the `scala` module.
use vstd::prelude::*;

verus! {

#[derive(Clone)]
pub struct ScalaConfig<'a> {
    /// The format for the module.
    pub format: &'a str,
    /// The version format. Available vars are `raw`, `major`, `minor`, & `patch`
    pub version_format: &'a str,
    pub disabled: bool,
    /// The style for the module.
    pub style: &'a str,
    pub symbol: &'a str,
    /// Which extensions should trigger this module.
    pub detect_extensions: Vec<&'a str>,
    /// Which filenames should trigger this module.
    pub detect_files: Vec<&'a str>,
    /// Which folders should trigger this module.
    pub detect_folders: Vec<&'a str>,
}

impl<'a> Default for ScalaConfig<'a> {
    fn default() -> (r: Self)
        ensures
            r.format@ == "via [$symbol($version )]($style)"@,
            r.version_format@ == "v${raw}"@,
            r.disabled == false,
            r.style@ == "red bold"@,
            r.symbol@ == "🆂 "@,
            r.detect_extensions@ == seq!["sbt", "scala"],
            r.detect_files@ == seq![".scalaenv", ".sbtenv", "build.sbt"],
            r.detect_folders@ == seq![".metals"],
    {
        ScalaConfig {
            format: "via [$symbol($version )]($style)",
            version_format: "v${raw}",
            disabled: false,
            style: "red bold",
            symbol: "🆂 ",
            detect_extensions: vec!["sbt", "scala"],
            detect_files: vec![".scalaenv", ".sbtenv", "build.sbt"],
            detect_folders: vec![".metals"],
        }
    }
}

} // verus!
