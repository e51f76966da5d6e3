//! Settings of the `sudo` module.
use vstd::prelude::*;

verus! {

#[derive(Clone)]
pub struct SudoConfig<'a> {
    /// The format for the module.
    pub format: &'a str,
    pub symbol: &'a str,
    /// The style for the module.
    pub style: &'a str,
    pub allow_windows: bool,
    pub disabled: bool,
}

impl<'a> Default for SudoConfig<'a> {
    fn default() -> (r: Self)
        ensures
            r.format@ == "[as $symbol]($style)"@,
            r.symbol@ == "🧙 "@,
            r.style@ == "bold blue"@,
            r.allow_windows == false,
            r.disabled == true,
    {
        SudoConfig {
            format: "[as $symbol]($style)",
            symbol: "🧙 ",
            style: "bold blue",
            allow_windows: false,
            disabled: true,
        }
    }
}

} // verus!
