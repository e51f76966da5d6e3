//! Settings of the `shlvl` module.
use vstd::prelude::*;

verus! {

#[derive(Clone)]
pub struct ShLvlConfig<'a> {
    pub threshold: i64,
    /// The format for the module.
    pub format: &'a str,
    pub symbol: &'a str,
    pub repeat: bool,
    /// The style for the module.
    pub style: &'a str,
    pub disabled: bool,
}

impl<'a> Default for ShLvlConfig<'a> {
    fn default() -> (r: Self)
        ensures
            r.threshold == 2,
            r.format@ == "[$symbol$shlvl]($style) "@,
            r.symbol@ == "↕️  "@,
            r.repeat == false,
            r.style@ == "bold yellow"@,
            r.disabled == true,
    {
        ShLvlConfig {
            threshold: 2,
            format: "[$symbol$shlvl]($style) ",
            symbol: "↕️  ",
            repeat: false,
            style: "bold yellow",
            disabled: true,
        }
    }
}

} // verus!
