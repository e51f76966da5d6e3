//! Settings of the `jobs` module.
use vstd::prelude::*;

verus! {

#[derive(Clone)]
pub struct JobsConfig<'a> {
    pub threshold: i64,
    pub symbol_threshold: i64,
    pub number_threshold: i64,
    /// The format for the module.
    pub format: &'a str,
    pub symbol: &'a str,
    /// The style for the module.
    pub style: &'a str,
    pub disabled: bool,
}

impl<'a> Default for JobsConfig<'a> {
    fn default() -> (r: Self)
        ensures
            r.threshold == 1,
            r.symbol_threshold == 1,
            r.number_threshold == 2,
            r.format@ == "[$symbol$number]($style) "@,
            r.symbol@ == "✦"@,
            r.style@ == "bold blue"@,
            r.disabled == false,
    {
        JobsConfig {
            threshold: 1,
            symbol_threshold: 1,
            number_threshold: 2,
            format: "[$symbol$number]($style) ",
            symbol: "✦",
            style: "bold blue",
            disabled: false,
        }
    }
}

} // verus!
