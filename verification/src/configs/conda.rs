//! Settings of the `conda` module.
use vstd::prelude::*;

verus! {

#[derive(Clone)]
pub struct CondaConfig<'a> {
    pub truncation_length: usize,
    /// The format for the module.
    pub format: &'a str,
    pub symbol: &'a str,
    /// The style for the module.
    pub style: &'a str,
    pub ignore_base: bool,
    pub disabled: bool,
}

impl<'a> Default for CondaConfig<'a> {
    fn default() -> (r: Self)
        ensures
            r.truncation_length == 1,
            r.format@ == "via [$symbol$environment]($style) "@,
            r.symbol@ == "🅒 "@,
            r.style@ == "green bold"@,
            r.ignore_base == true,
            r.disabled == false,
    {
        CondaConfig {
            truncation_length: 1,
            format: "via [$symbol$environment]($style) ",
            symbol: "🅒 ",
            style: "green bold",
            ignore_base: true,
            disabled: false,
        }
    }
}

} // verus!
