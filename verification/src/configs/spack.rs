//! Settings of the `spack` module.
use vstd::prelude::*;

verus! {

#[derive(Clone)]
pub struct SpackConfig<'a> {
    pub truncation_length: usize,
    /// The format for the module.
    pub format: &'a str,
    pub symbol: &'a str,
    /// The style for the module.
    pub style: &'a str,
    pub disabled: bool,
}

impl<'a> Default for SpackConfig<'a> {
    fn default() -> (r: Self)
        ensures
            r.truncation_length == 1,
            r.format@ == "via [$symbol$environment]($style) "@,
            r.symbol@ == "🅢 "@,
            r.style@ == "blue bold"@,
            r.disabled == false,
    {
        SpackConfig {
            truncation_length: 1,
            format: "via [$symbol$environment]($style) ",
            symbol: "🅢 ",
            style: "blue bold",
            disabled: false,
        }
    }
}

} // verus!
