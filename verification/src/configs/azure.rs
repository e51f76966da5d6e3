//! Settings of the `azure` module.
use vstd::prelude::*;

verus! {

#[derive(Clone)]
pub struct AzureConfig<'a> {
    /// The format for the Azure module to render.
    pub format: &'a str,
    /// The symbol used in the format.
    pub symbol: &'a str,
    /// The style for the module.
    pub style: &'a str,
    /// Disables the `azure` module.
    pub disabled: bool,
}

impl<'a> Default for AzureConfig<'a> {
    fn default() -> (r: Self)
        ensures
            r.format@ == "on [$symbol($subscription)]($style) "@,
            r.symbol@ == "ﴃ "@,
            r.style@ == "blue bold"@,
            r.disabled == true,
    {
        AzureConfig {
            format: "on [$symbol($subscription)]($style) ",
            symbol: "ﴃ ",
            style: "blue bold",
            disabled: true,
        }
    }
}

} // verus!
