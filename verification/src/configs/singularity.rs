//! Settings of the `singularity` module.
use vstd::prelude::*;

verus! {

#[derive(Clone)]
pub struct SingularityConfig<'a> {
    pub symbol: &'a str,
    /// The format for the module.
    pub format: &'a str,
    /// The style for the module.
    pub style: &'a str,
    pub disabled: bool,
}

impl<'a> Default for SingularityConfig<'a> {
    fn default() -> (r: Self)
        ensures
            r.format@ == "[$symbol\\[$env\\]]($style) "@,
            r.symbol@ == ""@,
            r.style@ == "blue bold dimmed"@,
            r.disabled == false,
    {
        SingularityConfig {
            format: "[$symbol\\[$env\\]]($style) ",
            symbol: "",
            style: "blue bold dimmed",
            disabled: false,
        }
    }
}

} // verus!
