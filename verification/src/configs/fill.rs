//! Settings of the `fill` module.
use vstd::prelude::*;

verus! {

#[derive(Clone)]
pub struct FillConfig<'a> {
    /// The style for the module.
    pub style: &'a str,
    pub symbol: &'a str,
    pub disabled: bool,
}

impl<'a> Default for FillConfig<'a> {
    fn default() -> (r: Self)
        ensures
            r.style@ == "bold black"@,
            r.symbol@ == "."@,
            r.disabled == false,
    {
        FillConfig {
            style: "bold black",
            symbol: ".",
            disabled: false,
        }
    }
}

} // verus!
