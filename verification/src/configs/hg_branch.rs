//! Settings of the `hg_branch` module.
use vstd::prelude::*;

verus! {

#[derive(Clone)]
pub struct HgBranchConfig<'a> {
    pub symbol: &'a str,
    /// The style for the module.
    pub style: &'a str,
    /// The format for the module.
    pub format: &'a str,
    pub truncation_length: i64,
    pub truncation_symbol: &'a str,
    pub disabled: bool,
}

impl<'a> Default for HgBranchConfig<'a> {
    fn default() -> (r: Self)
        ensures
            r.symbol@ == " "@,
            r.style@ == "bold purple"@,
            r.format@ == "on [$symbol$branch]($style) "@,
            r.truncation_length == i64::MAX,
            r.truncation_symbol@ == "…"@,
            r.disabled == true,
    {
        HgBranchConfig {
            symbol: " ",
            style: "bold purple",
            format: "on [$symbol$branch]($style) ",
            truncation_length: i64::MAX,
            truncation_symbol: "…",
            disabled: true,
        }
    }
}

} // verus!
