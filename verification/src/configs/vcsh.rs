//! Settings of the `vcsh` module.
use vstd::prelude::*;

verus! {

#[derive(Clone)]
pub struct VcshConfig<'a> {
    pub symbol: &'a str,
    /// The style for the module.
    pub style: &'a str,
    /// The format for the module.
    pub format: &'a str,
    pub disabled: bool,
}

impl<'a> Default for VcshConfig<'a> {
    fn default() -> (r: Self)
        ensures
            r.symbol@ == ""@,
            r.style@ == "bold yellow"@,
            r.format@ == "vcsh [$symbol$repo]($style) "@,
            r.disabled == false,
    {
        VcshConfig {
            symbol: "",
            style: "bold yellow",
            format: "vcsh [$symbol$repo]($style) ",
            disabled: false,
        }
    }
}

} // verus!
