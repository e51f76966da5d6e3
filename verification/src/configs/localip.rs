//! Settings of the `localip` module.
use vstd::prelude::*;

verus! {

#[derive(Clone)]
pub struct LocalipConfig<'a> {
    pub ssh_only: bool,
    /// The format for the module.
    pub format: &'a str,
    /// The style for the module.
    pub style: &'a str,
    pub disabled: bool,
}

impl<'a> Default for LocalipConfig<'a> {
    fn default() -> (r: Self)
        ensures
            r.ssh_only == true,
            r.format@ == "[$localipv4]($style) "@,
            r.style@ == "yellow bold"@,
            r.disabled == true,
    {
        LocalipConfig {
            ssh_only: true,
            format: "[$localipv4]($style) ",
            style: "yellow bold",
            disabled: true,
        }
    }
}

} // verus!
