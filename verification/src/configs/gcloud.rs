//! Settings of the `gcloud` module.
use std::collections::HashMap;
use vstd::prelude::*;

verus! {

#[derive(Clone)]
pub struct GcloudConfig<'a> {
    /// The format for the module.
    pub format: &'a str,
    pub symbol: &'a str,
    /// The style for the module.
    pub style: &'a str,
    pub disabled: bool,
    pub region_aliases: HashMap<String, &'a str>,
    pub project_aliases: HashMap<String, &'a str>,
}

impl<'a> Default for GcloudConfig<'a> {
    fn default() -> (r: Self)
        ensures
            r.format@ == "on [$symbol$account(@$domain)(\\($region\\))]($style) "@,
            r.symbol@ == "☁️  "@,
            r.style@ == "bold blue"@,
            r.disabled == false,
            r.region_aliases@ == Map::<String, &'a str>::empty(),
            r.project_aliases@ == Map::<String, &'a str>::empty(),
    {
        GcloudConfig {
            format: "on [$symbol$account(@$domain)(\\($region\\))]($style) ",
            symbol: "☁️  ",
            style: "bold blue",
            disabled: false,
            region_aliases: HashMap::new(),
            project_aliases: HashMap::new(),
        }
    }
}

} // verus!
