//! Settings of the `git_commit` module.
use vstd::prelude::*;

verus! {

#[derive(Clone)]
pub struct GitCommitConfig<'a> {
    pub commit_hash_length: usize,
    /// The format for the module.
    pub format: &'a str,
    /// The style for the module.
    pub style: &'a str,
    pub only_detached: bool,
    pub disabled: bool,
    pub tag_symbol: &'a str,
    pub tag_disabled: bool,
}

impl<'a> Default for GitCommitConfig<'a> {
    fn default() -> (r: Self)
        ensures
            r.commit_hash_length == 7,
            r.format@ == "[\\($hash$tag\\)]($style) "@,
            r.style@ == "green bold"@,
            r.only_detached == true,
            r.disabled == false,
            r.tag_symbol@ == " 🏷  "@,
            r.tag_disabled == true,
    {
        GitCommitConfig {
            commit_hash_length: 7,
            format: "[\\($hash$tag\\)]($style) ",
            style: "green bold",
            only_detached: true,
            disabled: false,
            tag_symbol: " 🏷  ",
            tag_disabled: true,
        }
    }
}

} // verus!
