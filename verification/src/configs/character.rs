//! Settings of the `character` module.
use vstd::prelude::*;

verus! {

#[derive(Clone)]
pub struct CharacterConfig<'a> {
    /// The format for the module.
    pub format: &'a str,
    /// The format string used before the text input if the previous command succeeded.
    pub success_symbol: &'a str,
    /// The format string used before the text input if the previous command failed.
    pub error_symbol: &'a str,
    /// The format string used before the text input if the shell is in vim normal mode.
    pub vimcmd_symbol: &'a str,
    /// The format string used before the text input if the shell is in vim replace mode.
    pub vimcmd_visual_symbol: &'a str,
    /// he format string used before the text input if the shell is in vim replace mode.
    pub vimcmd_replace_symbol: &'a str,
    /// The format string used before the text input if the shell is in vim `replace_one` mode.
    pub vimcmd_replace_one_symbol: &'a str,
    /// Disables the `character` module.
    pub disabled: bool,
}

impl<'a> Default for CharacterConfig<'a> {
    fn default() -> (r: Self)
        ensures
            r.format@ == "$symbol "@,
            r.success_symbol@ == "[❯](bold green)"@,
            r.error_symbol@ == "[❯](bold red)"@,
            r.vimcmd_symbol@ == "[❮](bold green)"@,
            r.vimcmd_visual_symbol@ == "[❮](bold yellow)"@,
            r.vimcmd_replace_symbol@ == "[❮](bold purple)"@,
            r.vimcmd_replace_one_symbol@ == "[❮](bold purple)"@,
            r.disabled == false,
    {
        CharacterConfig {
            format: "$symbol ",
            success_symbol: "[❯](bold green)",
            error_symbol: "[❯](bold red)",
            vimcmd_symbol: "[❮](bold green)",
            vimcmd_visual_symbol: "[❮](bold yellow)",
            vimcmd_replace_symbol: "[❮](bold purple)",
            vimcmd_replace_one_symbol: "[❮](bold purple)",
            disabled: false,
        }
    }
}

} // verus!
