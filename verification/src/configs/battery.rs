//! Settings of the `battery` module.
use vstd::prelude::*;

verus! {

#[derive(Clone)]
pub struct BatteryConfig<'a> {
    /// The symbol shown when the battery is full.
    pub full_symbol: &'a str,
    /// The symbol shown when the battery is charging.
    pub charging_symbol: &'a str,
    /// The symbol shown when the battery is discharging.
    pub discharging_symbol: &'a str,
    /// The symbol shown when the battery state is unknown.
    pub unknown_symbol: &'a str,
    /// The symbol shown when the battery state is empty.
    pub empty_symbol: &'a str,
    /// Display threshold and style for the module.
    pub display: Vec<BatteryDisplayConfig<'a>>,
    /// Disables the `battery` module.
    pub disabled: bool,
    /// The format for the module.
    pub format: &'a str,
}

impl<'a> Default for BatteryConfig<'a> {
    fn default() -> (r: Self)
        ensures
            r.full_symbol@ == " "@,
            r.charging_symbol@ == " "@,
            r.discharging_symbol@ == " "@,
            r.unknown_symbol@ == " "@,
            r.empty_symbol@ == " "@,
            r.format@ == "[$symbol$percentage]($style) "@,
            r.display@.len() == 1,
            r.display@[0].threshold == 10,
            r.display@[0].style@ == "red bold"@,
            r.display@[0].charging_symbol is None,
            r.display@[0].discharging_symbol is None,
            r.disabled == false,
    {
        BatteryConfig {
            full_symbol: " ",
            charging_symbol: " ",
            discharging_symbol: " ",
            unknown_symbol: " ",
            empty_symbol: " ",
            format: "[$symbol$percentage]($style) ",
            display: vec![BatteryDisplayConfig::default()],
            disabled: false,
        }
    }
}

#[derive(Clone)]
pub struct BatteryDisplayConfig<'a> {
    /// The upper bound for the display
    pub threshold: i64,
    /// The style used if the display option is in use.
    /// The style for the module.
    pub style: &'a str,
    /// Optional symbol displayed if display option is in use, defaults to battery's `charging_symbol` option.
    pub charging_symbol: Option<&'a str>,
    /// Optional symbol displayed if display option is in use, defaults to battery's `discharging_symbol` option.
    pub discharging_symbol: Option<&'a str>,
}

impl<'a> Default for BatteryDisplayConfig<'a> {
    fn default() -> (r: Self)
        ensures
            r.threshold == 10,
            r.style@ == "red bold"@,
            r.charging_symbol is None,
            r.discharging_symbol is None,
    {
        BatteryDisplayConfig {
            threshold: 10,
            style: "red bold",
            charging_symbol: None,
            discharging_symbol: None,
        }
    }
}

} // verus!
