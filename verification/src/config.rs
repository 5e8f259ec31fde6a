//! User configuration read at startup: the UI theme choice and the hardware
//! decoder preference handed to the decode driver.

use vstd::prelude::*;

use crate::hardware::DeviceType;

verus! {

/// The theme the interface should follow.
#[derive(Clone, Copy, Debug, PartialEq, Eq, Structural)]
pub enum AppTheme {
    Dark,
    Light,
    System,
}

/// Persisted application configuration.
#[derive(Clone, Copy, Debug, PartialEq, Eq, Structural)]
pub struct Config {
    pub app_theme: AppTheme,
    /// Preferred hardware decoder backend; best-effort at open time.
    pub hw_decoder: DeviceType,
}

impl Default for Config {
    fn default() -> (r: Self)
        ensures
            r.app_theme == AppTheme::System,
            r.hw_decoder == DeviceType::Vaapi,
    {
        Config { app_theme: AppTheme::System, hw_decoder: DeviceType::Vaapi }
    }
}

} // verus!
