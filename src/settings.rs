use vstd::prelude::*;

verus! {

/// A brightness and contrast pair, passed to the monitor as it is.
#[derive(Clone, Copy, Debug, PartialEq, Eq, Structural)]
pub struct MonitorSettings {
    pub brightness: i32,
    pub contrast: i32,
}

impl MonitorSettings {
    pub fn new(brightness: i32, contrast: i32) -> (r: MonitorSettings)
        ensures
            r.brightness == brightness,
            r.contrast == contrast,
    {
        MonitorSettings { brightness, contrast }
    }
}

/// What one run settles on: the values to apply, and whether to keep them
/// as the new baseline.
#[derive(Clone, Copy, Debug, PartialEq, Eq, Structural)]
pub struct ResolvedAction {
    pub settings: MonitorSettings,
    pub persist: bool,
}

/// The inputs of one run: the requested level and the two switches.
#[derive(Clone, Copy, Debug, PartialEq, Eq, Structural)]
pub struct Args {
    pub lvl: u32,
    pub read_config: bool,
    pub enable_presets: bool,
}

} // verus!
