//! Chooses a monitor's brightness and contrast from a requested level, a
//! stored record and the active workspace, and plans how the chosen values
//! are sent to the monitor and kept.

pub mod device;
pub mod probe;
pub mod resolver;
pub mod settings;
pub mod store;
