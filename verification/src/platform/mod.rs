//! The two platforms the pager runs on, reduced to what they compute: the
//! handheld device and the desktop window used for development.

pub mod desktop;
pub mod device;
pub mod power;

pub use desktop::{DesktopPlatform, Key};
pub use device::DevicePlatform;
pub use power::read_battery;

use vstd::prelude::*;

verus! {

/// What the user asks of the screen in front of them. Every input source
/// reduces to these four.
#[derive(Debug, Clone, Copy, PartialEq, Eq, Structural)]
pub enum Action {
    Up,
    Down,
    Select,
    Back,
}

} // verus!
