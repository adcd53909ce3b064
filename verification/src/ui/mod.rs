//! Screens and what they draw: the stack of views, the scrolling menu, the
//! status bar, and the drawing commands in which they say what they look
//! like.

pub mod colors;
pub mod draw;
pub mod icons;
pub mod menu;
pub mod stack;
pub mod statusbar;
pub mod view;

pub use draw::{DrawCommand, Font};
pub use menu::{Menu, MenuAction, MenuItem};
pub use stack::ViewStack;
pub use statusbar::{StatusBar, STATUSBAR_HEIGHT};
pub use view::{View, ViewResult};
