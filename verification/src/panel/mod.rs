//! The rules behind the control panel: what its lists, forms and popups do with what is typed and
//! clicked.

pub mod actions;
pub mod configurations;
pub mod duration;
pub mod platforms;
pub mod popup;
pub mod presets;
