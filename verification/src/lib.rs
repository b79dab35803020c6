//! Frame lifecycle for a window that is shared by a GPU renderer and an
//! embedded UI surface.
//!
//! The crate holds the decisions of such an application and leaves the
//! device and the UI host to its caller:
//!
//! * [`render_state`]: the scalar values that UI events write and frames read;
//! * [`event_bridge`]: validation and dispatch of script calls;
//! * [`layers`]: the ordered UI regions and the compositor that walks them;
//! * [`resources`]: what is allocated on the device at startup;
//! * [`frame`]: the pre / draw / post protocol of one presented frame.

pub mod event_bridge;
pub mod frame;
pub mod layers;
pub mod render_state;
pub mod resources;
