//! Initial placement of a desktop application's main window.
//!
//! At launch the main window is given seventy percent of the primary monitor's
//! resolution, in logical pixels, and is then centered. The crate holds the
//! arithmetic and the decisions; talking to the windowing framework is left to
//! the embedding application, which performs one request at a time and hands
//! back what the platform answered.
//!
//! * [`geometry`] holds the sizes and the seventy-percent rule.
//! * [`protocol`] names the calls on the framework and its answers.
//! * [`configurator`] decides which call comes next.
//! * [`desktop`] models a framework and carries a launch out against the model.

pub mod configurator;
pub mod desktop;
pub mod geometry;
pub mod protocol;
