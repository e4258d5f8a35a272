//! The lifecycle of a single-window OpenGL host: the order in which the
//! window, its GPU context and its drawing surface come up, the render target
//! that is derived from what the driver reports, and the event loop that
//! dispatches redraw and close requests.
//!
//! The library decides; it performs no platform call itself. A program
//! around it creates the window and talks to the driver, and hands back what
//! happened as plain values.

pub mod app;
pub mod convert;
pub mod error;
pub mod policy;
pub mod surface;
pub mod window;

pub use app::App;
pub use error::ShellError;
pub use window::Window;
