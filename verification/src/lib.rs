//! # Sunlite 2D
//!
//! The decision core of a minimalistic 2D game engine: the options a window
//! is opened with, and the rule that turns one frame's worth of native
//! events into the engine's own event.
//!
//! Opening the window, polling the operating system and drawing are left to
//! the program that embeds this crate; it hands the polled events over as
//! plain values and acts on what comes back.

pub mod app;
pub mod native;

pub use app::AppBuilder;
pub use app::AppBuilderView;
pub use app::Event;
pub use app::Size;
pub use native::NativeEvent;
pub use native::NativeWindowEvent;
pub use native::run;
pub use native::translate_native_event;
