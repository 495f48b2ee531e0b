//! Renders a raw terminal output stream as styled HTML.
//!
//! The stream is text interleaved with cursor-control and text-style escape
//! sequences. The library keeps a single logical line buffer addressed by a
//! one-dimensional cursor, a style attached to every written character, and
//! turns the finished buffer into runs of characters wrapped in
//! `<span class="...">` elements.

pub mod error;
pub mod event;
pub mod html;
pub mod interpreter;
pub mod laws;
pub mod log;
pub mod render;
pub mod style;
pub mod tokenizer;

pub use error::RenderError;
pub use event::{Event, EventView};
pub use log::{Log, LogView};
pub use render::{render, render_events};
pub use style::{Color, Intensity, VisualState};
