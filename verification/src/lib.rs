//! A terminal clock that renders the current local time and date as large
//! glyph-art blocks.
//!
//! The verified core covers the periodic rendering pipeline: resolving
//! configuration and colors, turning a timestamp into multi-line glyph art
//! through a bitmap glyph font, centering the art on a canvas, and deciding
//! when the next tick is due.  Terminal handling and file reading live in the
//! surrounding binary, which feeds this library plain values.

pub mod clock;
pub mod color;
pub mod config;
pub mod font;
pub mod layout;
mod text;
pub mod tick;

pub use color::parse_color;
pub use color::Rgb;
pub use config::{ColorConfig, Config, FontConfig, WindowConfig};
pub use font::{load_embedded_figlet_fonts, render_figlet_text, Glyph, GlyphBlock, GlyphFont};
pub use tick::{FramePlan, RenderState};
