//! Typst compilation helpers: font discovery and the world a document is
//! compiled in.
pub mod error;
pub mod fonts;
pub mod inputs;
pub mod world;

pub use error::WorldCreationError;
pub use fonts::{discover_fonts, list_fonts};
pub use world::SystemWorld;
