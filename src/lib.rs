//! Styling for a split widget: the appearance of the two panes, the divider
//! between them and their borders, in the active, hovered and dragged states.
//!
//! The colours come from an `iced` theme; the widths are whole logical pixels.

pub mod appearance;
pub mod style;
pub mod toolkit;

pub use appearance::Appearance;
pub use style::{SplitStyles, StyleSheet};
