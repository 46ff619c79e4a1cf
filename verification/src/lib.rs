//! A constraint-based layout and rendering engine for text-mode user interfaces.

pub mod canvas;
pub mod flex;
pub mod geometry;
pub mod layout;
pub mod render;
pub mod style;
pub mod tui;
pub mod util;
pub mod widgets;

pub use flex::{compute_flex_layout, MinMaxFlex};
pub use layout::FlexFit;
pub use style::{Attribute, Attributes, Color, Style};
pub use tui::WiTui;
pub use widgets::align::{HorizontalAlignment, HorizontalSide, VerticalAlignment, VerticalSide};
pub use widgets::{ChildrenStorage, Event, KeyCode, KeyModifiers, MouseEventKind};
