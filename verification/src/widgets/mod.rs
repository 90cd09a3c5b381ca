//! Built-in Components.
pub mod carousel;
pub mod slider;
pub mod textbox;
