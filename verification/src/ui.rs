//! What the windows show and do, without the drawing.

pub mod capture;
pub mod console;
pub mod interval;
pub mod main_window;
pub mod sequence_window;
pub mod static_clicker_window;
