pub mod panel;
pub mod widgets;
