//! The widget's interface: its buttons, and the keys the settings window records.
pub mod keys;
pub mod widget;
