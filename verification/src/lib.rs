//! The logic of a small desktop application shell: the greeting that the
//! user interface asks for, and the decisions of the hook that configures
//! the main window's webview once at startup.

pub mod greeting;
pub mod startup;

pub use greeting::greet;
