pub mod app;

pub use app::{autostart_entry, status_report};
