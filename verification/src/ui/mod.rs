pub mod frontend;
pub mod hotkey;
pub mod notify;
pub mod tray;

pub use frontend::UiFrontend;
pub use notify::Notifier;
