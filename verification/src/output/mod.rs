pub mod clipboard;

pub use clipboard::ClipboardOutput;
