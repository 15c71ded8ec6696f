pub mod devices;
pub mod mic;
pub mod recorder;
pub mod stream;

pub use mic::{CaptureWatchdogConfig, MicrophoneCapture, WatchdogSnapshot};
pub use recorder::ActiveRecording;
