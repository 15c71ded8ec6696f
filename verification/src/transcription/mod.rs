pub mod backend;
pub mod engine;
pub mod request_builder;
pub mod scheduler;
pub mod worker;

pub use backend::BackendKind;
pub use engine::EngineAdapter;
pub use scheduler::{run_transcription_job, TranscriptResult};
