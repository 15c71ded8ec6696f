pub mod load;
pub mod schema;

pub use load::{load_config, CliOverrides, EnvOverrides};
pub use schema::{AppConfig, OutputMode, TranscriptionConfig};
