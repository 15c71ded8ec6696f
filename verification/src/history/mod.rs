pub mod models;
pub mod store;

pub use models::RunSummary;
pub use store::HistoryStore;
