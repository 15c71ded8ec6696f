pub mod paths;

pub use paths::AppPaths;
