pub mod checks;
pub mod macos;
pub mod report;

pub use checks::run_doctor;
pub use report::{CheckResult, CheckStatus, DoctorReport, DoctorState};
