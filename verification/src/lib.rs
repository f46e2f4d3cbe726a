//! Data access for a job board: job postings and resumes, the statements that
//! persist them, and the contract of the store that holds them.

pub mod error;
pub mod ids;
pub mod job;
pub mod laws;
pub mod memory;
pub mod reply;
pub mod resume;
pub mod statement;
pub mod store;
pub mod table;
