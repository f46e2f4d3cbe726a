//! Identifiers. Each is an integer underneath and a type of its own on top, so
//! that an identifier of one entity is never taken for that of another.

use vstd::prelude::*;

verus! {

/// Identifies a job posting.
#[derive(Debug, Clone, Copy, PartialEq, Eq, Hash, Structural)]
pub struct JobId(pub i32);

/// Identifies a resume.
#[derive(Debug, Clone, Copy, PartialEq, Eq, Hash, Structural)]
pub struct ResumeId(pub i32);

/// Identifies the user a resume belongs to.
#[derive(Debug, Clone, Copy, PartialEq, Eq, Hash, Structural)]
pub struct UserId(pub i32);

/// Identifies the company that offers a job.
#[derive(Debug, Clone, Copy, PartialEq, Eq, Hash, Structural)]
pub struct CompanyId(pub i32);

} // verus!
