//! Job postings: the record, the input that creates one, the row that the
//! `jobs` table keeps for it, and the actions that callers take on jobs.

use crate::error::Error;
use crate::ids::{CompanyId, JobId};
use crate::reply::outcome_view;
use crate::store::{job_created, job_deleted, job_read, job_updated, jobs_listed, StoreMethods};
use crate::table::job_ids_distinct;
use vstd::prelude::*;

verus! {

/// A job posting as callers see it.
#[derive(Debug, PartialEq, Eq)]
pub struct Job {
    /// Assigned by the store when the job is created; `None` before that.
    pub id: Option<JobId>,
    pub job_name: String,
    pub company_id: CompanyId,
    pub location: String,
    pub quantity: i32,
    pub salary: i32,
    pub job_level: String,
    pub description: String,
    /// Set once the job has been deleted. The row stays.
    pub is_delete: bool,
}

/// The model of a [`Job`].
pub struct JobView {
    pub id: Option<int>,
    pub job_name: Seq<char>,
    pub company_id: int,
    pub location: Seq<char>,
    pub quantity: int,
    pub salary: int,
    pub job_level: Seq<char>,
    pub description: Seq<char>,
    pub is_delete: bool,
}

/// What a caller supplies to create a job: a [`Job`] without the identifier
/// and the deletion flag, which the store sets.
#[derive(Debug, PartialEq, Eq, Hash)]
pub struct NewJob {
    pub job_name: String,
    pub company_id: CompanyId,
    pub location: String,
    pub quantity: i32,
    pub salary: i32,
    pub job_level: String,
    pub description: String,
}

/// The model of a [`NewJob`].
pub struct NewJobView {
    pub job_name: Seq<char>,
    pub company_id: int,
    pub location: Seq<char>,
    pub quantity: int,
    pub salary: int,
    pub job_level: Seq<char>,
    pub description: Seq<char>,
}

/// One row of the `jobs` table, column by column.
#[derive(Debug, PartialEq, Eq)]
pub struct JobRow {
    pub id: i32,
    pub job_name: String,
    pub company_id: i32,
    pub location: String,
    pub quantity: i32,
    pub salary: i32,
    pub job_level: String,
    pub description: String,
    pub is_delete: bool,
}

/// The model of a [`JobRow`].
pub struct JobRowView {
    pub id: int,
    pub job_name: Seq<char>,
    pub company_id: int,
    pub location: Seq<char>,
    pub quantity: int,
    pub salary: int,
    pub job_level: Seq<char>,
    pub description: Seq<char>,
    pub is_delete: bool,
}

impl View for Job {
    type V = JobView;

    open spec fn view(&self) -> JobView {
        JobView {
            id: match self.id {
                Some(id) => Some(id.0 as int),
                None => None,
            },
            job_name: self.job_name@,
            company_id: self.company_id.0 as int,
            location: self.location@,
            quantity: self.quantity as int,
            salary: self.salary as int,
            job_level: self.job_level@,
            description: self.description@,
            is_delete: self.is_delete,
        }
    }
}

impl DeepView for Job {
    type V = JobView;

    open spec fn deep_view(&self) -> JobView {
        self@
    }
}

impl View for NewJob {
    type V = NewJobView;

    open spec fn view(&self) -> NewJobView {
        NewJobView {
            job_name: self.job_name@,
            company_id: self.company_id.0 as int,
            location: self.location@,
            quantity: self.quantity as int,
            salary: self.salary as int,
            job_level: self.job_level@,
            description: self.description@,
        }
    }
}

impl View for JobRow {
    type V = JobRowView;

    open spec fn view(&self) -> JobRowView {
        JobRowView {
            id: self.id as int,
            job_name: self.job_name@,
            company_id: self.company_id as int,
            location: self.location@,
            quantity: self.quantity as int,
            salary: self.salary as int,
            job_level: self.job_level@,
            description: self.description@,
            is_delete: self.is_delete,
        }
    }
}

impl DeepView for JobRow {
    type V = JobRowView;

    open spec fn deep_view(&self) -> JobRowView {
        self@
    }
}

impl NewJobView {
    /// The row that creating a job from this input stores under `id`: the
    /// input's fields, and not deleted.
    pub open spec fn row(self, id: int) -> JobRowView {
        JobRowView {
            id,
            job_name: self.job_name,
            company_id: self.company_id,
            location: self.location,
            quantity: self.quantity,
            salary: self.salary,
            job_level: self.job_level,
            description: self.description,
            is_delete: false,
        }
    }
}

impl JobView {
    /// The row that updating the job `id` to this record leaves: every field
    /// is the record's, the deletion flag too.
    pub open spec fn row(self, id: int) -> JobRowView {
        JobRowView {
            id,
            job_name: self.job_name,
            company_id: self.company_id,
            location: self.location,
            quantity: self.quantity,
            salary: self.salary,
            job_level: self.job_level,
            description: self.description,
            is_delete: self.is_delete,
        }
    }
}

impl JobRowView {
    /// The job that this row holds.
    pub open spec fn record(self) -> JobView {
        JobView {
            id: Some(self.id),
            job_name: self.job_name,
            company_id: self.company_id,
            location: self.location,
            quantity: self.quantity,
            salary: self.salary,
            job_level: self.job_level,
            description: self.description,
            is_delete: self.is_delete,
        }
    }

    /// This row once its job has been deleted: flagged, and otherwise as it
    /// was.
    pub open spec fn marked_deleted(self) -> JobRowView {
        JobRowView { is_delete: true, ..self }
    }
}

impl Clone for Job {
    fn clone(&self) -> (copy: Self)
        ensures
            copy == *self,
    {
        Job {
            id: self.id,
            job_name: self.job_name.clone(),
            company_id: self.company_id,
            location: self.location.clone(),
            quantity: self.quantity,
            salary: self.salary,
            job_level: self.job_level.clone(),
            description: self.description.clone(),
            is_delete: self.is_delete,
        }
    }
}

impl Clone for NewJob {
    fn clone(&self) -> (copy: Self)
        ensures
            copy == *self,
    {
        NewJob {
            job_name: self.job_name.clone(),
            company_id: self.company_id,
            location: self.location.clone(),
            quantity: self.quantity,
            salary: self.salary,
            job_level: self.job_level.clone(),
            description: self.description.clone(),
        }
    }
}

impl Clone for JobRow {
    fn clone(&self) -> (copy: Self)
        ensures
            copy == *self,
    {
        JobRow {
            id: self.id,
            job_name: self.job_name.clone(),
            company_id: self.company_id,
            location: self.location.clone(),
            quantity: self.quantity,
            salary: self.salary,
            job_level: self.job_level.clone(),
            description: self.description.clone(),
            is_delete: self.is_delete,
        }
    }
}

impl Job {
    /// Maps a row of the `jobs` table to the job it holds.
    pub fn from_row(row: JobRow) -> (job: Job)
        ensures
            job@ == row@.record(),
    {
        Job {
            id: Some(JobId(row.id)),
            job_name: row.job_name,
            company_id: CompanyId(row.company_id),
            location: row.location,
            quantity: row.quantity,
            salary: row.salary,
            job_level: row.job_level,
            description: row.description,
            is_delete: row.is_delete,
        }
    }
}

/// The actions on jobs. Each hands the call to the store and hands the
/// store's answer back: what a store owes for the operation is what the
/// action owes.
pub trait JobActions {
    /// Persists `new_job` and returns the job with its identifier.
    fn create<S: StoreMethods>(store: &mut S, new_job: NewJob) -> (outcome: Result<Job, Error>)
        ensures
            job_ids_distinct(final(store).jobs()),
            job_created(old(store).jobs(), new_job@, outcome_view(outcome), final(store).jobs()),
    ;

    /// Returns the job `job_id`, deleted or not.
    fn get_by_id<S: StoreMethods>(store: &S, job_id: JobId) -> (outcome: Result<Job, Error>)
        ensures
            job_ids_distinct(store.jobs()),
            job_read(store.jobs(), job_id.0 as int, outcome_view(outcome)),
    ;

    /// Returns the jobs past the first `offset`, at most `limit` of them, in
    /// the order the store keeps them.
    fn list<S: StoreMethods>(store: &S, limit: Option<i32>, offset: i32) -> (outcome: Result<
        Vec<Job>,
        Error,
    >)
        ensures
            job_ids_distinct(store.jobs()),
            jobs_listed(
                store.jobs(),
                match limit {
                    Some(limit) => Some(limit as int),
                    None => None,
                },
                offset as int,
                outcome_view(outcome),
            ),
    ;

    /// Persists every field of `job` under its identifier and returns the
    /// updated job.
    fn update<S: StoreMethods>(store: &mut S, job: Job) -> (outcome: Result<Job, Error>)
        ensures
            job_ids_distinct(final(store).jobs()),
            job_updated(old(store).jobs(), job@, outcome_view(outcome), final(store).jobs()),
    ;

    /// Flags the job `job_id` as deleted. `true` says that the statement
    /// ran, not that a job had the identifier.
    fn delete<S: StoreMethods>(store: &mut S, job_id: JobId) -> (outcome: Result<bool, Error>)
        ensures
            job_ids_distinct(final(store).jobs()),
            job_deleted(
                old(store).jobs(),
                job_id.0 as int,
                outcome_view(outcome),
                final(store).jobs(),
            ),
    ;
}

/// The one holder of the actions on jobs.
pub struct JobMac;

impl JobMac {
    /// What an action hands its caller, given the store's answer: the
    /// answer. A success is not altered, and a failure goes up as it came.
    pub fn relay<T>(answer: Result<T, Error>) -> (outcome: Result<T, Error>)
        ensures
            outcome == answer,
    {
        match answer {
            Ok(value) => Ok(value),
            Err(error) => Err(error),
        }
    }
}

impl JobActions for JobMac {
    fn create<S: StoreMethods>(store: &mut S, new_job: NewJob) -> (outcome: Result<Job, Error>) {
        JobMac::relay(store.create_job(new_job))
    }

    fn get_by_id<S: StoreMethods>(store: &S, job_id: JobId) -> (outcome: Result<Job, Error>) {
        JobMac::relay(store.get_job_by_id(job_id))
    }

    fn list<S: StoreMethods>(store: &S, limit: Option<i32>, offset: i32) -> (outcome: Result<
        Vec<Job>,
        Error,
    >) {
        JobMac::relay(store.get_list_job(limit, offset))
    }

    fn update<S: StoreMethods>(store: &mut S, job: Job) -> (outcome: Result<Job, Error>) {
        JobMac::relay(store.update_job(job))
    }

    fn delete<S: StoreMethods>(store: &mut S, job_id: JobId) -> (outcome: Result<bool, Error>) {
        JobMac::relay(store.delete_job(job_id))
    }
}

} // verus!
