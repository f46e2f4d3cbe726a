//! What the database answers, and what a caller gets to see of it. A fetch
//! answers with rows, or with a failure; a statement that fetches nothing
//! answers with the number of rows it touched, or with a failure. A failure
//! always goes up as [`Error::DatabaseQueryError`], with nothing lost.

use crate::error::{DbError, DbErrorView, Error, ErrorView};
use crate::job::{Job, JobRow, JobRowView, JobView};
use crate::resume::{Resume, ResumeRow, ResumeRowView, ResumeView};
use vstd::prelude::*;

verus! {

/// The model of a reply of the database.
pub open spec fn reply_view<T: DeepView>(reply: Result<T, DbError>) -> Result<T::V, DbErrorView> {
    match reply {
        Ok(value) => Ok(value.deep_view()),
        Err(cause) => Err(cause@),
    }
}

/// The model of what an operation hands its caller.
pub open spec fn outcome_view<T: DeepView>(outcome: Result<T, Error>) -> Result<T::V, ErrorView> {
    match outcome {
        Ok(value) => Ok(value.deep_view()),
        Err(error) => Err(error@),
    }
}

/// The rule of a fetch that expects one row: the row, where the statement
/// matched exactly one; a failure where it matched none, and another where
/// it matched several.
pub open spec fn single_row<R>(rows: Seq<R>) -> Result<R, DbErrorView> {
    if rows.len() == 1 {
        Ok(rows[0])
    } else if rows.len() == 0 {
        Err(DbErrorView::RowNotFound)
    } else {
        Err(DbErrorView::MultipleRows)
    }
}

/// The resumes that rows of the `resumes` table hold, in the rows' order.
pub open spec fn resume_records(rows: Seq<ResumeRowView>) -> Seq<ResumeView> {
    Seq::new(rows.len(), |i: int| rows[i].record())
}

/// The jobs that rows of the `jobs` table hold, in the rows' order.
pub open spec fn job_records(rows: Seq<JobRowView>) -> Seq<JobView> {
    Seq::new(rows.len(), |i: int| rows[i].record())
}

/// What a fetch of one resume hands its caller, given the database's reply.
pub open spec fn fetched_resume(reply: Result<Seq<ResumeRowView>, DbErrorView>) -> Result<
    ResumeView,
    ErrorView,
> {
    match reply {
        Ok(rows) => match single_row(rows) {
            Ok(row) => Ok(row.record()),
            Err(cause) => Err(ErrorView::DatabaseQueryError(cause)),
        },
        Err(cause) => Err(ErrorView::DatabaseQueryError(cause)),
    }
}

/// What a fetch of all resumes hands its caller, given the database's reply.
pub open spec fn fetched_resumes(reply: Result<Seq<ResumeRowView>, DbErrorView>) -> Result<
    Seq<ResumeView>,
    ErrorView,
> {
    match reply {
        Ok(rows) => Ok(resume_records(rows)),
        Err(cause) => Err(ErrorView::DatabaseQueryError(cause)),
    }
}

/// What a fetch of one job hands its caller, given the database's reply.
pub open spec fn fetched_job(reply: Result<Seq<JobRowView>, DbErrorView>) -> Result<
    JobView,
    ErrorView,
> {
    match reply {
        Ok(rows) => match single_row(rows) {
            Ok(row) => Ok(row.record()),
            Err(cause) => Err(ErrorView::DatabaseQueryError(cause)),
        },
        Err(cause) => Err(ErrorView::DatabaseQueryError(cause)),
    }
}

/// What a fetch of several jobs hands its caller, given the database's reply.
pub open spec fn fetched_jobs(reply: Result<Seq<JobRowView>, DbErrorView>) -> Result<
    Seq<JobView>,
    ErrorView,
> {
    match reply {
        Ok(rows) => Ok(job_records(rows)),
        Err(cause) => Err(ErrorView::DatabaseQueryError(cause)),
    }
}

/// What a deletion hands its caller, given the database's reply: `true` once
/// the statement ran, however many rows it touched, none included.
pub open spec fn executed(reply: Result<u64, DbErrorView>) -> Result<bool, ErrorView> {
    match reply {
        Ok(_) => Ok(true),
        Err(cause) => Err(ErrorView::DatabaseQueryError(cause)),
    }
}

/// Applies the rule of a fetch that expects one row.
pub fn take_single<R>(rows: Vec<R>) -> (row: Result<R, DbError>)
    ensures
        match row {
            Ok(row) => single_row(rows@) == Ok::<R, DbErrorView>(row),
            Err(cause) => single_row(rows@) == Err::<R, DbErrorView>(cause@),
        },
{
    let mut rows = rows;
    let count: usize = rows.len();
    match rows.pop() {
        Some(row) => {
            if count == 1 {
                Ok(row)
            } else {
                Err(DbError::MultipleRows)
            }
        },
        None => Err(DbError::RowNotFound),
    }
}

/// Turns the reply to a fetch of one resume into what the caller gets: the
/// resume of the one row that came back, or the failure.
pub fn decode_resume(reply: Result<Vec<ResumeRow>, DbError>) -> (outcome: Result<Resume, Error>)
    ensures
        outcome_view(outcome) == fetched_resume(reply_view(reply)),
{
    match reply {
        Ok(rows) => {
            let ghost all = rows.deep_view();
            assert(all.len() == rows@.len());
            assert(rows@.len() > 0 ==> all[0] == rows@[0]@);
            match take_single(rows) {
                Ok(row) => Ok(Resume::from_row(row)),
                Err(cause) => Err(Error::DatabaseQueryError(cause)),
            }
        },
        Err(cause) => Err(Error::DatabaseQueryError(cause)),
    }
}

/// Turns the reply to a fetch of all resumes into what the caller gets: the
/// resumes of the rows that came back, in their order, or the failure.
pub fn decode_resumes(reply: Result<Vec<ResumeRow>, DbError>) -> (outcome: Result<
    Vec<Resume>,
    Error,
>)
    ensures
        outcome_view(outcome) == fetched_resumes(reply_view(reply)),
{
    match reply {
        Ok(rows) => {
            let mut resumes: Vec<Resume> = Vec::new();
            let mut i: usize = 0;
            while i < rows.len()
                invariant
                    i <= rows@.len(),
                    resumes@.len() == i,
                    forall|j: int| 0 <= j < i ==> (#[trigger] resumes@[j])@ == rows@[j]@.record(),
                decreases rows@.len() - i,
            {
                resumes.push(Resume::from_row(rows[i].clone()));
                i = i + 1;
            }
            assert(resumes.deep_view() =~= resume_records(rows.deep_view()));
            Ok(resumes)
        },
        Err(cause) => Err(Error::DatabaseQueryError(cause)),
    }
}

/// Turns the reply to a fetch of one job into what the caller gets: the job
/// of the one row that came back, or the failure.
pub fn decode_job(reply: Result<Vec<JobRow>, DbError>) -> (outcome: Result<Job, Error>)
    ensures
        outcome_view(outcome) == fetched_job(reply_view(reply)),
{
    match reply {
        Ok(rows) => {
            let ghost all = rows.deep_view();
            assert(all.len() == rows@.len());
            assert(rows@.len() > 0 ==> all[0] == rows@[0]@);
            match take_single(rows) {
                Ok(row) => Ok(Job::from_row(row)),
                Err(cause) => Err(Error::DatabaseQueryError(cause)),
            }
        },
        Err(cause) => Err(Error::DatabaseQueryError(cause)),
    }
}

/// Turns the reply to a fetch of several jobs into what the caller gets: the
/// jobs of the rows that came back, in their order, or the failure.
pub fn decode_jobs(reply: Result<Vec<JobRow>, DbError>) -> (outcome: Result<Vec<Job>, Error>)
    ensures
        outcome_view(outcome) == fetched_jobs(reply_view(reply)),
{
    match reply {
        Ok(rows) => {
            let mut jobs: Vec<Job> = Vec::new();
            let mut i: usize = 0;
            while i < rows.len()
                invariant
                    i <= rows@.len(),
                    jobs@.len() == i,
                    forall|j: int| 0 <= j < i ==> (#[trigger] jobs@[j])@ == rows@[j]@.record(),
                decreases rows@.len() - i,
            {
                jobs.push(Job::from_row(rows[i].clone()));
                i = i + 1;
            }
            assert(jobs.deep_view() =~= job_records(rows.deep_view()));
            Ok(jobs)
        },
        Err(cause) => Err(Error::DatabaseQueryError(cause)),
    }
}

/// Turns the reply to a deletion into what the caller gets: `true` once the
/// statement ran, whether or not a row had the identifier, or the failure.
pub fn decode_execution(reply: Result<u64, DbError>) -> (outcome: Result<bool, Error>)
    ensures
        outcome_view(outcome) == executed(reply_view(reply)),
{
    match reply {
        Ok(_) => Ok(true),
        Err(cause) => Err(Error::DatabaseQueryError(cause)),
    }
}

} // verus!
