//! What a store owes its callers. A store keeps the two tables; these traits
//! say, for each operation, how the table after it relates to the table
//! before it and to what the caller gets back. A store may fail for reasons
//! of its own, a lost connection among them, so no operation is promised to
//! succeed here: the contracts say what holds when one does, and what is left
//! untouched when it does not. [`crate::memory::MemoryStore`] is proved to
//! keep them, and says in its own contracts when it succeeds.

use crate::error::{Error, ErrorView};
use crate::ids::{JobId, ResumeId, UserId};
use crate::job::{Job, JobRowView, JobView, NewJob, NewJobView};
use crate::reply::{fetched_job, fetched_jobs, fetched_resume, fetched_resumes, outcome_view};
use crate::resume::{Resume, ResumeInfo, ResumeInfoView, ResumeRowView, ResumeView};
use crate::table::{
    job_id_unused, job_ids_distinct, jobs_marked_deleted, jobs_page, jobs_rewritten, jobs_with_id,
    resume_id_unused, resume_ids_distinct, resumes_marked_deleted, resumes_of_user,
    resumes_revised, resumes_with_id,
};
use vstd::prelude::*;

verus! {

/// Creating a job: on success the table has one row more, under an
/// identifier that no row had, and the caller gets that row's job; on failure
/// the table is as it was.
pub open spec fn job_created(
    before: Seq<JobRowView>,
    new_job: NewJobView,
    outcome: Result<JobView, ErrorView>,
    after: Seq<JobRowView>,
) -> bool {
    match outcome {
        Ok(job) => {
            &&& job.id matches Some(id)
            &&& job_id_unused(before, id)
            &&& job == new_job.row(id).record()
            &&& after == before.push(new_job.row(id))
        },
        Err(_) => after == before,
    }
}

/// Fetching a job by its identifier: a job comes back only where exactly
/// one row has the identifier, and it is that row's job, deleted or not.
pub open spec fn job_read(rows: Seq<JobRowView>, id: int, outcome: Result<JobView, ErrorView>) -> bool {
    outcome is Ok ==> outcome == fetched_job(Ok(jobs_with_id(rows, id)))
}

/// Listing jobs: what comes back is the page that `limit` and `offset` cut
/// out of the table, in the table's order, deleted jobs included; and none
/// comes back for a negative `limit` or `offset`.
pub open spec fn jobs_listed(
    rows: Seq<JobRowView>,
    limit: Option<int>,
    offset: int,
    outcome: Result<Seq<JobView>, ErrorView>,
) -> bool {
    outcome is Ok ==> {
        &&& 0 <= offset
        &&& limit matches Some(limit) ==> 0 <= limit
        &&& outcome == fetched_jobs(Ok(jobs_page(rows, limit, offset)))
    }
}

/// Updating a job: on success `job` has an identifier, the one row that had
/// it now holds every field of `job`, and the caller gets `job` back; on
/// failure the table is as it was.
pub open spec fn job_updated(
    before: Seq<JobRowView>,
    job: JobView,
    outcome: Result<JobView, ErrorView>,
    after: Seq<JobRowView>,
) -> bool {
    match outcome {
        Ok(updated) => {
            &&& job.id matches Some(id)
            &&& updated == job
            &&& after == jobs_rewritten(before, job)
            &&& jobs_with_id(after, id) == seq![job.row(id)]
        },
        Err(_) => after == before,
    }
}

/// Deleting a job: on success the answer is `true` and the row with the
/// identifier, if there is one, is flagged; no row is removed. On failure
/// the table is as it was.
pub open spec fn job_deleted(
    before: Seq<JobRowView>,
    id: int,
    outcome: Result<bool, ErrorView>,
    after: Seq<JobRowView>,
) -> bool {
    match outcome {
        Ok(done) => done && after == jobs_marked_deleted(before, id),
        Err(_) => after == before,
    }
}

/// Creating a resume: on success the table has one row more, under an
/// identifier that no row had, and the caller gets that row's resume; on
/// failure the table is as it was.
pub open spec fn resume_created(
    before: Seq<ResumeRowView>,
    new_resume: ResumeInfoView,
    outcome: Result<ResumeView, ErrorView>,
    after: Seq<ResumeRowView>,
) -> bool {
    match outcome {
        Ok(resume) => {
            &&& resume.id matches Some(id)
            &&& resume_id_unused(before, id)
            &&& resume == new_resume.row(id).record()
            &&& after == before.push(new_resume.row(id))
        },
        Err(_) => after == before,
    }
}

/// Fetching a resume by its identifier: a resume comes back only where
/// exactly one row has the identifier, and it is that row's resume, deleted
/// or not.
pub open spec fn resume_read(
    rows: Seq<ResumeRowView>,
    id: int,
    outcome: Result<ResumeView, ErrorView>,
) -> bool {
    outcome is Ok ==> outcome == fetched_resume(Ok(resumes_with_id(rows, id)))
}

/// Fetching the resume of a user: a resume comes back only where exactly
/// one row belongs to the user, and it is that row's resume.
pub open spec fn resume_of_user_read(
    rows: Seq<ResumeRowView>,
    user_id: int,
    outcome: Result<ResumeView, ErrorView>,
) -> bool {
    outcome is Ok ==> outcome == fetched_resume(Ok(resumes_of_user(rows, user_id)))
}

/// Listing resumes: what comes back is every row's resume, in the table's
/// order, deleted resumes included.
pub open spec fn resumes_listed(
    rows: Seq<ResumeRowView>,
    outcome: Result<Seq<ResumeView>, ErrorView>,
) -> bool {
    outcome is Ok ==> outcome == fetched_resumes(Ok(rows))
}

/// Updating the resume of a user: on success exactly one row belongs to the
/// user, it now has the address and the link of `info`, and the caller gets
/// its resume. On failure the table is as it was, unless the user has
/// several resumes: the statement has then revised them all before the
/// fetch of a single row failed.
pub open spec fn resume_updated(
    before: Seq<ResumeRowView>,
    info: ResumeInfoView,
    outcome: Result<ResumeView, ErrorView>,
    after: Seq<ResumeRowView>,
) -> bool {
    match outcome {
        Ok(_) => {
            &&& after == resumes_revised(before, info)
            &&& outcome == fetched_resume(Ok(resumes_of_user(after, info.user_id)))
        },
        Err(_) => after == before || {
            &&& after == resumes_revised(before, info)
            &&& resumes_of_user(after, info.user_id).len() > 1
        },
    }
}

/// Deleting a resume: on success the answer is `true` and the row with the
/// identifier, if there is one, is flagged; no row is removed. On failure
/// the table is as it was.
pub open spec fn resume_deleted(
    before: Seq<ResumeRowView>,
    id: int,
    outcome: Result<bool, ErrorView>,
    after: Seq<ResumeRowView>,
) -> bool {
    match outcome {
        Ok(done) => done && after == resumes_marked_deleted(before, id),
        Err(_) => after == before,
    }
}

/// The store of job postings.
pub trait StoreMethods {
    /// The rows of the `jobs` table, in the order the store keeps them.
    spec fn jobs(&self) -> Seq<JobRowView>;

    /// Persists `new_job` under an identifier that the store picks.
    fn create_job(&mut self, new_job: NewJob) -> (outcome: Result<Job, Error>)
        ensures
            job_ids_distinct(final(self).jobs()),
            job_created(old(self).jobs(), new_job@, outcome_view(outcome), final(self).jobs()),
    ;

    /// Fetches the job `job_id`.
    fn get_job_by_id(&self, job_id: JobId) -> (outcome: Result<Job, Error>)
        ensures
            job_ids_distinct(self.jobs()),
            job_read(self.jobs(), job_id.0 as int, outcome_view(outcome)),
    ;

    /// Fetches the jobs past the first `offset`, at most `limit` of them.
    fn get_list_job(&self, limit: Option<i32>, offset: i32) -> (outcome: Result<Vec<Job>, Error>)
        ensures
            job_ids_distinct(self.jobs()),
            jobs_listed(
                self.jobs(),
                match limit {
                    Some(limit) => Some(limit as int),
                    None => None,
                },
                offset as int,
                outcome_view(outcome),
            ),
    ;

    /// Writes every field of `job` to the row with its identifier.
    fn update_job(&mut self, job: Job) -> (outcome: Result<Job, Error>)
        ensures
            job_ids_distinct(final(self).jobs()),
            job_updated(old(self).jobs(), job@, outcome_view(outcome), final(self).jobs()),
    ;

    /// Flags the job `job_id` as deleted.
    fn delete_job(&mut self, job_id: JobId) -> (outcome: Result<bool, Error>)
        ensures
            job_ids_distinct(final(self).jobs()),
            job_deleted(
                old(self).jobs(),
                job_id.0 as int,
                outcome_view(outcome),
                final(self).jobs(),
            ),
    ;
}

/// The store of resumes.
pub trait ResumeStoreMethods {
    /// The rows of the `resumes` table, in the order the store keeps them.
    spec fn resumes(&self) -> Seq<ResumeRowView>;

    /// Persists `new_resume`, not deleted, under an identifier that the
    /// store picks.
    fn create_resume(&mut self, new_resume: ResumeInfo) -> (outcome: Result<Resume, Error>)
        ensures
            resume_ids_distinct(final(self).resumes()),
            resume_created(
                old(self).resumes(),
                new_resume@,
                outcome_view(outcome),
                final(self).resumes(),
            ),
    ;

    /// Fetches the resume `resume_id`.
    fn get_resume_by_id(&self, resume_id: ResumeId) -> (outcome: Result<Resume, Error>)
        ensures
            resume_ids_distinct(self.resumes()),
            resume_read(self.resumes(), resume_id.0 as int, outcome_view(outcome)),
    ;

    /// Fetches the resume of the user `user_id`.
    fn get_resume_by_user_id(&self, user_id: UserId) -> (outcome: Result<Resume, Error>)
        ensures
            resume_ids_distinct(self.resumes()),
            resume_of_user_read(self.resumes(), user_id.0 as int, outcome_view(outcome)),
    ;

    /// Fetches every resume.
    fn get_list_resumes(&self) -> (outcome: Result<Vec<Resume>, Error>)
        ensures
            resume_ids_distinct(self.resumes()),
            resumes_listed(self.resumes(), outcome_view(outcome)),
    ;

    /// Gives the resume of the user `resume_info.user_id` the address and
    /// the link of `resume_info`.
    fn update_resume(&mut self, resume_info: ResumeInfo) -> (outcome: Result<Resume, Error>)
        ensures
            resume_ids_distinct(final(self).resumes()),
            resume_updated(
                old(self).resumes(),
                resume_info@,
                outcome_view(outcome),
                final(self).resumes(),
            ),
    ;

    /// Flags the resume `resume_id` as deleted.
    fn delete_resume(&mut self, resume_id: ResumeId) -> (outcome: Result<bool, Error>)
        ensures
            resume_ids_distinct(final(self).resumes()),
            resume_deleted(
                old(self).resumes(),
                resume_id.0 as int,
                outcome_view(outcome),
                final(self).resumes(),
            ),
    ;
}

} // verus!
