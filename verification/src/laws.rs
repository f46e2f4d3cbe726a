//! What follows from the contracts of the store, whatever store keeps them.
//! Each law speaks of the tables and of the answers that the tables
//! determine; the contracts in `store` tie every store's answers to them.

use crate::error::{DbErrorView, ErrorView};
use crate::job::{JobRowView, JobView, NewJobView};
use crate::memory::job_listing;
use crate::reply::{executed, fetched_job, fetched_resume, fetched_resumes};
use crate::resume::{ResumeInfoView, ResumeRowView, ResumeView};
use crate::store::{
    job_created, job_deleted, job_read, job_updated, jobs_listed, resume_created, resume_deleted,
    resume_read, resume_updated, resumes_listed,
};
use crate::table::{
    job_has_id, job_id_unused, job_ids_distinct, jobs_with_id, lemma_filter_none,
    lemma_filter_one, resume_has_id, resume_id_unused, resume_ids_distinct, resume_of_user,
    resumes_of_user, resumes_with_id, user_without_resume,
};
use vstd::prelude::*;

verus! {

/// A job that has been created is found under the identifier it was given:
/// the fetch answers with the job that `create` returned, which has every
/// field of the input, that identifier, and is not deleted.
pub proof fn created_job_is_found(
    before: Seq<JobRowView>,
    new_job: NewJobView,
    created: JobView,
    after: Seq<JobRowView>,
)
    requires
        job_created(before, new_job, Ok(created), after),
    ensures
        created.id is Some,
        fetched_job(Ok(jobs_with_id(after, created.id->0))) == Ok::<JobView, ErrorView>(created),
        created == (JobView {
            id: created.id,
            job_name: new_job.job_name,
            company_id: new_job.company_id,
            location: new_job.location,
            quantity: new_job.quantity,
            salary: new_job.salary,
            job_level: new_job.job_level,
            description: new_job.description,
            is_delete: false,
        }),
{
    let id = created.id->0;
    lemma_filter_one(after, job_has_id(id), before.len() as int);
}

/// A resume that has been created for a user who had none is found under
/// the user's identifier: the fetch answers with the resume that
/// `create_resume` returned, which has the fields of the input and is not
/// deleted.
pub proof fn created_resume_is_found_by_user(
    before: Seq<ResumeRowView>,
    new_resume: ResumeInfoView,
    created: ResumeView,
    after: Seq<ResumeRowView>,
)
    requires
        resume_created(before, new_resume, Ok(created), after),
        user_without_resume(before, new_resume.user_id),
    ensures
        fetched_resume(Ok(resumes_of_user(after, new_resume.user_id))) == Ok::<
            ResumeView,
            ErrorView,
        >(created),
        created == (ResumeView {
            id: created.id,
            user_id: new_resume.user_id,
            email: new_resume.email,
            url: new_resume.url,
            is_delete: false,
        }),
{
    lemma_filter_one(after, resume_of_user(new_resume.user_id), before.len() as int);
}

/// A resume that has been created is found under the identifier it was
/// given, as a job is.
pub proof fn created_resume_is_found(
    before: Seq<ResumeRowView>,
    new_resume: ResumeInfoView,
    created: ResumeView,
    after: Seq<ResumeRowView>,
)
    requires
        resume_created(before, new_resume, Ok(created), after),
    ensures
        created.id is Some,
        fetched_resume(Ok(resumes_with_id(after, created.id->0))) == Ok::<ResumeView, ErrorView>(
            created,
        ),
{
    let id = created.id->0;
    lemma_filter_one(after, resume_has_id(id), before.len() as int);
}

/// What one operation of a store may do to the `jobs` table: create a job,
/// update one or delete one, with success or without.
pub open spec fn job_step(before: Seq<JobRowView>, after: Seq<JobRowView>) -> bool {
    ||| exists|new_job: NewJobView, outcome: Result<JobView, ErrorView>| #[trigger]
        job_created(before, new_job, outcome, after)
    ||| exists|job: JobView, outcome: Result<JobView, ErrorView>| #[trigger]
        job_updated(before, job, outcome, after)
    ||| exists|id: int, outcome: Result<bool, ErrorView>| #[trigger]
        job_deleted(before, id, outcome, after)
}

/// What one operation of a store may do to the `resumes` table: create a
/// resume, update one or delete one, with success or without.
pub open spec fn resume_step(before: Seq<ResumeRowView>, after: Seq<ResumeRowView>) -> bool {
    ||| exists|new_resume: ResumeInfoView, outcome: Result<ResumeView, ErrorView>| #[trigger]
        resume_created(before, new_resume, outcome, after)
    ||| exists|info: ResumeInfoView, outcome: Result<ResumeView, ErrorView>| #[trigger]
        resume_updated(before, info, outcome, after)
    ||| exists|id: int, outcome: Result<bool, ErrorView>| #[trigger]
        resume_deleted(before, id, outcome, after)
}

/// An identifier, once given, stays with its row, and no row is ever
/// removed: whatever a store does to the `jobs` table, every row that was
/// there is still in its place and under its identifier, and identifiers
/// that were distinct are still.
pub proof fn job_identifiers_stay(before: Seq<JobRowView>, after: Seq<JobRowView>)
    requires
        job_step(before, after),
    ensures
        before.len() <= after.len(),
        forall|i: int| 0 <= i < before.len() ==> (#[trigger] after[i]).id == before[i].id,
        job_ids_distinct(before) ==> job_ids_distinct(after),
{
    if job_ids_distinct(before) {
        assert forall|i: int, j: int| 0 <= i < j < after.len() implies after[i].id
            != after[j].id by {
            assert(after[i].id == before[i].id);
            if j < before.len() {
                assert(after[j].id == before[j].id);
            }
        }
    }
}

/// An identifier, once given, stays with its row, and no row is ever
/// removed: whatever a store does to the `resumes` table, every row that
/// was there is still in its place and under its identifier, and
/// identifiers that were distinct are still.
pub proof fn resume_identifiers_stay(before: Seq<ResumeRowView>, after: Seq<ResumeRowView>)
    requires
        resume_step(before, after),
    ensures
        before.len() <= after.len(),
        forall|i: int| 0 <= i < before.len() ==> (#[trigger] after[i]).id == before[i].id,
        resume_ids_distinct(before) ==> resume_ids_distinct(after),
{
    if resume_ids_distinct(before) {
        assert forall|i: int, j: int| 0 <= i < j < after.len() implies after[i].id
            != after[j].id by {
            assert(after[i].id == before[i].id);
            if j < before.len() {
                assert(after[j].id == before[j].id);
            }
        }
    }
}

/// A job that has been deleted is still there: a fetch by its identifier
/// answers with the job as it was, now flagged, and not with a failure.
pub proof fn deleted_job_is_found_flagged(
    before: Seq<JobRowView>,
    k: int,
    done: bool,
    after: Seq<JobRowView>,
)
    requires
        job_ids_distinct(before),
        0 <= k < before.len(),
        job_deleted(before, before[k].id, Ok(done), after),
    ensures
        done,
        after.len() == before.len(),
        fetched_job(Ok(jobs_with_id(after, before[k].id))) == Ok::<JobView, ErrorView>(
            before[k].marked_deleted().record(),
        ),
        before[k].marked_deleted().record().is_delete,
        before[k].marked_deleted().record() == (JobView {
            is_delete: true,
            ..before[k].record()
        }),
{
    let id = before[k].id;
    assert forall|i: int| 0 <= i < after.len() && i != k implies !job_has_id(id)(
        #[trigger] after[i],
    ) by {
        if i < k {
            assert(before[i].id != before[k].id);
        } else {
            assert(before[k].id != before[i].id);
        }
    }
    lemma_filter_one(after, job_has_id(id), k);
}

/// Deleting a job a second time changes nothing: the table is as the first
/// deletion left it, and the flag stays set.
pub proof fn deleting_job_twice_is_deleting_once(
    before: Seq<JobRowView>,
    id: int,
    first: bool,
    between: Seq<JobRowView>,
    second: bool,
    after: Seq<JobRowView>,
)
    requires
        job_deleted(before, id, Ok(first), between),
        job_deleted(between, id, Ok(second), after),
    ensures
        first && second,
        after == between,
{
    assert(after =~= between);
}

/// A resume that has been deleted is still there: a fetch by its
/// identifier answers with the resume as it was, now flagged, and not with a
/// failure.
pub proof fn deleted_resume_is_found_flagged(
    before: Seq<ResumeRowView>,
    k: int,
    done: bool,
    after: Seq<ResumeRowView>,
)
    requires
        resume_ids_distinct(before),
        0 <= k < before.len(),
        resume_deleted(before, before[k].id, Ok(done), after),
    ensures
        done,
        after.len() == before.len(),
        fetched_resume(Ok(resumes_with_id(after, before[k].id))) == Ok::<ResumeView, ErrorView>(
            before[k].marked_deleted().record(),
        ),
        before[k].marked_deleted().record().is_delete,
        before[k].marked_deleted().record() == (ResumeView {
            is_delete: true,
            ..before[k].record()
        }),
{
    let id = before[k].id;
    assert forall|i: int| 0 <= i < after.len() && i != k implies !resume_has_id(id)(
        #[trigger] after[i],
    ) by {
        if i < k {
            assert(before[i].id != before[k].id);
        } else {
            assert(before[k].id != before[i].id);
        }
    }
    lemma_filter_one(after, resume_has_id(id), k);
}

/// Deleting a resume a second time changes nothing: the table is as the
/// first deletion left it, and the flag stays set.
pub proof fn deleting_resume_twice_is_deleting_once(
    before: Seq<ResumeRowView>,
    id: int,
    first: bool,
    between: Seq<ResumeRowView>,
    second: bool,
    after: Seq<ResumeRowView>,
)
    requires
        resume_deleted(before, id, Ok(first), between),
        resume_deleted(between, id, Ok(second), after),
    ensures
        first && second,
        after == between,
{
    assert(after =~= between);
}

/// The reply to a deletion that ran is `true` whatever number of rows it
/// touched, so a deletion that finds its row already flagged, or finds no
/// row, reports no failure.
pub proof fn deletion_that_ran_reports_true(touched: u64)
    ensures
        executed(Ok(touched)) == Ok::<bool, ErrorView>(true),
{
}

/// Listing the jobs of an empty table gives the empty sequence and no
/// failure, for every page that can be asked for: any `offset` from 0 up,
/// with any `limit` from 0 up or with none.
pub proof fn empty_job_table_lists_nothing(limit: Option<int>, offset: int)
    requires
        0 <= offset,
        limit matches Some(limit) ==> 0 <= limit,
    ensures
        job_listing(Seq::empty(), limit, offset) == Ok::<Seq<JobView>, ErrorView>(Seq::empty()),
        forall|outcome: Result<Seq<JobView>, ErrorView>|
            outcome is Ok && #[trigger] jobs_listed(Seq::empty(), limit, offset, outcome)
                ==> outcome == Ok::<Seq<JobView>, ErrorView>(Seq::empty()),
{
    assert(job_listing(Seq::empty(), limit, offset)->Ok_0 =~= Seq::<JobView>::empty());
}

/// Listing the resumes of an empty table gives the empty sequence and no
/// failure.
pub proof fn empty_resume_table_lists_nothing()
    ensures
        fetched_resumes(Ok(Seq::empty())) == Ok::<Seq<ResumeView>, ErrorView>(Seq::empty()),
        forall|outcome: Result<Seq<ResumeView>, ErrorView>|
            outcome is Ok && #[trigger] resumes_listed(Seq::empty(), outcome) ==> outcome == Ok::<
                Seq<ResumeView>,
                ErrorView,
            >(Seq::empty()),
{
    assert(fetched_resumes(Ok(Seq::empty()))->Ok_0 =~= Seq::<ResumeView>::empty());
}

/// A fetch by an identifier that no job has fails: the table determines
/// the failure that says no row was found, and no store answers with a job.
pub proof fn unknown_job_is_not_found(rows: Seq<JobRowView>, id: int)
    requires
        job_id_unused(rows, id),
    ensures
        fetched_job(Ok(jobs_with_id(rows, id))) == Err::<JobView, ErrorView>(
            ErrorView::DatabaseQueryError(DbErrorView::RowNotFound),
        ),
        forall|outcome: Result<JobView, ErrorView>| #[trigger]
            job_read(rows, id, outcome) ==> outcome is Err,
{
    lemma_filter_none(rows, job_has_id(id));
}

/// A fetch by an identifier that no resume has fails: the table determines
/// the failure that says no row was found, and no store answers with a
/// resume.
pub proof fn unknown_resume_is_not_found(rows: Seq<ResumeRowView>, id: int)
    requires
        resume_id_unused(rows, id),
    ensures
        fetched_resume(Ok(resumes_with_id(rows, id))) == Err::<ResumeView, ErrorView>(
            ErrorView::DatabaseQueryError(DbErrorView::RowNotFound),
        ),
        forall|outcome: Result<ResumeView, ErrorView>| #[trigger]
            resume_read(rows, id, outcome) ==> outcome is Err,
{
    lemma_filter_none(rows, resume_has_id(id));
}

} // verus!
