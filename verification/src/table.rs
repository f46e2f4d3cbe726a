//! The two tables as mathematics: a table is the sequence of its rows, in the
//! order the database keeps them, and each statement of
//! [`crate::statement`] is a function on it.

use crate::job::{JobRowView, JobView};
use crate::resume::{ResumeInfoView, ResumeRowView};
use vstd::prelude::*;

verus! {

/// Holds of the rows of `jobs` whose identifier is `id`.
pub open spec fn job_has_id(id: int) -> spec_fn(JobRowView) -> bool {
    |row: JobRowView| row.id == id
}

/// Holds of the rows of `resumes` whose identifier is `id`.
pub open spec fn resume_has_id(id: int) -> spec_fn(ResumeRowView) -> bool {
    |row: ResumeRowView| row.id == id
}

/// Holds of the rows of `resumes` that belong to the user `user_id`.
pub open spec fn resume_of_user(user_id: int) -> spec_fn(ResumeRowView) -> bool {
    |row: ResumeRowView| row.user_id == user_id
}

/// No two rows of `jobs` share an identifier.
pub open spec fn job_ids_distinct(rows: Seq<JobRowView>) -> bool {
    forall|i: int, j: int| 0 <= i < j < rows.len() ==> rows[i].id != rows[j].id
}

/// No two rows of `resumes` share an identifier.
pub open spec fn resume_ids_distinct(rows: Seq<ResumeRowView>) -> bool {
    forall|i: int, j: int| 0 <= i < j < rows.len() ==> rows[i].id != rows[j].id
}

/// No row of `jobs` has the identifier `id`.
pub open spec fn job_id_unused(rows: Seq<JobRowView>, id: int) -> bool {
    forall|i: int| 0 <= i < rows.len() ==> (#[trigger] rows[i]).id != id
}

/// No row of `resumes` has the identifier `id`.
pub open spec fn resume_id_unused(rows: Seq<ResumeRowView>, id: int) -> bool {
    forall|i: int| 0 <= i < rows.len() ==> (#[trigger] rows[i]).id != id
}

/// No row of `resumes` belongs to the user `user_id`.
pub open spec fn user_without_resume(rows: Seq<ResumeRowView>, user_id: int) -> bool {
    forall|i: int| 0 <= i < rows.len() ==> (#[trigger] rows[i]).user_id != user_id
}

/// What [`crate::statement::SELECT_JOB_BY_ID`] selects: the rows with the
/// identifier `id`.
pub open spec fn jobs_with_id(rows: Seq<JobRowView>, id: int) -> Seq<JobRowView> {
    rows.filter(job_has_id(id))
}

/// What [`crate::statement::SELECT_RESUME_BY_ID`] selects: the rows with
/// the identifier `id`.
pub open spec fn resumes_with_id(rows: Seq<ResumeRowView>, id: int) -> Seq<ResumeRowView> {
    rows.filter(resume_has_id(id))
}

/// What [`crate::statement::SELECT_RESUME_BY_USER_ID`] selects: the rows
/// of the user `user_id`.
pub open spec fn resumes_of_user(rows: Seq<ResumeRowView>, user_id: int) -> Seq<ResumeRowView> {
    rows.filter(resume_of_user(user_id))
}

/// What [`crate::statement::SELECT_JOBS`] selects: the rows past the first
/// `offset`, and at most `limit` of them; all of them where there is no
/// limit.
pub open spec fn jobs_page(rows: Seq<JobRowView>, limit: Option<int>, offset: int) -> Seq<
    JobRowView,
>
    recommends
        0 <= offset,
        limit matches Some(limit) ==> 0 <= limit,
{
    let from = if offset < rows.len() {
        offset
    } else {
        rows.len() as int
    };
    let until = match limit {
        Some(limit) => if from + limit < rows.len() {
            from + limit
        } else {
            rows.len() as int
        },
        None => rows.len() as int,
    };
    rows.subrange(from, until)
}

/// What [`crate::statement::UPDATE_JOB`] leaves: the table once every
/// column of the row with the identifier of `job` has been written from
/// `job`. A job without an identifier changes nothing.
pub open spec fn jobs_rewritten(rows: Seq<JobRowView>, job: JobView) -> Seq<JobRowView> {
    Seq::new(
        rows.len(),
        |i: int|
            if job.id == Some(rows[i].id) {
                job.row(rows[i].id)
            } else {
                rows[i]
            },
    )
}

/// What [`crate::statement::UPDATE_RESUME`] leaves: the table once every
/// resume of the user of `info` has been revised.
pub open spec fn resumes_revised(rows: Seq<ResumeRowView>, info: ResumeInfoView) -> Seq<
    ResumeRowView,
> {
    Seq::new(
        rows.len(),
        |i: int|
            if rows[i].user_id == info.user_id {
                rows[i].revised(info)
            } else {
                rows[i]
            },
    )
}

/// What [`crate::statement::SOFT_DELETE_JOB`] leaves: the table once the
/// row with the identifier `id` has been flagged. No row leaves the table.
pub open spec fn jobs_marked_deleted(rows: Seq<JobRowView>, id: int) -> Seq<JobRowView> {
    Seq::new(
        rows.len(),
        |i: int|
            if rows[i].id == id {
                rows[i].marked_deleted()
            } else {
                rows[i]
            },
    )
}

/// What [`crate::statement::SOFT_DELETE_RESUME`] leaves: the table once
/// the row with the identifier `id` has been flagged. No row leaves the
/// table.
pub open spec fn resumes_marked_deleted(rows: Seq<ResumeRowView>, id: int) -> Seq<ResumeRowView> {
    Seq::new(
        rows.len(),
        |i: int|
            if rows[i].id == id {
                rows[i].marked_deleted()
            } else {
                rows[i]
            },
    )
}

/// A selection that no row meets is empty.
pub proof fn lemma_filter_none<R>(rows: Seq<R>, pred: spec_fn(R) -> bool)
    requires
        forall|i: int| 0 <= i < rows.len() ==> !pred(#[trigger] rows[i]),
    ensures
        rows.filter(pred) == Seq::<R>::empty(),
    decreases rows.len(),
{
    reveal(Seq::filter);
    if rows.len() > 0 {
        lemma_filter_none(rows.drop_last(), pred);
    }
    assert(rows.filter(pred) =~= Seq::<R>::empty());
}

/// A selection that the row at `k` meets, and no other, is that row alone.
pub proof fn lemma_filter_one<R>(rows: Seq<R>, pred: spec_fn(R) -> bool, k: int)
    requires
        0 <= k < rows.len(),
        pred(rows[k]),
        forall|i: int| 0 <= i < rows.len() && i != k ==> !pred(#[trigger] rows[i]),
    ensures
        rows.filter(pred) == seq![rows[k]],
    decreases rows.len(),
{
    reveal(Seq::filter);
    if k == rows.len() - 1 {
        lemma_filter_none(rows.drop_last(), pred);
    } else {
        lemma_filter_one(rows.drop_last(), pred, k);
    }
    assert(rows.filter(pred) =~= seq![rows[k]]);
}

/// A selection that some row meets is not empty.
pub proof fn lemma_filter_some<R>(rows: Seq<R>, pred: spec_fn(R) -> bool, k: int)
    requires
        0 <= k < rows.len(),
        pred(rows[k]),
    ensures
        rows.filter(pred).len() > 0,
{
    rows.lemma_filter_contains(pred, k);
}

} // verus!
