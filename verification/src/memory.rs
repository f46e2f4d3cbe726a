//! A store that keeps both tables in memory. It numbers the rows of each
//! table from 1, never gives a number twice, and answers every statement as
//! the `table` module says the statement reads or changes a table. It fails
//! only where a database would turn the statement down: when a table has run
//! out of identifiers, and when a page is asked for with a negative `limit`
//! or `offset`.

use crate::error::{DbError, DbErrorView, Error, ErrorView};
use crate::ids::{JobId, ResumeId, UserId};
use crate::job::{Job, JobRow, JobRowView, JobView, NewJob, NewJobView};
use crate::reply::{
    decode_execution, decode_job, decode_jobs, decode_resume, decode_resumes, fetched_job,
    fetched_jobs, fetched_resume, fetched_resumes, outcome_view,
};
use crate::resume::{Resume, ResumeInfo, ResumeInfoView, ResumeRow, ResumeRowView, ResumeView};
use crate::store::{ResumeStoreMethods, StoreMethods};
use crate::table::{
    job_has_id, jobs_marked_deleted, jobs_page, jobs_rewritten, jobs_with_id, lemma_filter_none,
    lemma_filter_one, lemma_filter_some, resume_has_id, resume_of_user, resumes_marked_deleted,
    resumes_of_user, resumes_revised, resumes_with_id,
};
use vstd::prelude::*;

verus! {

/// The state code of a sequence that has no number left.
pub const SEQUENCE_EXHAUSTED: &'static str = "2200H";

/// The state code of a negative `LIMIT`.
pub const NEGATIVE_LIMIT: &'static str = "2201W";

/// The state code of a negative `OFFSET`.
pub const NEGATIVE_OFFSET: &'static str = "2201X";

/// The message that goes with [`SEQUENCE_EXHAUSTED`].
pub const SEQUENCE_EXHAUSTED_MESSAGE: &'static str = "nextval: reached maximum value of sequence";

/// The message that goes with [`NEGATIVE_LIMIT`].
pub const NEGATIVE_LIMIT_MESSAGE: &'static str = "LIMIT must not be negative";

/// The message that goes with [`NEGATIVE_OFFSET`].
pub const NEGATIVE_OFFSET_MESSAGE: &'static str = "OFFSET must not be negative";

/// The failure of a statement that the database turned down with the state
/// code `code` and the message `message`, no constraint being involved.
pub open spec fn rejected(code: Seq<char>, message: Seq<char>) -> ErrorView {
    ErrorView::DatabaseQueryError(
        DbErrorView::Database { code: Some(code), message, constraint: None },
    )
}

/// What creating a job answers in a table whose last identifier is
/// `last_id`: the job under the next identifier, while there is one.
pub open spec fn job_creation(last_id: int, new_job: NewJobView) -> Result<JobView, ErrorView> {
    if last_id < i32::MAX {
        Ok(new_job.row(last_id + 1).record())
    } else {
        Err(rejected(SEQUENCE_EXHAUSTED@, SEQUENCE_EXHAUSTED_MESSAGE@))
    }
}

/// What creating a resume answers in a table whose last identifier is
/// `last_id`: the resume under the next identifier, while there is one.
pub open spec fn resume_creation(last_id: int, new_resume: ResumeInfoView) -> Result<
    ResumeView,
    ErrorView,
> {
    if last_id < i32::MAX {
        Ok(new_resume.row(last_id + 1).record())
    } else {
        Err(rejected(SEQUENCE_EXHAUSTED@, SEQUENCE_EXHAUSTED_MESSAGE@))
    }
}

/// What listing jobs answers: the page, unless `limit` or `offset` is
/// negative. A negative `limit` is reported before a negative `offset`.
pub open spec fn job_listing(rows: Seq<JobRowView>, limit: Option<int>, offset: int) -> Result<
    Seq<JobView>,
    ErrorView,
> {
    if limit is Some && limit->0 < 0 {
        Err(rejected(NEGATIVE_LIMIT@, NEGATIVE_LIMIT_MESSAGE@))
    } else if offset < 0 {
        Err(rejected(NEGATIVE_OFFSET@, NEGATIVE_OFFSET_MESSAGE@))
    } else {
        fetched_jobs(Ok(jobs_page(rows, limit, offset)))
    }
}

/// The rows that an update of `job` hands back out of the table it has
/// left: those with the identifier of `job`, and none where it has none.
pub open spec fn rows_of_job(rows: Seq<JobRowView>, job: JobView) -> Seq<JobRowView> {
    match job.id {
        Some(id) => jobs_with_id(rows, id),
        None => Seq::empty(),
    }
}

fn rejection(code: &'static str, message: &'static str) -> (error: Error)
    ensures
        error@ == rejected(code@, message@),
{
    Error::DatabaseQueryError(
        DbError::Database { code: Some(code.to_owned()), message: message.to_owned(), constraint: None },
    )
}

fn select_jobs_by_id(rows: &Vec<JobRow>, id: i32) -> (found: Vec<JobRow>)
    ensures
        found.deep_view() == jobs_with_id(rows.deep_view(), id as int),
{
    let mut found: Vec<JobRow> = Vec::new();
    let mut i: usize = 0;
    proof {
        assert(rows.deep_view().take(0) =~= Seq::empty());
        lemma_filter_none(Seq::<JobRowView>::empty(), job_has_id(id as int));
        assert(found.deep_view() =~= Seq::empty());
    }
    while i < rows.len()
        invariant
            i <= rows@.len(),
            found.deep_view() == jobs_with_id(rows.deep_view().take(i as int), id as int),
        decreases rows@.len() - i,
    {
        let ghost shorter = rows.deep_view().take(i as int);
        let ghost so_far = found.deep_view();
        proof {
            assert(rows.deep_view().take(i + 1) =~= shorter.push(rows@[i as int]@));
            shorter.lemma_filter_push(rows@[i as int]@, job_has_id(id as int));
        }
        if rows[i].id == id {
            found.push(rows[i].clone());
            assert(found.deep_view() =~= so_far.push(rows@[i as int]@));
        }
        i = i + 1;
    }
    assert(rows.deep_view().take(rows@.len() as int) =~= rows.deep_view());
    found
}

fn select_resumes_by_id(rows: &Vec<ResumeRow>, id: i32) -> (found: Vec<ResumeRow>)
    ensures
        found.deep_view() == resumes_with_id(rows.deep_view(), id as int),
{
    let mut found: Vec<ResumeRow> = Vec::new();
    let mut i: usize = 0;
    proof {
        assert(rows.deep_view().take(0) =~= Seq::empty());
        lemma_filter_none(Seq::<ResumeRowView>::empty(), resume_has_id(id as int));
        assert(found.deep_view() =~= Seq::empty());
    }
    while i < rows.len()
        invariant
            i <= rows@.len(),
            found.deep_view() == resumes_with_id(rows.deep_view().take(i as int), id as int),
        decreases rows@.len() - i,
    {
        let ghost shorter = rows.deep_view().take(i as int);
        let ghost so_far = found.deep_view();
        proof {
            assert(rows.deep_view().take(i + 1) =~= shorter.push(rows@[i as int]@));
            shorter.lemma_filter_push(rows@[i as int]@, resume_has_id(id as int));
        }
        if rows[i].id == id {
            found.push(rows[i].clone());
            assert(found.deep_view() =~= so_far.push(rows@[i as int]@));
        }
        i = i + 1;
    }
    assert(rows.deep_view().take(rows@.len() as int) =~= rows.deep_view());
    found
}

fn select_resumes_of_user(rows: &Vec<ResumeRow>, user_id: i32) -> (found: Vec<ResumeRow>)
    ensures
        found.deep_view() == resumes_of_user(rows.deep_view(), user_id as int),
{
    let mut found: Vec<ResumeRow> = Vec::new();
    let mut i: usize = 0;
    proof {
        assert(rows.deep_view().take(0) =~= Seq::empty());
        lemma_filter_none(Seq::<ResumeRowView>::empty(), resume_of_user(user_id as int));
        assert(found.deep_view() =~= Seq::empty());
    }
    while i < rows.len()
        invariant
            i <= rows@.len(),
            found.deep_view() == resumes_of_user(rows.deep_view().take(i as int), user_id as int),
        decreases rows@.len() - i,
    {
        let ghost shorter = rows.deep_view().take(i as int);
        let ghost so_far = found.deep_view();
        proof {
            assert(rows.deep_view().take(i + 1) =~= shorter.push(rows@[i as int]@));
            shorter.lemma_filter_push(rows@[i as int]@, resume_of_user(user_id as int));
        }
        if rows[i].user_id == user_id {
            found.push(rows[i].clone());
            assert(found.deep_view() =~= so_far.push(rows@[i as int]@));
        }
        i = i + 1;
    }
    assert(rows.deep_view().take(rows@.len() as int) =~= rows.deep_view());
    found
}

fn copy_jobs(rows: &Vec<JobRow>, from: usize, until: usize) -> (page: Vec<JobRow>)
    requires
        from <= until <= rows@.len(),
    ensures
        page.deep_view() == rows.deep_view().subrange(from as int, until as int),
{
    let mut page: Vec<JobRow> = Vec::new();
    let mut i: usize = from;
    while i < until
        invariant
            from <= i <= until <= rows@.len(),
            page@.len() == i - from,
            forall|j: int| 0 <= j < i - from ==> (#[trigger] page@[j])@ == rows@[from + j]@,
        decreases until - i,
    {
        page.push(rows[i].clone());
        i = i + 1;
    }
    assert(page.deep_view() =~= rows.deep_view().subrange(from as int, until as int));
    page
}

fn copy_resumes(rows: &Vec<ResumeRow>) -> (copy: Vec<ResumeRow>)
    ensures
        copy.deep_view() == rows.deep_view(),
{
    let mut copy: Vec<ResumeRow> = Vec::new();
    let mut i: usize = 0;
    while i < rows.len()
        invariant
            i <= rows@.len(),
            copy@.len() == i,
            forall|j: int| 0 <= j < i ==> (#[trigger] copy@[j])@ == rows@[j]@,
        decreases rows@.len() - i,
    {
        copy.push(rows[i].clone());
        i = i + 1;
    }
    assert(copy.deep_view() =~= rows.deep_view());
    copy
}

fn rewrite_job(rows: &Vec<JobRow>, job: &Job) -> (next: Vec<JobRow>)
    ensures
        next.deep_view() == jobs_rewritten(rows.deep_view(), job@),
        next@.len() == rows@.len(),
        forall|i: int| 0 <= i < rows@.len() ==> (#[trigger] next@[i]).id == rows@[i].id,
{
    let mut next: Vec<JobRow> = Vec::new();
    let mut i: usize = 0;
    while i < rows.len()
        invariant
            i <= rows@.len(),
            next@.len() == i,
            forall|j: int| 0 <= j < i ==> (#[trigger] next@[j]).id == rows@[j].id,
            forall|j: int|
                0 <= j < i ==> (#[trigger] next@[j])@ == jobs_rewritten(
                    rows.deep_view(),
                    job@,
                )[j],
        decreases rows@.len() - i,
    {
        let row = &rows[i];
        let hit: bool = match job.id {
            Some(id) => id.0 == row.id,
            None => false,
        };
        if hit {
            next.push(
                JobRow {
                    id: row.id,
                    job_name: job.job_name.clone(),
                    company_id: job.company_id.0,
                    location: job.location.clone(),
                    quantity: job.quantity,
                    salary: job.salary,
                    job_level: job.job_level.clone(),
                    description: job.description.clone(),
                    is_delete: job.is_delete,
                },
            );
        } else {
            next.push(row.clone());
        }
        i = i + 1;
    }
    assert(next.deep_view() =~= jobs_rewritten(rows.deep_view(), job@));
    next
}

fn revise_resumes(rows: &Vec<ResumeRow>, info: &ResumeInfo) -> (next: Vec<ResumeRow>)
    ensures
        next.deep_view() == resumes_revised(rows.deep_view(), info@),
        next@.len() == rows@.len(),
        forall|i: int| 0 <= i < rows@.len() ==> (#[trigger] next@[i]).id == rows@[i].id,
{
    let mut next: Vec<ResumeRow> = Vec::new();
    let mut i: usize = 0;
    while i < rows.len()
        invariant
            i <= rows@.len(),
            next@.len() == i,
            forall|j: int| 0 <= j < i ==> (#[trigger] next@[j]).id == rows@[j].id,
            forall|j: int|
                0 <= j < i ==> (#[trigger] next@[j])@ == resumes_revised(
                    rows.deep_view(),
                    info@,
                )[j],
        decreases rows@.len() - i,
    {
        let row = &rows[i];
        if row.user_id == info.user_id.0 {
            next.push(
                ResumeRow {
                    id: row.id,
                    user_id: row.user_id,
                    email: info.email.clone(),
                    url: info.url.clone(),
                    is_delete: row.is_delete,
                },
            );
        } else {
            next.push(row.clone());
        }
        i = i + 1;
    }
    assert(next.deep_view() =~= resumes_revised(rows.deep_view(), info@));
    next
}

fn flag_job(rows: &Vec<JobRow>, id: i32) -> (flagged: (Vec<JobRow>, u64))
    ensures
        flagged.0.deep_view() == jobs_marked_deleted(rows.deep_view(), id as int),
        flagged.0@.len() == rows@.len(),
        forall|i: int| 0 <= i < rows@.len() ==> (#[trigger] flagged.0@[i]).id == rows@[i].id,
{
    let mut next: Vec<JobRow> = Vec::new();
    let mut touched: u64 = 0;
    let mut i: usize = 0;
    while i < rows.len()
        invariant
            i <= rows@.len(),
            next@.len() == i,
            touched <= i,
            forall|j: int| 0 <= j < i ==> (#[trigger] next@[j]).id == rows@[j].id,
            forall|j: int|
                0 <= j < i ==> (#[trigger] next@[j])@ == jobs_marked_deleted(
                    rows.deep_view(),
                    id as int,
                )[j],
        decreases rows@.len() - i,
    {
        let mut row = rows[i].clone();
        if row.id == id {
            row.is_delete = true;
            touched = touched + 1;
        }
        next.push(row);
        i = i + 1;
    }
    assert(next.deep_view() =~= jobs_marked_deleted(rows.deep_view(), id as int));
    (next, touched)
}

fn flag_resume(rows: &Vec<ResumeRow>, id: i32) -> (flagged: (Vec<ResumeRow>, u64))
    ensures
        flagged.0.deep_view() == resumes_marked_deleted(rows.deep_view(), id as int),
        flagged.0@.len() == rows@.len(),
        forall|i: int| 0 <= i < rows@.len() ==> (#[trigger] flagged.0@[i]).id == rows@[i].id,
{
    let mut next: Vec<ResumeRow> = Vec::new();
    let mut touched: u64 = 0;
    let mut i: usize = 0;
    while i < rows.len()
        invariant
            i <= rows@.len(),
            next@.len() == i,
            touched <= i,
            forall|j: int| 0 <= j < i ==> (#[trigger] next@[j]).id == rows@[j].id,
            forall|j: int|
                0 <= j < i ==> (#[trigger] next@[j])@ == resumes_marked_deleted(
                    rows.deep_view(),
                    id as int,
                )[j],
        decreases rows@.len() - i,
    {
        let mut row = rows[i].clone();
        if row.id == id {
            row.is_delete = true;
            touched = touched + 1;
        }
        next.push(row);
        i = i + 1;
    }
    assert(next.deep_view() =~= resumes_marked_deleted(rows.deep_view(), id as int));
    (next, touched)
}

/// The store in memory.
pub struct MemoryStore {
    jobs: Vec<JobRow>,
    last_job_id: i32,
    resumes: Vec<ResumeRow>,
    last_resume_id: i32,
}

impl MemoryStore {
    #[verifier::type_invariant]
    spec fn well_formed(self) -> bool {
        &&& 0 <= self.last_job_id
        &&& 0 <= self.last_resume_id
        &&& forall|i: int|
            0 <= i < self.jobs@.len() ==> 0 < (#[trigger] self.jobs@[i]).id <= self.last_job_id
        &&& forall|i: int, j: int|
            0 <= i < j < self.jobs@.len() ==> self.jobs@[i].id != self.jobs@[j].id
        &&& forall|i: int|
            0 <= i < self.resumes@.len() ==> 0 < (#[trigger] self.resumes@[i]).id
                <= self.last_resume_id
        &&& forall|i: int, j: int|
            0 <= i < j < self.resumes@.len() ==> self.resumes@[i].id != self.resumes@[j].id
    }

    /// The rows of the `jobs` table, oldest first.
    pub closed spec fn job_rows(&self) -> Seq<JobRowView> {
        self.jobs.deep_view()
    }

    /// The rows of the `resumes` table, oldest first.
    pub closed spec fn resume_rows(&self) -> Seq<ResumeRowView> {
        self.resumes.deep_view()
    }

    /// The identifier that the newest job got; 0 before the first.
    pub closed spec fn last_job_id(&self) -> int {
        self.last_job_id as int
    }

    /// The identifier that the newest resume got; 0 before the first.
    pub closed spec fn last_resume_id(&self) -> int {
        self.last_resume_id as int
    }

    /// A store with both tables empty.
    pub fn new() -> (store: MemoryStore)
        ensures
            store.job_rows() == Seq::<JobRowView>::empty(),
            store.resume_rows() == Seq::<ResumeRowView>::empty(),
            store.last_job_id() == 0,
            store.last_resume_id() == 0,
    {
        let store = MemoryStore {
            jobs: Vec::new(),
            last_job_id: 0,
            resumes: Vec::new(),
            last_resume_id: 0,
        };
        assert(store.job_rows() =~= Seq::<JobRowView>::empty());
        assert(store.resume_rows() =~= Seq::<ResumeRowView>::empty());
        store
    }

    /// A store with both tables empty whose identifiers go on after
    /// `last_job_id` and `last_resume_id`, as those of a database do whose
    /// sequences have been in use. There is none for a negative number.
    pub fn starting_after(last_job_id: i32, last_resume_id: i32) -> (store: Option<MemoryStore>)
        ensures
            store is Some <==> 0 <= last_job_id && 0 <= last_resume_id,
            store matches Some(store) ==> {
                &&& store.job_rows() == Seq::<JobRowView>::empty()
                &&& store.resume_rows() == Seq::<ResumeRowView>::empty()
                &&& store.last_job_id() == last_job_id
                &&& store.last_resume_id() == last_resume_id
            },
    {
        if last_job_id < 0 || last_resume_id < 0 {
            return None;
        }
        let store = MemoryStore {
            jobs: Vec::new(),
            last_job_id,
            resumes: Vec::new(),
            last_resume_id,
        };
        assert(store.job_rows() =~= Seq::<JobRowView>::empty());
        assert(store.resume_rows() =~= Seq::<ResumeRowView>::empty());
        Some(store)
    }
}

impl StoreMethods for MemoryStore {
    open spec fn jobs(&self) -> Seq<JobRowView> {
        self.job_rows()
    }

    /// Succeeds while the table has an identifier left, and gives the job
    /// the one after the last.
    fn create_job(&mut self, new_job: NewJob) -> (outcome: Result<Job, Error>)
        ensures
            outcome_view(outcome) == job_creation(old(self).last_job_id(), new_job@),
            final(self).last_job_id() == old(self).last_job_id() + (if outcome is Ok {
                1int
            } else {
                0int
            }),
            final(self).resume_rows() == old(self).resume_rows(),
            final(self).last_resume_id() == old(self).last_resume_id(),
    {
        proof {
            use_type_invariant(&*self);
        }
        if self.last_job_id == i32::MAX {
            return Err(rejection(SEQUENCE_EXHAUSTED, SEQUENCE_EXHAUSTED_MESSAGE));
        }
        let id: i32 = self.last_job_id + 1;
        let row = JobRow {
            id,
            job_name: new_job.job_name,
            company_id: new_job.company_id.0,
            location: new_job.location,
            quantity: new_job.quantity,
            salary: new_job.salary,
            job_level: new_job.job_level,
            description: new_job.description,
            is_delete: false,
        };
        let mut returned: Vec<JobRow> = Vec::new();
        returned.push(row.clone());
        let ghost before = self.jobs@;
        let mut rows: Vec<JobRow> = Vec::new();
        std::mem::swap(&mut rows, &mut self.jobs);
        rows.push(row);
        proof {
            assert forall|i: int| 0 <= i < rows@.len() implies 0 < (#[trigger] rows@[i]).id
                <= id by {
                if i < before.len() {
                    assert(rows@[i] == before[i]);
                }
            }
            assert forall|i: int, j: int| 0 <= i < j < rows@.len() implies rows@[i].id
                != rows@[j].id by {
                assert(rows@[i] == before[i]);
                if j < before.len() {
                    assert(rows@[j] == before[j]);
                }
            }
            assert(rows.deep_view() =~= old(self).jobs().push(row@));
            assert(returned.deep_view() =~= seq![row@]);
        }
        self.last_job_id = id;
        self.jobs = rows;
        decode_job(Ok(returned))
    }

    /// Answers with the job of the row that has the identifier, and with
    /// [`DbError::RowNotFound`] where no row has it.
    fn get_job_by_id(&self, job_id: JobId) -> (outcome: Result<Job, Error>)
        ensures
            outcome_view(outcome) == fetched_job(Ok(jobs_with_id(self.jobs(), job_id.0 as int))),
    {
        proof {
            use_type_invariant(self);
        }
        decode_job(Ok(select_jobs_by_id(&self.jobs, job_id.0)))
    }

    /// Answers with the page, and turns a negative `limit` or `offset` down.
    /// Without a `limit` the page runs to the end of the table.
    fn get_list_job(&self, limit: Option<i32>, offset: i32) -> (outcome: Result<Vec<Job>, Error>)
        ensures
            outcome_view(outcome) == job_listing(
                self.jobs(),
                match limit {
                    Some(limit) => Some(limit as int),
                    None => None,
                },
                offset as int,
            ),
    {
        proof {
            use_type_invariant(self);
        }
        match limit {
            Some(limit) => {
                if limit < 0 {
                    return Err(rejection(NEGATIVE_LIMIT, NEGATIVE_LIMIT_MESSAGE));
                }
            },
            None => {},
        }
        if offset < 0 {
            return Err(rejection(NEGATIVE_OFFSET, NEGATIVE_OFFSET_MESSAGE));
        }
        let len: usize = self.jobs.len();
        let from: usize = if (offset as usize) < len {
            offset as usize
        } else {
            len
        };
        let until: usize = match limit {
            Some(limit) => if (limit as usize) < len - from {
                from + limit as usize
            } else {
                len
            },
            None => len,
        };
        decode_jobs(Ok(copy_jobs(&self.jobs, from, until)))
    }

    /// Succeeds where a row has the identifier of `job`, and answers with
    /// [`DbError::RowNotFound`] where none has it or `job` has none.
    fn update_job(&mut self, job: Job) -> (outcome: Result<Job, Error>)
        ensures
            final(self).jobs() == jobs_rewritten(old(self).jobs(), job@),
            outcome_view(outcome) == fetched_job(Ok(rows_of_job(final(self).jobs(), job@))),
            final(self).last_job_id() == old(self).last_job_id(),
            final(self).resume_rows() == old(self).resume_rows(),
            final(self).last_resume_id() == old(self).last_resume_id(),
    {
        proof {
            use_type_invariant(&*self);
        }
        let next = rewrite_job(&self.jobs, &job);
        let returned: Vec<JobRow> = match job.id {
            Some(id) => select_jobs_by_id(&next, id.0),
            None => Vec::new(),
        };
        proof {
            let before = old(self).jobs();
            let after = next.deep_view();
            assert(returned.deep_view() =~= rows_of_job(after, job@));
            match job@.id {
                Some(id) => {
                    if exists|k: int| 0 <= k < before.len() && before[k].id == id {
                        let k = choose|k: int| 0 <= k < before.len() && before[k].id == id;
                        assert(after[k] == job@.row(id));
                        assert forall|i: int| 0 <= i < after.len() && i != k implies !job_has_id(
                            id,
                        )(#[trigger] after[i]) by {
                            assert(self.jobs@[i].id != self.jobs@[k].id);
                        }
                        lemma_filter_one(after, job_has_id(id), k);
                    } else {
                        lemma_filter_none(after, job_has_id(id));
                        assert(after =~= before);
                    }
                },
                None => {
                    assert(after =~= before);
                },
            }
        }
        self.jobs = next;
        decode_job(Ok(returned))
    }

    /// Always succeeds, whether or not a row has the identifier.
    fn delete_job(&mut self, job_id: JobId) -> (outcome: Result<bool, Error>)
        ensures
            outcome == Ok::<bool, Error>(true),
            final(self).last_job_id() == old(self).last_job_id(),
            final(self).resume_rows() == old(self).resume_rows(),
            final(self).last_resume_id() == old(self).last_resume_id(),
    {
        proof {
            use_type_invariant(&*self);
        }
        let (next, touched) = flag_job(&self.jobs, job_id.0);
        self.jobs = next;
        decode_execution(Ok(touched))
    }
}

impl ResumeStoreMethods for MemoryStore {
    open spec fn resumes(&self) -> Seq<ResumeRowView> {
        self.resume_rows()
    }

    /// Succeeds while the table has an identifier left, and gives the
    /// resume the one after the last.
    fn create_resume(&mut self, new_resume: ResumeInfo) -> (outcome: Result<Resume, Error>)
        ensures
            outcome_view(outcome) == resume_creation(old(self).last_resume_id(), new_resume@),
            final(self).last_resume_id() == old(self).last_resume_id() + (if outcome is Ok {
                1int
            } else {
                0int
            }),
            final(self).job_rows() == old(self).job_rows(),
            final(self).last_job_id() == old(self).last_job_id(),
    {
        proof {
            use_type_invariant(&*self);
        }
        if self.last_resume_id == i32::MAX {
            return Err(rejection(SEQUENCE_EXHAUSTED, SEQUENCE_EXHAUSTED_MESSAGE));
        }
        let id: i32 = self.last_resume_id + 1;
        let row = ResumeRow {
            id,
            user_id: new_resume.user_id.0,
            email: new_resume.email,
            url: new_resume.url,
            is_delete: false,
        };
        let mut returned: Vec<ResumeRow> = Vec::new();
        returned.push(row.clone());
        let ghost before = self.resumes@;
        let mut rows: Vec<ResumeRow> = Vec::new();
        std::mem::swap(&mut rows, &mut self.resumes);
        rows.push(row);
        proof {
            assert forall|i: int| 0 <= i < rows@.len() implies 0 < (#[trigger] rows@[i]).id
                <= id by {
                if i < before.len() {
                    assert(rows@[i] == before[i]);
                }
            }
            assert forall|i: int, j: int| 0 <= i < j < rows@.len() implies rows@[i].id
                != rows@[j].id by {
                assert(rows@[i] == before[i]);
                if j < before.len() {
                    assert(rows@[j] == before[j]);
                }
            }
            assert(rows.deep_view() =~= old(self).resumes().push(row@));
            assert(returned.deep_view() =~= seq![row@]);
        }
        self.last_resume_id = id;
        self.resumes = rows;
        decode_resume(Ok(returned))
    }

    /// Answers with the resume of the row that has the identifier, and
    /// with [`DbError::RowNotFound`] where no row has it.
    fn get_resume_by_id(&self, resume_id: ResumeId) -> (outcome: Result<Resume, Error>)
        ensures
            outcome_view(outcome) == fetched_resume(
                Ok(resumes_with_id(self.resumes(), resume_id.0 as int)),
            ),
    {
        proof {
            use_type_invariant(self);
        }
        decode_resume(Ok(select_resumes_by_id(&self.resumes, resume_id.0)))
    }

    /// Answers with the resume of the user where the user has exactly one,
    /// with [`DbError::RowNotFound`] where the user has none, and with
    /// [`DbError::MultipleRows`] where the user has several.
    fn get_resume_by_user_id(&self, user_id: UserId) -> (outcome: Result<Resume, Error>)
        ensures
            outcome_view(outcome) == fetched_resume(
                Ok(resumes_of_user(self.resumes(), user_id.0 as int)),
            ),
    {
        proof {
            use_type_invariant(self);
        }
        decode_resume(Ok(select_resumes_of_user(&self.resumes, user_id.0)))
    }

    /// Always succeeds.
    fn get_list_resumes(&self) -> (outcome: Result<Vec<Resume>, Error>)
        ensures
            outcome_view(outcome) == fetched_resumes(Ok(self.resumes())),
    {
        proof {
            use_type_invariant(self);
        }
        decode_resumes(Ok(copy_resumes(&self.resumes)))
    }

    /// Revises every resume of the user, and succeeds where that is
    /// exactly one.
    fn update_resume(&mut self, resume_info: ResumeInfo) -> (outcome: Result<Resume, Error>)
        ensures
            final(self).resumes() == resumes_revised(old(self).resumes(), resume_info@),
            outcome_view(outcome) == fetched_resume(
                Ok(resumes_of_user(final(self).resumes(), resume_info@.user_id)),
            ),
            final(self).last_resume_id() == old(self).last_resume_id(),
            final(self).job_rows() == old(self).job_rows(),
            final(self).last_job_id() == old(self).last_job_id(),
    {
        proof {
            use_type_invariant(&*self);
        }
        let next = revise_resumes(&self.resumes, &resume_info);
        let returned = select_resumes_of_user(&next, resume_info.user_id.0);
        proof {
            let before = old(self).resumes();
            let after = next.deep_view();
            let user_id = resume_info@.user_id;
            if returned@.len() == 0 {
                assert forall|i: int| 0 <= i < before.len() implies before[i].user_id
                    != user_id by {
                    if before[i].user_id == user_id {
                        assert(resume_of_user(user_id)(after[i]));
                        lemma_filter_some(after, resume_of_user(user_id), i);
                    }
                }
                assert(after =~= before);
            }
        }
        self.resumes = next;
        decode_resume(Ok(returned))
    }

    /// Always succeeds, whether or not a row has the identifier.
    fn delete_resume(&mut self, resume_id: ResumeId) -> (outcome: Result<bool, Error>)
        ensures
            outcome == Ok::<bool, Error>(true),
            final(self).last_resume_id() == old(self).last_resume_id(),
            final(self).job_rows() == old(self).job_rows(),
            final(self).last_job_id() == old(self).last_job_id(),
    {
        proof {
            use_type_invariant(&*self);
        }
        let (next, touched) = flag_resume(&self.resumes, resume_id.0);
        self.resumes = next;
        decode_execution(Ok(touched))
    }
}

} // verus!
