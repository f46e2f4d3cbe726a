//! The statements that reach the database. Each is a text fixed here, with
//! numbered placeholders, and the values bound to them in order: no value is
//! ever written into the text.

use crate::ids::{JobId, ResumeId, UserId};
use crate::job::{Job, NewJob};
use crate::resume::ResumeInfo;
use vstd::prelude::*;

verus! {

/// Creates a resume and hands its row back.
pub const INSERT_RESUME: &'static str =
    "INSERT INTO resumes (user_id, email, url, is_delete) VALUES ($1, $2, $3, $4) RETURNING id, user_id, email, url, is_delete";

/// Fetches the resume with an identifier.
pub const SELECT_RESUME_BY_ID: &'static str = "SELECT * FROM resumes WHERE id = $1";

/// Fetches the resume of a user.
pub const SELECT_RESUME_BY_USER_ID: &'static str = "SELECT * FROM resumes WHERE user_id = $1";

/// Fetches every resume.
pub const SELECT_RESUMES: &'static str = "SELECT * FROM resumes";

/// Updates the resume of a user and hands its row back.
pub const UPDATE_RESUME: &'static str =
    "UPDATE resumes SET email = $2, url = $3 WHERE user_id = $1 RETURNING id, user_id, email, url, is_delete";

/// Sets the deletion flag of a resume.
pub const SOFT_DELETE_RESUME: &'static str = "UPDATE resumes SET is_delete = $1 WHERE id = $2";

/// Creates a job and hands its row back.
pub const INSERT_JOB: &'static str =
    "INSERT INTO jobs (job_name, company_id, location, quantity, salary, job_level, description, is_delete) VALUES ($1, $2, $3, $4, $5, $6, $7, $8) RETURNING id, job_name, company_id, location, quantity, salary, job_level, description, is_delete";

/// Fetches the job with an identifier.
pub const SELECT_JOB_BY_ID: &'static str = "SELECT * FROM jobs WHERE id = $1";

/// Fetches jobs, skipping `$2` rows and stopping after `$1`. A null `$1`
/// sets no limit.
pub const SELECT_JOBS: &'static str = "SELECT * FROM jobs LIMIT $1 OFFSET $2";

/// Updates every column of a job and hands its row back.
pub const UPDATE_JOB: &'static str =
    "UPDATE jobs SET job_name = $1, company_id = $2, location = $3, quantity = $4, salary = $5, job_level = $6, description = $7, is_delete = $8 WHERE id = $9 RETURNING id, job_name, company_id, location, quantity, salary, job_level, description, is_delete";

/// Sets the deletion flag of a job.
pub const SOFT_DELETE_JOB: &'static str = "UPDATE jobs SET is_delete = $1 WHERE id = $2";

/// A value bound to a placeholder.
#[derive(Debug, PartialEq, Eq)]
pub enum Param {
    Int(i32),
    Text(String),
    Bool(bool),
    Null,
}

/// The model of a [`Param`].
pub enum ParamView {
    Int(int),
    Text(Seq<char>),
    Bool(bool),
    Null,
}

impl View for Param {
    type V = ParamView;

    open spec fn view(&self) -> ParamView {
        match self {
            Param::Int(value) => ParamView::Int(*value as int),
            Param::Text(value) => ParamView::Text(value@),
            Param::Bool(value) => ParamView::Bool(*value),
            Param::Null => ParamView::Null,
        }
    }
}

impl DeepView for Param {
    type V = ParamView;

    open spec fn deep_view(&self) -> ParamView {
        self@
    }
}

/// A statement ready to be sent: its text, and the values for `$1`, `$2`
/// and so on, in that order.
#[derive(Debug, PartialEq, Eq)]
pub struct Statement {
    pub sql: &'static str,
    pub params: Vec<Param>,
}

/// The model of a [`Statement`].
pub struct StatementView {
    pub sql: Seq<char>,
    pub params: Seq<ParamView>,
}

impl View for Statement {
    type V = StatementView;

    open spec fn view(&self) -> StatementView {
        StatementView { sql: self.sql@, params: self.params.deep_view() }
    }
}

/// The identifier of a record as a statement binds it: null where the
/// record has none.
pub open spec fn id_param(id: Option<int>) -> ParamView {
    match id {
        Some(id) => ParamView::Int(id),
        None => ParamView::Null,
    }
}

impl Statement {
    /// The statement that creates a resume from `new_resume`. The deletion
    /// flag it binds is always `false`.
    pub fn insert_resume(new_resume: &ResumeInfo) -> (statement: Statement)
        ensures
            statement@ == (StatementView {
                sql: INSERT_RESUME@,
                params: seq![
                    ParamView::Int(new_resume@.user_id),
                    ParamView::Text(new_resume@.email),
                    ParamView::Text(new_resume@.url),
                    ParamView::Bool(false),
                ],
            }),
    {
        let mut params: Vec<Param> = Vec::new();
        params.push(Param::Int(new_resume.user_id.0));
        params.push(Param::Text(new_resume.email.clone()));
        params.push(Param::Text(new_resume.url.clone()));
        params.push(Param::Bool(false));
        let statement = Statement { sql: INSERT_RESUME, params };
        assert(statement@.params =~= seq![
            ParamView::Int(new_resume@.user_id),
            ParamView::Text(new_resume@.email),
            ParamView::Text(new_resume@.url),
            ParamView::Bool(false),
        ]);
        statement
    }

    /// The statement that fetches the resume `resume_id`.
    pub fn select_resume_by_id(resume_id: ResumeId) -> (statement: Statement)
        ensures
            statement@ == (StatementView {
                sql: SELECT_RESUME_BY_ID@,
                params: seq![ParamView::Int(resume_id.0 as int)],
            }),
    {
        let mut params: Vec<Param> = Vec::new();
        params.push(Param::Int(resume_id.0));
        let statement = Statement { sql: SELECT_RESUME_BY_ID, params };
        assert(statement@.params =~= seq![ParamView::Int(resume_id.0 as int)]);
        statement
    }

    /// The statement that fetches the resume of the user `user_id`.
    pub fn select_resume_by_user_id(user_id: UserId) -> (statement: Statement)
        ensures
            statement@ == (StatementView {
                sql: SELECT_RESUME_BY_USER_ID@,
                params: seq![ParamView::Int(user_id.0 as int)],
            }),
    {
        let mut params: Vec<Param> = Vec::new();
        params.push(Param::Int(user_id.0));
        let statement = Statement { sql: SELECT_RESUME_BY_USER_ID, params };
        assert(statement@.params =~= seq![ParamView::Int(user_id.0 as int)]);
        statement
    }

    /// The statement that fetches every resume. It binds nothing.
    pub fn select_resumes() -> (statement: Statement)
        ensures
            statement@ == (StatementView { sql: SELECT_RESUMES@, params: Seq::empty() }),
    {
        let statement = Statement { sql: SELECT_RESUMES, params: Vec::new() };
        assert(statement@.params =~= Seq::empty());
        statement
    }

    /// The statement that gives the resume of the user `resume_info.user_id`
    /// the address and the link of `resume_info`.
    pub fn update_resume(resume_info: &ResumeInfo) -> (statement: Statement)
        ensures
            statement@ == (StatementView {
                sql: UPDATE_RESUME@,
                params: seq![
                    ParamView::Int(resume_info@.user_id),
                    ParamView::Text(resume_info@.email),
                    ParamView::Text(resume_info@.url),
                ],
            }),
    {
        let mut params: Vec<Param> = Vec::new();
        params.push(Param::Int(resume_info.user_id.0));
        params.push(Param::Text(resume_info.email.clone()));
        params.push(Param::Text(resume_info.url.clone()));
        let statement = Statement { sql: UPDATE_RESUME, params };
        assert(statement@.params =~= seq![
            ParamView::Int(resume_info@.user_id),
            ParamView::Text(resume_info@.email),
            ParamView::Text(resume_info@.url),
        ]);
        statement
    }

    /// The statement that flags the resume `resume_id` as deleted.
    pub fn soft_delete_resume(resume_id: ResumeId) -> (statement: Statement)
        ensures
            statement@ == (StatementView {
                sql: SOFT_DELETE_RESUME@,
                params: seq![ParamView::Bool(true), ParamView::Int(resume_id.0 as int)],
            }),
    {
        let mut params: Vec<Param> = Vec::new();
        params.push(Param::Bool(true));
        params.push(Param::Int(resume_id.0));
        let statement = Statement { sql: SOFT_DELETE_RESUME, params };
        assert(statement@.params =~= seq![
            ParamView::Bool(true),
            ParamView::Int(resume_id.0 as int),
        ]);
        statement
    }

    /// The statement that creates a job from `new_job`. The deletion flag it
    /// binds is always `false`.
    pub fn insert_job(new_job: &NewJob) -> (statement: Statement)
        ensures
            statement@ == (StatementView {
                sql: INSERT_JOB@,
                params: seq![
                    ParamView::Text(new_job@.job_name),
                    ParamView::Int(new_job@.company_id),
                    ParamView::Text(new_job@.location),
                    ParamView::Int(new_job@.quantity),
                    ParamView::Int(new_job@.salary),
                    ParamView::Text(new_job@.job_level),
                    ParamView::Text(new_job@.description),
                    ParamView::Bool(false),
                ],
            }),
    {
        let mut params: Vec<Param> = Vec::new();
        params.push(Param::Text(new_job.job_name.clone()));
        params.push(Param::Int(new_job.company_id.0));
        params.push(Param::Text(new_job.location.clone()));
        params.push(Param::Int(new_job.quantity));
        params.push(Param::Int(new_job.salary));
        params.push(Param::Text(new_job.job_level.clone()));
        params.push(Param::Text(new_job.description.clone()));
        params.push(Param::Bool(false));
        let statement = Statement { sql: INSERT_JOB, params };
        assert(statement@.params =~= seq![
            ParamView::Text(new_job@.job_name),
            ParamView::Int(new_job@.company_id),
            ParamView::Text(new_job@.location),
            ParamView::Int(new_job@.quantity),
            ParamView::Int(new_job@.salary),
            ParamView::Text(new_job@.job_level),
            ParamView::Text(new_job@.description),
            ParamView::Bool(false),
        ]);
        statement
    }

    /// The statement that fetches the job `job_id`.
    pub fn select_job_by_id(job_id: JobId) -> (statement: Statement)
        ensures
            statement@ == (StatementView {
                sql: SELECT_JOB_BY_ID@,
                params: seq![ParamView::Int(job_id.0 as int)],
            }),
    {
        let mut params: Vec<Param> = Vec::new();
        params.push(Param::Int(job_id.0));
        let statement = Statement { sql: SELECT_JOB_BY_ID, params };
        assert(statement@.params =~= seq![ParamView::Int(job_id.0 as int)]);
        statement
    }

    /// The statement that fetches jobs in the order the table keeps them,
    /// past the first `offset` and at most `limit` of them. Without a
    /// `limit` it binds null, and the database then sets no limit.
    pub fn select_jobs(limit: Option<i32>, offset: i32) -> (statement: Statement)
        ensures
            statement@ == (StatementView {
                sql: SELECT_JOBS@,
                params: seq![
                    match limit {
                        Some(limit) => ParamView::Int(limit as int),
                        None => ParamView::Null,
                    },
                    ParamView::Int(offset as int),
                ],
            }),
    {
        let mut params: Vec<Param> = Vec::new();
        match limit {
            Some(limit) => params.push(Param::Int(limit)),
            None => params.push(Param::Null),
        }
        params.push(Param::Int(offset));
        let statement = Statement { sql: SELECT_JOBS, params };
        assert(statement@.params =~= seq![
            match limit {
                Some(limit) => ParamView::Int(limit as int),
                None => ParamView::Null,
            },
            ParamView::Int(offset as int),
        ]);
        statement
    }

    /// The statement that writes every field of `job` to the row with its
    /// identifier. A job without one binds null there, and the database
    /// then finds no row.
    pub fn update_job(job: &Job) -> (statement: Statement)
        ensures
            statement@ == (StatementView {
                sql: UPDATE_JOB@,
                params: seq![
                    ParamView::Text(job@.job_name),
                    ParamView::Int(job@.company_id),
                    ParamView::Text(job@.location),
                    ParamView::Int(job@.quantity),
                    ParamView::Int(job@.salary),
                    ParamView::Text(job@.job_level),
                    ParamView::Text(job@.description),
                    ParamView::Bool(job@.is_delete),
                    id_param(job@.id),
                ],
            }),
    {
        let mut params: Vec<Param> = Vec::new();
        params.push(Param::Text(job.job_name.clone()));
        params.push(Param::Int(job.company_id.0));
        params.push(Param::Text(job.location.clone()));
        params.push(Param::Int(job.quantity));
        params.push(Param::Int(job.salary));
        params.push(Param::Text(job.job_level.clone()));
        params.push(Param::Text(job.description.clone()));
        params.push(Param::Bool(job.is_delete));
        match job.id {
            Some(id) => params.push(Param::Int(id.0)),
            None => params.push(Param::Null),
        }
        let statement = Statement { sql: UPDATE_JOB, params };
        assert(statement@.params =~= seq![
            ParamView::Text(job@.job_name),
            ParamView::Int(job@.company_id),
            ParamView::Text(job@.location),
            ParamView::Int(job@.quantity),
            ParamView::Int(job@.salary),
            ParamView::Text(job@.job_level),
            ParamView::Text(job@.description),
            ParamView::Bool(job@.is_delete),
            id_param(job@.id),
        ]);
        statement
    }

    /// The statement that flags the job `job_id` as deleted.
    pub fn soft_delete_job(job_id: JobId) -> (statement: Statement)
        ensures
            statement@ == (StatementView {
                sql: SOFT_DELETE_JOB@,
                params: seq![ParamView::Bool(true), ParamView::Int(job_id.0 as int)],
            }),
    {
        let mut params: Vec<Param> = Vec::new();
        params.push(Param::Bool(true));
        params.push(Param::Int(job_id.0));
        let statement = Statement { sql: SOFT_DELETE_JOB, params };
        assert(statement@.params =~= seq![ParamView::Bool(true), ParamView::Int(job_id.0 as int)]);
        statement
    }
}

} // verus!
