use job_board::error::{DbError, Error};
use job_board::ids::{CompanyId, JobId, ResumeId, UserId};
use job_board::job::{Job, JobRow};
use job_board::reply::{
    decode_execution, decode_job, decode_jobs, decode_resume, decode_resumes, take_single,
};
use job_board::resume::{Resume, ResumeRow};

fn resume_row(id: i32, user: i32) -> ResumeRow {
    ResumeRow {
        id,
        user_id: user,
        email: format!("u{}@example.com", user),
        url: format!("https://cv.example/{}", id),
        is_delete: id % 2 == 0,
    }
}

fn resume(id: i32, user: i32) -> Resume {
    Resume {
        id: Some(ResumeId(id)),
        user_id: UserId(user),
        email: format!("u{}@example.com", user),
        url: format!("https://cv.example/{}", id),
        is_delete: id % 2 == 0,
    }
}

fn job_row(id: i32) -> JobRow {
    JobRow {
        id,
        job_name: format!("job {}", id),
        company_id: 10 + id,
        location: "Remote".to_string(),
        quantity: id,
        salary: 1000 * id,
        job_level: "Senior".to_string(),
        description: "Build things".to_string(),
        is_delete: id % 2 == 0,
    }
}

fn job(id: i32) -> Job {
    Job {
        id: Some(JobId(id)),
        job_name: format!("job {}", id),
        company_id: CompanyId(10 + id),
        location: "Remote".to_string(),
        quantity: id,
        salary: 1000 * id,
        job_level: "Senior".to_string(),
        description: "Build things".to_string(),
        is_delete: id % 2 == 0,
    }
}

fn unique_violation() -> DbError {
    DbError::Database {
        code: Some("23505".to_string()),
        message: "duplicate key value violates unique constraint \"resumes_pkey\"".to_string(),
        constraint: Some("resumes_pkey".to_string()),
    }
}

#[test]
fn take_single_wants_exactly_one_row() {
    assert_eq!(take_single(Vec::<i32>::new()), Err(DbError::RowNotFound));
    assert_eq!(take_single(vec![7]), Ok(7));
    assert_eq!(take_single(vec![7, 8]), Err(DbError::MultipleRows));
    assert_eq!(take_single(vec![7, 7, 7]), Err(DbError::MultipleRows));
}

#[test]
fn from_row_maps_every_column() {
    assert_eq!(Resume::from_row(resume_row(4, 9)), resume(4, 9));
    assert_eq!(Job::from_row(job_row(3)), job(3));
    assert_eq!(Job::from_row(job_row(2)), job(2));
}

#[test]
fn decode_resume_returns_the_resume_of_the_one_row() {
    assert_eq!(decode_resume(Ok(vec![resume_row(4, 9)])), Ok(resume(4, 9)));
}

#[test]
fn decode_resume_without_a_row_is_row_not_found() {
    assert_eq!(decode_resume(Ok(vec![])), Err(Error::DatabaseQueryError(DbError::RowNotFound)));
}

#[test]
fn decode_resume_with_two_rows_is_multiple_rows() {
    assert_eq!(
        decode_resume(Ok(vec![resume_row(1, 9), resume_row(2, 9)])),
        Err(Error::DatabaseQueryError(DbError::MultipleRows))
    );
}

#[test]
fn decode_resume_wraps_the_failure_of_the_database() {
    assert_eq!(
        decode_resume(Err(unique_violation())),
        Err(Error::DatabaseQueryError(unique_violation()))
    );
    let lost = DbError::Driver { message: "connection reset".to_string() };
    assert_eq!(decode_resume(Err(lost.clone())), Err(Error::DatabaseQueryError(lost)));
}

#[test]
fn decode_resumes_keeps_the_order_of_the_rows() {
    assert_eq!(
        decode_resumes(Ok(vec![resume_row(3, 1), resume_row(1, 2), resume_row(2, 1)])),
        Ok(vec![resume(3, 1), resume(1, 2), resume(2, 1)])
    );
}

#[test]
fn decode_resumes_of_no_rows_is_the_empty_list() {
    assert_eq!(decode_resumes(Ok(vec![])), Ok(vec![]));
}

#[test]
fn decode_resumes_wraps_the_failure_of_the_database() {
    assert_eq!(
        decode_resumes(Err(DbError::RowNotFound)),
        Err(Error::DatabaseQueryError(DbError::RowNotFound))
    );
}

#[test]
fn decode_job_follows_the_rule_of_one_row() {
    assert_eq!(decode_job(Ok(vec![job_row(5)])), Ok(job(5)));
    assert_eq!(decode_job(Ok(vec![])), Err(Error::DatabaseQueryError(DbError::RowNotFound)));
    assert_eq!(
        decode_job(Ok(vec![job_row(5), job_row(6)])),
        Err(Error::DatabaseQueryError(DbError::MultipleRows))
    );
    assert_eq!(
        decode_job(Err(unique_violation())),
        Err(Error::DatabaseQueryError(unique_violation()))
    );
}

#[test]
fn decode_jobs_keeps_the_order_of_the_rows() {
    assert_eq!(decode_jobs(Ok(vec![job_row(2), job_row(1)])), Ok(vec![job(2), job(1)]));
    assert_eq!(decode_jobs(Ok(vec![])), Ok(vec![]));
    let lost = DbError::Driver { message: "pool closed".to_string() };
    assert_eq!(decode_jobs(Err(lost.clone())), Err(Error::DatabaseQueryError(lost)));
}

#[test]
fn decode_execution_is_true_whatever_was_touched() {
    assert_eq!(decode_execution(Ok(0)), Ok(true));
    assert_eq!(decode_execution(Ok(1)), Ok(true));
    assert_eq!(decode_execution(Ok(u64::MAX)), Ok(true));
}

#[test]
fn decode_execution_wraps_the_failure_of_the_database() {
    let lost = DbError::Driver { message: "connection reset".to_string() };
    assert_eq!(decode_execution(Err(lost.clone())), Err(Error::DatabaseQueryError(lost)));
}
