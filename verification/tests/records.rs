use job_board::error::{DbError, Diagnostics, Error};
use job_board::ids::{CompanyId, JobId, ResumeId, UserId};
use job_board::job::{Job, JobRow, NewJob};
use job_board::resume::{Resume, ResumeInfo, ResumeRow};

#[test]
fn a_copy_of_a_job_is_the_job() {
    let job = Job {
        id: Some(JobId(4)),
        job_name: "Engineer".to_string(),
        company_id: CompanyId(1),
        location: "Remote".to_string(),
        quantity: 2,
        salary: 90000,
        job_level: "Senior".to_string(),
        description: "Build things".to_string(),
        is_delete: true,
    };
    assert_eq!(job.clone(), job);
    let new_job = NewJob {
        job_name: "Engineer".to_string(),
        company_id: CompanyId(1),
        location: "Remote".to_string(),
        quantity: 2,
        salary: 90000,
        job_level: "Senior".to_string(),
        description: "Build things".to_string(),
    };
    assert_eq!(new_job.clone(), new_job);
    let row = JobRow {
        id: 4,
        job_name: "Engineer".to_string(),
        company_id: 1,
        location: "Remote".to_string(),
        quantity: 2,
        salary: 90000,
        job_level: "Senior".to_string(),
        description: "Build things".to_string(),
        is_delete: false,
    };
    assert_eq!(row.clone(), row);
}

#[test]
fn a_copy_of_a_resume_is_the_resume() {
    let resume = Resume {
        id: None,
        user_id: UserId(3),
        email: "an@example.com".to_string(),
        url: "https://cv.example/an".to_string(),
        is_delete: false,
    };
    assert_eq!(resume.clone(), resume);
    let stored = Resume { id: Some(ResumeId(8)), is_delete: true, ..resume.clone() };
    assert_eq!(stored.clone(), stored);
    assert_ne!(stored, resume);
    let info = ResumeInfo { user_id: UserId(3), email: "a".to_string(), url: "b".to_string() };
    assert_eq!(info.clone(), info);
    let row = ResumeRow {
        id: 8,
        user_id: 3,
        email: "a".to_string(),
        url: "b".to_string(),
        is_delete: true,
    };
    assert_eq!(row.clone(), row);
}

#[test]
fn a_copy_of_a_failure_is_the_failure() {
    let failures = vec![
        DbError::RowNotFound,
        DbError::MultipleRows,
        DbError::Database {
            code: Some("23505".to_string()),
            message: "duplicate key".to_string(),
            constraint: Some("resumes_pkey".to_string()),
        },
        DbError::Database { code: None, message: String::new(), constraint: None },
        DbError::Driver { message: "pool timed out".to_string() },
    ];
    for failure in failures {
        assert_eq!(failure.clone(), failure);
        let error = Error::DatabaseQueryError(failure.clone());
        assert_eq!(error.clone(), error);
        let said: Diagnostics = failure.diagnostics();
        assert_eq!(said.clone(), said);
    }
}
