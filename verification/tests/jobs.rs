use job_board::error::{DbError, Error};
use job_board::ids::{CompanyId, JobId};
use job_board::job::{Job, JobActions, JobMac, NewJob};
use job_board::memory::{
    MemoryStore, NEGATIVE_LIMIT, NEGATIVE_LIMIT_MESSAGE, NEGATIVE_OFFSET, NEGATIVE_OFFSET_MESSAGE,
    SEQUENCE_EXHAUSTED, SEQUENCE_EXHAUSTED_MESSAGE,
};
use job_board::store::StoreMethods;

fn posting(name: &str, salary: i32) -> NewJob {
    NewJob {
        job_name: name.to_string(),
        company_id: CompanyId(7),
        location: "Hanoi".to_string(),
        quantity: 3,
        salary,
        job_level: "Junior".to_string(),
        description: format!("{} wanted", name),
    }
}

fn rejected(code: &str, message: &str) -> Error {
    Error::DatabaseQueryError(DbError::Database {
        code: Some(code.to_string()),
        message: message.to_string(),
        constraint: None,
    })
}

fn store_with(names: &[&str]) -> MemoryStore {
    let mut store = MemoryStore::new();
    for name in names {
        JobMac::create(&mut store, posting(name, 1000)).unwrap();
    }
    store
}

fn names(jobs: &[Job]) -> Vec<String> {
    jobs.iter().map(|job| job.job_name.clone()).collect()
}

#[test]
fn create_then_get_by_id_returns_the_input_with_its_identifier() {
    let mut store = MemoryStore::new();
    let input = posting("Baker", 1200);
    let created = JobMac::create(&mut store, input.clone()).unwrap();
    let expected = Job {
        id: Some(JobId(1)),
        job_name: "Baker".to_string(),
        company_id: CompanyId(7),
        location: "Hanoi".to_string(),
        quantity: 3,
        salary: 1200,
        job_level: "Junior".to_string(),
        description: "Baker wanted".to_string(),
        is_delete: false,
    };
    assert_eq!(created, expected);
    assert_eq!(JobMac::get_by_id(&store, JobId(1)), Ok(expected));
}

#[test]
fn identifiers_count_up_from_one_and_are_never_given_twice() {
    let mut store = MemoryStore::new();
    let first = JobMac::create(&mut store, posting("a", 1)).unwrap();
    let second = JobMac::create(&mut store, posting("b", 2)).unwrap();
    JobMac::delete(&mut store, JobId(2)).unwrap();
    let third = JobMac::create(&mut store, posting("c", 3)).unwrap();
    assert_eq!(first.id, Some(JobId(1)));
    assert_eq!(second.id, Some(JobId(2)));
    assert_eq!(third.id, Some(JobId(3)));
}

#[test]
fn the_store_answers_as_the_actions_do() {
    let mut store = MemoryStore::new();
    let through_store = store.create_job(posting("a", 1)).unwrap();
    let through_actions = JobMac::get_by_id(&store, JobId(1)).unwrap();
    assert_eq!(through_store, through_actions);
    assert_eq!(store.get_job_by_id(JobId(1)), Ok(through_actions));
}

#[test]
fn relay_hands_the_answer_on_unchanged() {
    assert_eq!(JobMac::relay(Ok(5)), Ok(5));
    assert_eq!(
        JobMac::relay::<i32>(Err(Error::DatabaseQueryError(DbError::RowNotFound))),
        Err(Error::DatabaseQueryError(DbError::RowNotFound))
    );
    let failure = Error::DatabaseQueryError(DbError::Driver { message: "pool timed out".to_string() });
    assert_eq!(JobMac::relay::<bool>(Err(failure.clone())), Err(failure));
}

#[test]
fn get_by_id_of_an_unknown_identifier_is_row_not_found() {
    let store = store_with(&["a", "b"]);
    assert_eq!(
        JobMac::get_by_id(&store, JobId(3)),
        Err(Error::DatabaseQueryError(DbError::RowNotFound))
    );
    assert_eq!(
        JobMac::get_by_id(&store, JobId(0)),
        Err(Error::DatabaseQueryError(DbError::RowNotFound))
    );
    assert_eq!(
        JobMac::get_by_id(&store, JobId(-1)),
        Err(Error::DatabaseQueryError(DbError::RowNotFound))
    );
    assert_eq!(
        JobMac::get_by_id(&MemoryStore::new(), JobId(1)),
        Err(Error::DatabaseQueryError(DbError::RowNotFound))
    );
}

#[test]
fn list_of_an_empty_store_is_empty() {
    let store = MemoryStore::new();
    assert_eq!(JobMac::list(&store, None, 0), Ok(vec![]));
    assert_eq!(JobMac::list(&store, Some(10), 0), Ok(vec![]));
    assert_eq!(JobMac::list(&store, Some(0), 5), Ok(vec![]));
    assert_eq!(JobMac::list(&store, None, i32::MAX), Ok(vec![]));
    assert_eq!(JobMac::list(&store, Some(i32::MAX), i32::MAX), Ok(vec![]));
}

#[test]
fn list_without_a_limit_runs_to_the_end() {
    let store = store_with(&["a", "b", "c", "d"]);
    assert_eq!(names(&JobMac::list(&store, None, 0).unwrap()), ["a", "b", "c", "d"]);
    assert_eq!(names(&JobMac::list(&store, None, 1).unwrap()), ["b", "c", "d"]);
    assert_eq!(names(&JobMac::list(&store, None, 4).unwrap()), Vec::<String>::new());
    assert_eq!(names(&JobMac::list(&store, None, 9).unwrap()), Vec::<String>::new());
}

#[test]
fn list_cuts_the_page_that_limit_and_offset_name() {
    let store = store_with(&["a", "b", "c", "d"]);
    assert_eq!(names(&JobMac::list(&store, Some(2), 0).unwrap()), ["a", "b"]);
    assert_eq!(names(&JobMac::list(&store, Some(2), 1).unwrap()), ["b", "c"]);
    assert_eq!(names(&JobMac::list(&store, Some(2), 3).unwrap()), ["d"]);
    assert_eq!(names(&JobMac::list(&store, Some(0), 1).unwrap()), Vec::<String>::new());
    assert_eq!(names(&JobMac::list(&store, Some(4), 0).unwrap()), ["a", "b", "c", "d"]);
    assert_eq!(names(&JobMac::list(&store, Some(i32::MAX), 2).unwrap()), ["c", "d"]);
    assert_eq!(names(&JobMac::list(&store, Some(1), i32::MAX).unwrap()), Vec::<String>::new());
}

#[test]
fn list_turns_negative_numbers_down() {
    let store = store_with(&["a"]);
    assert_eq!(
        JobMac::list(&store, Some(-1), 0),
        Err(rejected(NEGATIVE_LIMIT, NEGATIVE_LIMIT_MESSAGE))
    );
    assert_eq!(
        JobMac::list(&store, None, -1),
        Err(rejected(NEGATIVE_OFFSET, NEGATIVE_OFFSET_MESSAGE))
    );
    assert_eq!(
        JobMac::list(&store, Some(3), i32::MIN),
        Err(rejected(NEGATIVE_OFFSET, NEGATIVE_OFFSET_MESSAGE))
    );
    assert_eq!(
        JobMac::list(&store, Some(-5), -5),
        Err(rejected(NEGATIVE_LIMIT, NEGATIVE_LIMIT_MESSAGE))
    );
    assert_eq!(NEGATIVE_LIMIT, "2201W");
    assert_eq!(NEGATIVE_OFFSET, "2201X");
}

#[test]
fn list_and_get_by_id_show_deleted_jobs() {
    let mut store = store_with(&["a", "b"]);
    assert_eq!(JobMac::delete(&mut store, JobId(1)), Ok(true));
    let listed = JobMac::list(&store, None, 0).unwrap();
    assert_eq!(names(&listed), ["a", "b"]);
    assert!(listed[0].is_delete);
    assert!(!listed[1].is_delete);
    assert!(JobMac::get_by_id(&store, JobId(1)).unwrap().is_delete);
}

#[test]
fn delete_flags_one_job_and_no_other() {
    let mut store = store_with(&["a", "b", "c"]);
    let before = JobMac::get_by_id(&store, JobId(2)).unwrap();
    assert_eq!(JobMac::delete(&mut store, JobId(2)), Ok(true));
    let after = JobMac::get_by_id(&store, JobId(2)).unwrap();
    assert_eq!(after, Job { is_delete: true, ..before });
    assert!(!JobMac::get_by_id(&store, JobId(1)).unwrap().is_delete);
    assert!(!JobMac::get_by_id(&store, JobId(3)).unwrap().is_delete);
    assert_eq!(JobMac::list(&store, None, 0).unwrap().len(), 3);
}

#[test]
fn delete_twice_is_no_error_and_the_flag_stays() {
    let mut store = store_with(&["a"]);
    assert_eq!(JobMac::delete(&mut store, JobId(1)), Ok(true));
    let once = JobMac::list(&store, None, 0).unwrap();
    assert_eq!(JobMac::delete(&mut store, JobId(1)), Ok(true));
    let twice = JobMac::list(&store, None, 0).unwrap();
    assert_eq!(once, twice);
    assert!(JobMac::get_by_id(&store, JobId(1)).unwrap().is_delete);
}

#[test]
fn delete_of_an_unknown_identifier_is_true_and_changes_nothing() {
    let mut store = store_with(&["a", "b"]);
    let before = JobMac::list(&store, None, 0).unwrap();
    assert_eq!(JobMac::delete(&mut store, JobId(9)), Ok(true));
    assert_eq!(JobMac::list(&store, None, 0).unwrap(), before);
    assert_eq!(JobMac::delete(&mut MemoryStore::new(), JobId(1)), Ok(true));
}

#[test]
fn update_writes_every_field_and_keeps_the_identifier() {
    let mut store = store_with(&["a", "b", "c"]);
    let revised = Job {
        id: Some(JobId(2)),
        job_name: "Pilot".to_string(),
        company_id: CompanyId(11),
        location: "Da Nang".to_string(),
        quantity: 1,
        salary: -5,
        job_level: "Lead".to_string(),
        description: "Fly".to_string(),
        is_delete: true,
    };
    assert_eq!(JobMac::update(&mut store, revised.clone()), Ok(revised.clone()));
    assert_eq!(JobMac::get_by_id(&store, JobId(2)), Ok(revised));
    assert_eq!(names(&JobMac::list(&store, None, 0).unwrap()), ["a", "Pilot", "c"]);
}

#[test]
fn update_can_take_the_deletion_flag_back() {
    let mut store = store_with(&["a"]);
    JobMac::delete(&mut store, JobId(1)).unwrap();
    let mut job = JobMac::get_by_id(&store, JobId(1)).unwrap();
    assert!(job.is_delete);
    job.is_delete = false;
    assert_eq!(JobMac::update(&mut store, job.clone()), Ok(job));
    assert!(!JobMac::get_by_id(&store, JobId(1)).unwrap().is_delete);
}

#[test]
fn update_of_an_unknown_job_is_row_not_found_and_changes_nothing() {
    let mut store = store_with(&["a", "b"]);
    let before = JobMac::list(&store, None, 0).unwrap();
    let mut stranger = before[0].clone();
    stranger.id = Some(JobId(5));
    stranger.job_name = "x".to_string();
    assert_eq!(
        JobMac::update(&mut store, stranger.clone()),
        Err(Error::DatabaseQueryError(DbError::RowNotFound))
    );
    stranger.id = None;
    assert_eq!(
        JobMac::update(&mut store, stranger),
        Err(Error::DatabaseQueryError(DbError::RowNotFound))
    );
    assert_eq!(JobMac::list(&store, None, 0).unwrap(), before);
}

#[test]
fn create_fails_once_the_identifiers_have_run_out() {
    let mut store = MemoryStore::starting_after(i32::MAX - 1, 0).unwrap();
    let last = JobMac::create(&mut store, posting("last", 1)).unwrap();
    assert_eq!(last.id, Some(JobId(i32::MAX)));
    assert_eq!(
        JobMac::create(&mut store, posting("late", 1)),
        Err(rejected(SEQUENCE_EXHAUSTED, SEQUENCE_EXHAUSTED_MESSAGE))
    );
    assert_eq!(names(&JobMac::list(&store, None, 0).unwrap()), ["last"]);
    assert_eq!(SEQUENCE_EXHAUSTED, "2200H");
}

#[test]
fn a_store_starts_after_the_identifiers_it_is_given() {
    let mut store = MemoryStore::starting_after(41, 0).unwrap();
    assert_eq!(JobMac::create(&mut store, posting("a", 1)).unwrap().id, Some(JobId(42)));
    assert!(MemoryStore::starting_after(-1, 0).is_none());
    assert!(MemoryStore::starting_after(0, -1).is_none());
    assert!(MemoryStore::starting_after(0, 0).is_some());
    assert!(MemoryStore::starting_after(i32::MAX, i32::MAX).is_some());
}
