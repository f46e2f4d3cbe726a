use job_board::ids::{CompanyId, JobId};
use job_board::job::{JobActions, JobMac, NewJob};
use job_board::memory::MemoryStore;

fn engineer() -> NewJob {
    NewJob {
        job_name: "Engineer".to_string(),
        company_id: CompanyId(1),
        location: "Remote".to_string(),
        quantity: 2,
        salary: 90000,
        job_level: "Senior".to_string(),
        description: "Build things".to_string(),
    }
}

#[test]
fn created_job_is_deleted_softly_and_still_found() {
    let mut store = MemoryStore::new();

    let created = JobMac::create(&mut store, engineer()).unwrap();
    assert_eq!(created.id, Some(JobId(1)));
    assert_eq!(created.job_name, "Engineer");
    assert_eq!(created.company_id, CompanyId(1));
    assert_eq!(created.location, "Remote");
    assert_eq!(created.quantity, 2);
    assert_eq!(created.salary, 90000);
    assert_eq!(created.job_level, "Senior");
    assert_eq!(created.description, "Build things");
    assert!(!created.is_delete);

    let id = created.id.unwrap();
    assert_eq!(JobMac::delete(&mut store, id), Ok(true));

    let fetched = JobMac::get_by_id(&store, id).unwrap();
    assert!(fetched.is_delete);
    assert_eq!(fetched.id, Some(id));
    assert_eq!(fetched.job_name, "Engineer");
    assert_eq!(fetched.company_id, CompanyId(1));
    assert_eq!(fetched.location, "Remote");
    assert_eq!(fetched.quantity, 2);
    assert_eq!(fetched.salary, 90000);
    assert_eq!(fetched.job_level, "Senior");
    assert_eq!(fetched.description, "Build things");
}
