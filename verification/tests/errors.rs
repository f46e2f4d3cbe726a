use job_board::error::{parse_decimal, DbError, Diagnostics, Error};

fn database(code: Option<&str>, message: &str, constraint: Option<&str>) -> DbError {
    DbError::Database {
        code: code.map(|c| c.to_string()),
        message: message.to_string(),
        constraint: constraint.map(|c| c.to_string()),
    }
}

const NOTHING: Diagnostics = Diagnostics { code: None, db_message: None, constraint: None };

#[test]
fn parse_decimal_reads_plain_numbers() {
    assert_eq!(parse_decimal("23505"), Some(23505));
    assert_eq!(parse_decimal("0"), Some(0));
    assert_eq!(parse_decimal("7"), Some(7));
    assert_eq!(parse_decimal("00000"), Some(0));
    assert_eq!(parse_decimal("007"), Some(7));
}

#[test]
fn parse_decimal_takes_one_sign() {
    assert_eq!(parse_decimal("+7"), Some(7));
    assert_eq!(parse_decimal("-7"), Some(-7));
    assert_eq!(parse_decimal("-0"), Some(0));
    assert_eq!(parse_decimal("+"), None);
    assert_eq!(parse_decimal("-"), None);
    assert_eq!(parse_decimal("--7"), None);
    assert_eq!(parse_decimal("+-7"), None);
    assert_eq!(parse_decimal("7-"), None);
}

#[test]
fn parse_decimal_stops_at_the_ends_of_i32() {
    assert_eq!(parse_decimal("2147483647"), Some(i32::MAX));
    assert_eq!(parse_decimal("+2147483647"), Some(i32::MAX));
    assert_eq!(parse_decimal("2147483648"), None);
    assert_eq!(parse_decimal("-2147483648"), Some(i32::MIN));
    assert_eq!(parse_decimal("-2147483649"), None);
    assert_eq!(parse_decimal("0000000000002147483647"), Some(i32::MAX));
    assert_eq!(parse_decimal("99999999999999999999999999999999999999"), None);
    assert_eq!(parse_decimal("-99999999999999999999999999999999999999"), None);
}

#[test]
fn parse_decimal_refuses_what_is_no_number() {
    assert_eq!(parse_decimal(""), None);
    assert_eq!(parse_decimal("42P01"), None);
    assert_eq!(parse_decimal("2200H"), None);
    assert_eq!(parse_decimal(" 7"), None);
    assert_eq!(parse_decimal("7 "), None);
    assert_eq!(parse_decimal("1_000"), None);
    assert_eq!(parse_decimal("1.5"), None);
    assert_eq!(parse_decimal("0x10"), None);
    assert_eq!(parse_decimal("٣"), None);
    assert_eq!(parse_decimal("12é"), None);
    assert_eq!(parse_decimal("99999999999x"), None);
}

#[test]
fn parse_decimal_agrees_with_the_standard_parser() {
    let samples = [
        "", "0", "1", "-1", "+1", "23505", "23P05", "2147483647", "2147483648", "-2147483648",
        "-2147483649", "+0", "-", "+", "++1", "1+", " 1", "1 ", "0001", "-0001", "9999999999",
        "12a", "a12", "é", "1é", "４２",
    ];
    for sample in samples {
        assert_eq!(parse_decimal(sample), sample.parse::<i32>().ok(), "{:?}", sample);
    }
}

#[test]
fn diagnostics_of_a_constraint_violation_has_all_three() {
    let failure = database(
        Some("23505"),
        "duplicate key value violates unique constraint \"resumes_pkey\"",
        Some("resumes_pkey"),
    );
    assert_eq!(
        failure.diagnostics(),
        Diagnostics {
            code: Some(23505),
            db_message: Some(
                "duplicate key value violates unique constraint \"resumes_pkey\"".to_string()
            ),
            constraint: Some("resumes_pkey".to_string()),
        }
    );
}

#[test]
fn diagnostics_leaves_out_what_the_database_did_not_say() {
    assert_eq!(
        database(Some("42P01"), "relation \"resumes\" does not exist", None).diagnostics(),
        Diagnostics {
            code: None,
            db_message: Some("relation \"resumes\" does not exist".to_string()),
            constraint: None,
        }
    );
    assert_eq!(
        database(None, "", None).diagnostics(),
        Diagnostics { code: None, db_message: Some(String::new()), constraint: None }
    );
    assert_eq!(
        database(None, "x", Some("c")).diagnostics(),
        Diagnostics { code: None, db_message: Some("x".to_string()), constraint: Some("c".to_string()) }
    );
}

#[test]
fn diagnostics_of_a_failure_outside_the_database_is_empty() {
    assert_eq!(DbError::RowNotFound.diagnostics(), NOTHING);
    assert_eq!(DbError::MultipleRows.diagnostics(), NOTHING);
    assert_eq!(DbError::Driver { message: "23505".to_string() }.diagnostics(), NOTHING);
}

#[test]
fn error_gives_its_cause_and_the_diagnostics_of_it() {
    let failure = database(Some("23503"), "violates foreign key constraint", Some("resumes_user_id_fkey"));
    let error = Error::DatabaseQueryError(failure.clone());
    assert_eq!(error.cause(), &failure);
    assert_eq!(error.diagnostics(), failure.diagnostics());
    assert_eq!(error.diagnostics().code, Some(23503));
    assert_eq!(Error::DatabaseQueryError(DbError::RowNotFound).cause(), &DbError::RowNotFound);
}
