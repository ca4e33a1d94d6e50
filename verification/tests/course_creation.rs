use course_catalog::courses::CourseRecord;
use course_catalog::courses::CreateCourseRequest;
use course_catalog::courses::commit_course_creation;
use course_catalog::courses::course_write_result;
use course_catalog::courses::plan_course_creation;
use course_catalog::errors::CatalogError;
use course_catalog::errors::WriteError;

fn request(start: &str, end: &str) -> CreateCourseRequest {
    CreateCourseRequest {
        course_name: "Woodworking".to_string(),
        course_description: "An introduction".to_string(),
        start_date: start.to_string(),
        end_date: end.to_string(),
        csn_entitled: true,
        max_seats: 12,
        image: "wood.png".to_string(),
        days: "Mon, Wed".to_string(),
        hours: "18-20".to_string(),
        price: 1500,
        sessions: 8,
        visible: true,
        city_ids: vec![100, 101],
        subcategory_ids: vec![200],
    }
}

#[test]
fn bad_end_date_is_a_parse_error() {
    // A malformed end date fails the request; no course row is minted.
    let req = request("2024-01-01T00:00:00Z", "not-a-date");
    assert_eq!(
        plan_course_creation(&req, false).unwrap_err(),
        CatalogError::BadEndDate
    );
}

#[test]
fn bad_start_date_is_a_parse_error() {
    let req = request("never", "2024-01-01T00:00:00Z");
    assert_eq!(
        plan_course_creation(&req, false).unwrap_err(),
        CatalogError::BadStartDate
    );
}

#[test]
fn taken_name_refused_before_dates() {
    let req = request("not-a-date", "not-a-date");
    assert_eq!(
        plan_course_creation(&req, true).unwrap_err(),
        CatalogError::DuplicateName
    );
}

#[test]
fn negative_capacity_refused() {
    let mut req = request("2024-01-01T00:00:00Z", "2024-02-01T00:00:00Z");
    req.max_seats = -1;
    assert_eq!(
        plan_course_creation(&req, false).unwrap_err(),
        CatalogError::NegativeSeats
    );
}

#[test]
fn end_before_start_refused() {
    let req = request("2024-02-01T00:00:00Z", "2024-01-01T00:00:00Z");
    assert_eq!(
        plan_course_creation(&req, false).unwrap_err(),
        CatalogError::DatesOutOfOrder
    );
}

#[test]
fn valid_request_resolves_the_instants() {
    let req = request("2024-01-01T00:00:00Z", "2024-02-01T12:30:00+02:00");
    let course = plan_course_creation(&req, false).expect("valid request");
    let start = chrono::DateTime::parse_from_rfc3339("2024-01-01T00:00:00Z")
        .unwrap()
        .timestamp_micros();
    let end = chrono::DateTime::parse_from_rfc3339("2024-02-01T12:30:00+02:00")
        .unwrap()
        .timestamp_micros();
    assert_eq!(course.start_date_micros, start);
    assert_eq!(course.end_date_micros, end);
    assert_eq!(course.course_name, "Woodworking");
    assert_eq!(course.max_seats, 12);
    assert!(course.end_date_micros >= course.start_date_micros);
}

#[test]
fn write_commits_when_every_insert_lands() {
    assert_eq!(
        course_write_result(1, &vec![Some(1), Some(1)], &vec![Some(1)]),
        Ok(())
    );
}

#[test]
fn write_rolls_back_on_silent_course_insert() {
    assert_eq!(
        course_write_result(0, &vec![], &vec![]),
        Err(WriteError::NoRowsWritten)
    );
}

#[test]
fn write_rolls_back_when_all_links_are_noops() {
    assert_eq!(
        course_write_result(1, &vec![Some(0), Some(0)], &vec![]),
        Err(WriteError::NoRowsWritten)
    );
    assert_eq!(
        course_write_result(1, &vec![], &vec![Some(0)]),
        Err(WriteError::NoRowsWritten)
    );
}

#[test]
fn write_tolerates_partial_link_noops() {
    // One landed link among no-ops is enough for the batch, as the
    // transaction only refuses a batch that did nothing at all.
    assert_eq!(
        course_write_result(1, &vec![Some(1), Some(0)], &vec![]),
        Ok(())
    );
}

#[test]
fn write_aborts_on_faulted_link_insert() {
    assert_eq!(
        course_write_result(1, &vec![Some(1), None], &vec![]),
        Err(WriteError::StoreFault)
    );
}

#[test]
fn failed_second_city_link_leaves_no_course_row() {
    // Two city links, the second faulting: after the error the course row
    // itself must not exist.
    let req = request("2024-01-01T00:00:00Z", "2024-02-01T00:00:00Z");
    let course = plan_course_creation(&req, false).expect("valid request");
    let course_id = course.id;
    let mut committed: Vec<CourseRecord> = Vec::new();
    let outcome = commit_course_creation(
        &mut committed,
        course,
        1,
        &vec![Some(1), None],
        &vec![],
    );
    assert_eq!(outcome, Err(WriteError::StoreFault));
    assert!(committed.iter().all(|c| c.id != course_id));
    assert!(committed.is_empty());
}

#[test]
fn clean_transaction_commits_the_course_row() {
    let req = request("2024-01-01T00:00:00Z", "2024-02-01T00:00:00Z");
    let course = plan_course_creation(&req, false).expect("valid request");
    let course_id = course.id;
    let mut committed: Vec<CourseRecord> = Vec::new();
    let outcome = commit_course_creation(
        &mut committed,
        course,
        1,
        &vec![Some(1), Some(1)],
        &vec![Some(1)],
    );
    assert_eq!(outcome, Ok(()));
    assert_eq!(committed.len(), 1);
    assert_eq!(committed[0].id, course_id);
}
