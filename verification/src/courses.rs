//! The course-addition coordinator.
//!
//! Creating a course validates the request (dates parse, capacity and date
//! order respect the course invariant, the name is not taken), then writes
//! the course row and one bridge row per supplied city and subcategory, all
//! in one transaction: either every row commits or none does.
use vstd::prelude::*;

use crate::dates::parse_rfc3339_micros;
use crate::dates::rfc3339_micros_of;
use crate::errors::CatalogError;
use crate::errors::WriteError;
use crate::ids::fresh_id;

verus! {

/// A course as stored: identifier, display fields, resolved timestamps and
/// capacity.  Invariant: the capacity is not negative and the end does not
/// precede the start.
#[derive(Debug)]
pub struct CourseRecord {
    pub id: u128,
    pub course_name: String,
    pub course_description: String,
    pub start_date_micros: i64,
    pub end_date_micros: i64,
    pub csn_entitled: bool,
    pub max_seats: i32,
    pub image: String,
    pub days: String,
    pub hours: String,
    pub price: i32,
    pub sessions: i32,
    pub visible: bool,
}

impl CourseRecord {
    pub open spec fn wf(self) -> bool {
        &&& self.max_seats >= 0
        &&& self.end_date_micros >= self.start_date_micros
    }
}

/// A request to create a course: the course fields with the dates still as
/// RFC 3339 texts, plus the cities and subcategories to link it to.
pub struct CreateCourseRequest {
    pub course_name: String,
    pub course_description: String,
    pub start_date: String,
    pub end_date: String,
    pub csn_entitled: bool,
    pub max_seats: i32,
    pub image: String,
    pub days: String,
    pub hours: String,
    pub price: i32,
    pub sessions: i32,
    pub visible: bool,
    pub city_ids: Vec<u128>,
    pub subcategory_ids: Vec<u128>,
}

/// How validation decides: a taken name is refused first, then each date
/// must parse, then the course invariant must hold.  `Ok` carries the two
/// resolved instants, and comes exactly when nothing was refused.
pub open spec fn spec_course_validation(req: CreateCourseRequest, name_taken: bool) -> Result<
    (i64, i64),
    CatalogError,
> {
    if name_taken {
        Err(CatalogError::DuplicateName)
    } else {
        match rfc3339_micros_of(req.start_date@) {
            None => Err(CatalogError::BadStartDate),
            Some(start) => match rfc3339_micros_of(req.end_date@) {
                None => Err(CatalogError::BadEndDate),
                Some(end) => if req.max_seats < 0 {
                    Err(CatalogError::NegativeSeats)
                } else if end < start {
                    Err(CatalogError::DatesOutOfOrder)
                } else {
                    Ok((start, end))
                },
            },
        }
    }
}

/// Validate a course-creation request and, when it passes, mint the course
/// row to insert: the request's fields, the resolved instants, and a fresh
/// identifier.  The caller reports whether the name is already taken.
pub fn plan_course_creation(req: &CreateCourseRequest, name_taken: bool) -> (r: Result<
    CourseRecord,
    CatalogError,
>)
    ensures
        match spec_course_validation(*req, name_taken) {
            Err(e) => r == Err::<CourseRecord, CatalogError>(e),
            Ok(dates) => r matches Ok(c) && c.wf() && c.course_name == req.course_name
                && c.course_description == req.course_description && c.start_date_micros == dates.0
                && c.end_date_micros == dates.1 && c.csn_entitled == req.csn_entitled
                && c.max_seats == req.max_seats && c.image == req.image && c.days == req.days
                && c.hours == req.hours && c.price == req.price && c.sessions == req.sessions
                && c.visible == req.visible,
        },
{
    if name_taken {
        return Err(CatalogError::DuplicateName);
    }
    let start = match parse_rfc3339_micros(req.start_date.as_str()) {
        Some(s) => s,
        None => {
            return Err(CatalogError::BadStartDate);
        },
    };
    let end = match parse_rfc3339_micros(req.end_date.as_str()) {
        Some(e) => e,
        None => {
            return Err(CatalogError::BadEndDate);
        },
    };
    if req.max_seats < 0 {
        return Err(CatalogError::NegativeSeats);
    }
    if end < start {
        return Err(CatalogError::DatesOutOfOrder);
    }
    Ok(
        CourseRecord {
            id: fresh_id(),
            course_name: req.course_name.clone(),
            course_description: req.course_description.clone(),
            start_date_micros: start,
            end_date_micros: end,
            csn_entitled: req.csn_entitled,
            max_seats: req.max_seats,
            image: req.image.clone(),
            days: req.days.clone(),
            hours: req.hours.clone(),
            price: req.price,
            sessions: req.sessions,
            visible: req.visible,
        },
    )
}

/// Whether every insert of a batch reported zero affected rows.
pub open spec fn all_zero(rows: Seq<Option<u64>>) -> bool {
    forall|i: int| 0 <= i < rows.len() ==> rows[i] == Some(0u64)
}

/// Whether some insert of a batch failed outright at the store.
pub open spec fn any_fault(rows: Seq<Option<u64>>) -> bool {
    exists|i: int| 0 <= i < rows.len() && rows[i] is None
}

/// How the course-creation transaction ends, given what each insert
/// reported: `None` for a store fault, `Some(n)` for `n` affected rows.
/// The course insert must affect a row; a faulting bridge insert aborts the
/// write; a non-empty batch of bridge inserts that all turned out to be
/// no-ops rolls it back too.  Only `Ok` lets the transaction commit.
pub open spec fn spec_course_write(
    course_rows: u64,
    city_rows: Seq<Option<u64>>,
    subcategory_rows: Seq<Option<u64>>,
) -> Result<(), WriteError> {
    if course_rows == 0 {
        Err(WriteError::NoRowsWritten)
    } else if any_fault(city_rows) {
        Err(WriteError::StoreFault)
    } else if city_rows.len() > 0 && all_zero(city_rows) {
        Err(WriteError::NoRowsWritten)
    } else if any_fault(subcategory_rows) {
        Err(WriteError::StoreFault)
    } else if subcategory_rows.len() > 0 && all_zero(subcategory_rows) {
        Err(WriteError::NoRowsWritten)
    } else {
        Ok(())
    }
}

fn rows_fault(rows: &Vec<Option<u64>>) -> (r: bool)
    ensures
        r == any_fault(rows@),
{
    let mut i: usize = 0;
    while i < rows.len()
        invariant
            i <= rows@.len(),
            forall|k: int| 0 <= k < i ==> rows@[k] is Some,
        decreases rows@.len() - i,
    {
        match rows[i] {
            None => {
                return true;
            },
            Some(_) => {},
        }
        i = i + 1;
    }
    false
}

fn rows_all_zero(rows: &Vec<Option<u64>>) -> (r: bool)
    ensures
        r == all_zero(rows@),
{
    let mut i: usize = 0;
    while i < rows.len()
        invariant
            i <= rows@.len(),
            forall|k: int| 0 <= k < i ==> rows@[k] == Some(0u64),
        decreases rows@.len() - i,
    {
        match rows[i] {
            Some(n) => {
                if n != 0 {
                    return false;
                }
            },
            None => {
                return false;
            },
        }
        i = i + 1;
    }
    true
}

/// Decide commit or rollback once the course insert and the per-city and
/// per-subcategory bridge inserts have reported.
pub fn course_write_result(
    course_rows: u64,
    city_rows: &Vec<Option<u64>>,
    subcategory_rows: &Vec<Option<u64>>,
) -> (r: Result<(), WriteError>)
    ensures
        r == spec_course_write(course_rows, city_rows@, subcategory_rows@),
{
    if course_rows == 0 {
        return Err(WriteError::NoRowsWritten);
    }
    if rows_fault(city_rows) {
        return Err(WriteError::StoreFault);
    }
    if city_rows.len() > 0 && rows_all_zero(city_rows) {
        return Err(WriteError::NoRowsWritten);
    }
    if rows_fault(subcategory_rows) {
        return Err(WriteError::StoreFault);
    }
    if subcategory_rows.len() > 0 && rows_all_zero(subcategory_rows) {
        return Err(WriteError::NoRowsWritten);
    }
    Ok(())
}

/// Apply one course-creation transaction to the committed course list: the
/// course appears exactly when every insert went through, and on any failure
/// nothing of the transaction is visible, the course row included.  The
/// storage layer enacts the same decision through its transaction scope.
pub fn commit_course_creation(
    courses: &mut Vec<CourseRecord>,
    course: CourseRecord,
    course_rows: u64,
    city_rows: &Vec<Option<u64>>,
    subcategory_rows: &Vec<Option<u64>>,
) -> (r: Result<(), WriteError>)
    ensures
        r == spec_course_write(course_rows, city_rows@, subcategory_rows@),
        r is Ok ==> final(courses)@ == old(courses)@.push(course),
        r is Err ==> final(courses)@ == old(courses)@,
{
    let decision = course_write_result(course_rows, city_rows, subcategory_rows);
    match decision {
        Ok(()) => {
            courses.push(course);
            Ok(())
        },
        Err(e) => Err(e),
    }
}

} // verus!
