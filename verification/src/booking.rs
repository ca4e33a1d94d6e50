//! The booking coordinator.
//!
//! A booking request may proceed only when the course still has a free seat
//! and the person has not already booked it.  Two pieces enforce that here:
//! the pre-check over the store's per-course booking view, mirroring the
//! user-facing rejections, and [`SeatLedger`], the serialization point: the
//! per-course committed state on which the check and the write are one
//! atomic step, so that concurrent requests can never overbook.
use vstd::prelude::*;

use crate::errors::WriteError;
use crate::ids::fresh_id;
use crate::dates::now_micros;

verus! {

/// Why a booking request is refused.
#[derive(Clone, Copy, Debug, PartialEq, Eq, Structural)]
pub enum BookingRejection {
    /// Every seat of the course is already booked.
    CourseFull,
    /// The same person already holds a booking for this course.
    AlreadyBooked,
}

/// The store's derived per-course booking view: capacity, current count and
/// the personal numbers already booked, padded with `None` by the join.
pub struct CourseBookingInfo {
    pub course_id: u128,
    pub max_seats: i32,
    pub booking_count: i64,
    pub personal_numbers: Vec<Option<i64>>,
}

/// Whether a personal number stands, non-null, in the view's list.
pub open spec fn has_number(xs: Seq<Option<i64>>, pn: i64) -> bool {
    exists|i: int| 0 <= i < xs.len() && xs[i] == Some(pn)
}

/// The rejection, if any, that the booking view forces: full when the count
/// has reached the capacity (an exact integer comparison), else a duplicate
/// when the person's number is already present among the non-null entries.
pub open spec fn spec_precheck(info: CourseBookingInfo, pn: i64) -> Option<BookingRejection> {
    if info.booking_count >= info.max_seats {
        Some(BookingRejection::CourseFull)
    } else if has_number(info.personal_numbers@, pn) {
        Some(BookingRejection::AlreadyBooked)
    } else {
        None
    }
}

fn has_personal_number(xs: &Vec<Option<i64>>, pn: i64) -> (r: bool)
    ensures
        r == has_number(xs@, pn),
{
    let mut i: usize = 0;
    while i < xs.len()
        invariant
            i <= xs@.len(),
            forall|k: int| 0 <= k < i ==> xs@[k] != Some(pn),
        decreases xs@.len() - i,
    {
        match xs[i] {
            Some(p) => {
                if p == pn {
                    return true;
                }
            },
            None => {},
        }
        i = i + 1;
    }
    false
}

/// Evaluate the two booking rules against the store's view, exactly as the
/// read-then-check protocol does before the write is attempted.
pub fn booking_precheck(info: &CourseBookingInfo, personal_number: i64) -> (r: Option<
    BookingRejection,
>)
    ensures
        r == spec_precheck(*info, personal_number),
{
    if info.booking_count >= info.max_seats as i64 {
        Some(BookingRejection::CourseFull)
    } else if has_personal_number(&info.personal_numbers, personal_number) {
        Some(BookingRejection::AlreadyBooked)
    } else {
        None
    }
}

/// Everything the atomic write needs for one admitted booking: the freshly
/// minted booker and booking identifiers, the person's number as snapshotted
/// at admission, and the booking instant.  `paid` is frozen at `false`.
#[derive(Debug)]
pub struct BookingPlan {
    pub course_id: u128,
    pub user_id: u128,
    pub booking_id: u128,
    pub personal_number: i64,
    pub booked_at_micros: i64,
    pub paid: bool,
}

/// Decide a booking request against the store's view and, when it may
/// proceed, mint the identifiers and timestamp for the atomic write.
pub fn plan_booking(info: &CourseBookingInfo, personal_number: i64) -> (r: Result<
    BookingPlan,
    BookingRejection,
>)
    ensures
        match spec_precheck(*info, personal_number) {
            Some(rej) => r == Err::<BookingPlan, BookingRejection>(rej),
            None => r matches Ok(plan) && plan.course_id == info.course_id
                && plan.personal_number == personal_number && plan.paid == false,
        },
{
    match booking_precheck(info, personal_number) {
        Some(rej) => Err(rej),
        None => Ok(
            BookingPlan {
                course_id: info.course_id,
                user_id: fresh_id(),
                booking_id: fresh_id(),
                personal_number,
                booked_at_micros: now_micros(),
                paid: false,
            },
        ),
    }
}

/// How the two-insert booking transaction ends, given what each insert
/// reported: `None` for a store fault, `Some(n)` for `n` affected rows.  Any
/// fault, or any insert affecting zero rows, rolls the whole write back.
pub open spec fn spec_booking_write(user_rows: Option<u64>, booking_rows: Option<u64>) -> Result<
    (),
    WriteError,
> {
    match user_rows {
        None => Err(WriteError::StoreFault),
        Some(u) => if u == 0 {
            Err(WriteError::NoRowsWritten)
        } else {
            match booking_rows {
                None => Err(WriteError::StoreFault),
                Some(b) => if b == 0 {
                    Err(WriteError::NoRowsWritten)
                } else {
                    Ok(())
                },
            }
        },
    }
}

/// Decide commit or rollback once the booker insert and the booking insert
/// have reported.  `Ok` is returned exactly when both inserts succeeded and
/// each affected at least one row; only then may the transaction commit.
pub fn booking_write_result(user_rows: Option<u64>, booking_rows: Option<u64>) -> (r: Result<
    (),
    WriteError,
>)
    ensures
        r == spec_booking_write(user_rows, booking_rows),
{
    match user_rows {
        None => Err(WriteError::StoreFault),
        Some(u) => {
            if u == 0 {
                Err(WriteError::NoRowsWritten)
            } else {
                match booking_rows {
                    None => Err(WriteError::StoreFault),
                    Some(b) => {
                        if b == 0 {
                            Err(WriteError::NoRowsWritten)
                        } else {
                            Ok(())
                        }
                    },
                }
            }
        },
    }
}

/// The committed booking state of one course: its capacity and the personal
/// numbers of everyone booked.  This is the state the storage layer must
/// serialize writers on (a row lock or conditional update); checking and
/// booking are a single step here, so no interleaving can overbook.
pub struct SeatLedger {
    pub max_seats: u32,
    pub booked: Vec<i64>,
}

/// A well-formed ledger: no person booked twice, never above capacity.
pub open spec fn ledger_wf(booked: Seq<i64>, max_seats: u32) -> bool {
    &&& booked.no_duplicates()
    &&& booked.len() <= max_seats
}

/// The rejection, if any, that one atomic reservation step returns.
pub open spec fn spec_reserve(booked: Seq<i64>, max_seats: u32, pn: i64) -> Option<
    BookingRejection,
> {
    if booked.len() >= max_seats {
        Some(BookingRejection::CourseFull)
    } else if booked.contains(pn) {
        Some(BookingRejection::AlreadyBooked)
    } else {
        None
    }
}

/// The committed state after one atomic reservation step: one new booking
/// when the step admits the request, untouched otherwise.
pub open spec fn spec_booked_after(booked: Seq<i64>, max_seats: u32, pn: i64) -> Seq<i64> {
    if spec_reserve(booked, max_seats, pn) is None {
        booked.push(pn)
    } else {
        booked
    }
}

impl SeatLedger {
    pub open spec fn wf(self) -> bool {
        ledger_wf(self.booked@, self.max_seats)
    }

    /// Atomically check capacity and duplication and, if both pass, commit
    /// the booking.  This is the one step concurrent requests serialize on.
    pub fn try_book(&mut self, personal_number: i64) -> (r: Option<BookingRejection>)
        requires
            old(self).wf(),
        ensures
            final(self).wf(),
            final(self).max_seats == old(self).max_seats,
            r == spec_reserve(old(self).booked@, old(self).max_seats, personal_number),
            final(self).booked@ == spec_booked_after(
                old(self).booked@,
                old(self).max_seats,
                personal_number,
            ),
    {
        if self.booked.len() as u64 >= self.max_seats as u64 {
            Some(BookingRejection::CourseFull)
        } else if contains_i64(&self.booked, personal_number) {
            Some(BookingRejection::AlreadyBooked)
        } else {
            proof {
                lemma_push_keeps_distinct(self.booked@, personal_number);
            }
            self.booked.push(personal_number);
            None
        }
    }
}

fn contains_i64(xs: &Vec<i64>, x: i64) -> (r: bool)
    ensures
        r == xs@.contains(x),
{
    let mut i: usize = 0;
    while i < xs.len()
        invariant
            i <= xs@.len(),
            forall|k: int| 0 <= k < i ==> xs@[k] != x,
        decreases xs@.len() - i,
    {
        if xs[i] == x {
            return true;
        }
        i = i + 1;
    }
    false
}

proof fn lemma_push_keeps_distinct(s: Seq<i64>, x: i64)
    requires
        s.no_duplicates(),
        !s.contains(x),
    ensures
        s.push(x).no_duplicates(),
{
    let t = s.push(x);
    assert forall|i: int, j: int|
        0 <= i < t.len() && 0 <= j < t.len() && i != j implies t[i] != t[j] by {
        if i < s.len() && j < s.len() {
            assert(s[i] != s[j]);
        } else if i < s.len() {
            assert(t[j] == x);
            assert(s[i] != x) by {
                assert(s.contains(x) <==> exists|k: int| 0 <= k < s.len() && s[k] == x);
            }
        } else {
            assert(t[i] == x);
            assert(s[j] != x) by {
                assert(s.contains(x) <==> exists|k: int| 0 <= k < s.len() && s[k] == x);
            }
        }
    }
}

/// The committed state after a whole run of reservation steps, one request
/// at a time, in arrival order.
pub open spec fn spec_booked_after_all(booked: Seq<i64>, max_seats: u32, requests: Seq<i64>) -> Seq<
    i64,
>
    decreases requests.len(),
{
    if requests.len() == 0 {
        booked
    } else {
        spec_booked_after_all(
            spec_booked_after(booked, max_seats, requests[0]),
            max_seats,
            requests.drop_first(),
        )
    }
}

/// Law: however many reservation requests arrive, and in whatever order the
/// serialization point admits them, the committed bookings never exceed the
/// seat capacity and never hold the same person twice.
pub proof fn lemma_capacity_never_exceeded(booked: Seq<i64>, max_seats: u32, requests: Seq<i64>)
    requires
        ledger_wf(booked, max_seats),
    ensures
        ledger_wf(spec_booked_after_all(booked, max_seats, requests), max_seats),
    decreases requests.len(),
{
    if requests.len() > 0 {
        let next = spec_booked_after(booked, max_seats, requests[0]);
        if spec_reserve(booked, max_seats, requests[0]) is None {
            lemma_push_keeps_distinct(booked, requests[0]);
        }
        lemma_capacity_never_exceeded(next, max_seats, requests.drop_first());
    }
}

/// Law: while seats remain, distinct newcomers are all admitted: a batch of
/// pairwise-distinct, not-yet-booked requests that fits the free seats
/// commits every one of its bookings, in arrival order.
pub proof fn lemma_free_seats_admit_distinct(booked: Seq<i64>, max_seats: u32, requests: Seq<i64>)
    requires
        ledger_wf(booked, max_seats),
        requests.no_duplicates(),
        forall|k: int| 0 <= k < requests.len() ==> !booked.contains(#[trigger] requests[k]),
        booked.len() + requests.len() <= max_seats,
    ensures
        spec_booked_after_all(booked, max_seats, requests) == booked + requests,
    decreases requests.len(),
{
    if requests.len() == 0 {
        assert(booked + requests =~= booked);
    } else {
        let first = requests[0];
        let rest = requests.drop_first();
        assert(!booked.contains(first));
        assert(spec_reserve(booked, max_seats, first) is None);
        let next = booked.push(first);
        lemma_push_keeps_distinct(booked, first);
        assert forall|k: int| 0 <= k < rest.len() implies !next.contains(#[trigger] rest[k]) by {
            assert(rest[k] == requests[k + 1]);
            assert(!booked.contains(requests[k + 1]));
            assert(requests[k + 1] != first) by {
                assert(requests[0] != requests[k + 1]);
            }
            assert(forall|j: int| 0 <= j < next.len() ==> next[j] != rest[k]);
        }
        lemma_free_seats_admit_distinct(next, max_seats, rest);
        assert(next + rest =~= booked + requests);
    }
}

/// Law: a request that arrives after a course has filled is always refused
/// as full and commits nothing.
pub proof fn lemma_full_course_rejects(booked: Seq<i64>, max_seats: u32, pn: i64)
    requires
        booked.len() >= max_seats,
    ensures
        spec_reserve(booked, max_seats, pn) == Some(BookingRejection::CourseFull),
        spec_booked_after(booked, max_seats, pn) == booked,
{
}

/// Law: a request whose personal number is already committed for the course
/// is never admitted and never adds a second booking row.
pub proof fn lemma_duplicate_never_booked_twice(booked: Seq<i64>, max_seats: u32, pn: i64)
    requires
        booked.contains(pn),
    ensures
        spec_reserve(booked, max_seats, pn) is Some,
        spec_booked_after(booked, max_seats, pn) == booked,
{
}

} // verus!
