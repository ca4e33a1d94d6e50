//! Verified core of a course-catalog and booking service.
//!
//! The service around it does the storage and HTTP work; this crate holds the
//! decisions and transformations that are worth proving: seat-capacity and
//! duplicate-booking enforcement, assembly of two-level catalog trees from
//! flat store rows, course-creation validation, and the commit/rollback
//! decisions of the multi-row write paths.
pub mod booking;
pub mod catalog;
pub mod courses;
pub mod dates;
pub mod errors;
pub mod facade;
pub mod hierarchy;
pub mod ids;
