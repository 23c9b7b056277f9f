//! Rules for turning a course's enrollment and section counts into a
//! teaching-assistant allocation: course classification, the table of
//! allocation items, which of them apply to a course, and the special cases
//! that override the computed figure.
#![allow(non_camel_case_types)]

pub mod types;
pub mod text;
pub mod specialcases;
pub mod calculator;
pub mod configuration;
pub mod laws;
