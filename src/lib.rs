//! A recurring-billing engine: subscription plans, enrollments and the
//! payment schedule, as a verified state machine over plain records.
pub mod key;
pub mod error;
pub mod address;
pub mod events;
pub mod schedule;
pub mod guard;
pub mod plan;
pub mod subscription;
