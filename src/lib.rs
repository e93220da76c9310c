pub mod calendar;
pub mod merge;
pub mod models;
pub mod reconcile;
pub mod repo;
pub mod schedule;
