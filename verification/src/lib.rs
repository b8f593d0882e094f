//! Prepares the text of an announcement email from an inheritable
//! configuration profile and, optionally, a record selected from a data file
//! by the date of the next occurrence of a weekday.

pub mod calendar;
pub mod config;
pub mod error;
pub mod mail;
pub mod prepmail;
pub mod profile;
pub mod records;
pub mod store;
pub mod template;
