//! A quote-publishing bot, without the wires: every decision the bot takes
//! between two pieces of outside work is a function here, from plain values
//! to plain values, with its contract.
//!
//! * [`parser`] turns the delimited quote file into quotes and store writes.
//! * [`cassandra`] holds the data model and plans every store statement.
//! * [`max_payne`] builds the posting request, classifies what came back and
//!   plans the log entry for it.
//! * [`cycle`] strings these together: one publishing cycle, step by step.
//! * [`text`], [`json`], [`records`], [`chance`] and [`error`] are the
//!   helpers under them.

pub mod error;
pub mod text;
pub mod chance;
pub mod json;
pub mod records;
pub mod cassandra;
pub mod max_payne;
pub mod cycle;
pub mod parser;
