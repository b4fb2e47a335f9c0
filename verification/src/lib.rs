//! Loan lifecycle tracking and recovery recommendations.
//!
//! A loan is opened with a schedule of installment dates, moves between
//! statuses as repayments arrive and due dates pass, and is scored for default
//! risk so that a recovery action can be recommended.
//!
//! The rules are stated as specifications over mathematical models of the
//! entities, and every executable function is proved against them with
//! Verus.  Reading the clock, drawing identifiers and converting values to
//! and from text are left to `chrono`, `uuid` and `serde_json`; the few
//! functions that call them say what is taken on trust.  Talking to a
//! database or to the network is left to the caller.

pub mod api;
pub mod cli;
pub mod clock;
pub mod config;
pub mod db;
pub mod error;
pub mod ident;
pub mod loan;
pub mod models;
pub mod number;
pub mod recovery;
pub mod text;
pub mod user;
