//! Local reproduction of an automated grading run: preparing the build
//! context, rendering the run specification, driving the sandbox run as a
//! state machine, and reading back the structured result it leaves behind.

pub mod docker;
pub mod error;
pub mod gradescope;
pub mod ingest;
pub mod json;
pub mod number;
pub mod results;
pub mod runspec;
pub mod score;
pub mod text;
pub mod workspace;
