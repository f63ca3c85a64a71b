//! Command-line helpers of a file-sharing client: byte sizes for humans,
//! yes/no answers, error reports with remedial hints, and the decisions
//! behind every interactive prompt.

pub mod text;
pub mod bytes;
pub mod matcher;
pub mod hints;
pub mod answer;
pub mod prompt;
pub mod report;
pub mod style;
