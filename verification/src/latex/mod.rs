//! LaTeX reports.

pub mod call_latexmk;
pub mod performance_table;
