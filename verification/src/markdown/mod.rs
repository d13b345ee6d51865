//! Markdown reports.

pub mod performance_table_md;
