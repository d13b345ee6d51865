//! Report generation for sparse linear-solver benchmarks: Markdown and LaTeX
//! comparison tables, matrix listings and statistics rows, built from plain
//! records of the solver results and of the matrices' metadata.

pub mod all_results;
pub mod constants;
pub mod external;
pub mod latex;
pub mod markdown;
pub mod matrix_info;
pub mod matrix_table_md;
pub mod sequences;
pub mod text;
pub mod util;

pub use all_results::{AllResults, Genie, RunStats, TimeSummary};
pub use constants::{BIG_TIME_MIN, NANOSECONDS_PER_MINUTE, TIME_DIGITS};
pub use latex::call_latexmk::latex_document;
pub use latex::performance_table::performance_table;
pub use markdown::performance_table_md::performance_table_md;
pub use matrix_info::{MatricesInfo, MatrixInfo};
pub use matrix_table_md::matrix_table_md;
pub use util::{
    driver_version_from_output, get_description_for_matching_algorithm, get_key_for_matching_algorithm,
    get_matrix_list_latex, get_matrix_list_md,
};

use vstd::prelude::*;

verus! {

/// Errors are reported as static messages.
pub type StrError = &'static str;

} // verus!
