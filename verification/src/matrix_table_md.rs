//! Markdown table of the matrices' metadata.

use crate::matrix_info::{MatricesInfo, MatrixInfo};
use crate::sequences::concat_n;
use crate::text::{
    decimal, group_thousands, matrix_short_name, owned, short_matrix_name, text_eq, to_grouped_decimal,
};
use vstd::prelude::*;

verus! {

/// The symmetry column of a matrix: `No`, `Yes*` when declared positive
/// definite, `Yes` otherwise.
pub open spec fn info_symmetry_text(m: MatrixInfo) -> Seq<char> {
    if m.symmetric@ == "No"@ {
        "No"@
    } else if (match m.positive_definite {
        Some(p) => p@ == "yes"@,
        None => false,
    }) {
        "Yes*"@
    } else {
        "Yes"@
    }
}

/// The row of one matrix; dashes when the metadata lack it.
pub open spec fn matrix_table_row(info: MatricesInfo, matrix: Seq<char>) -> Seq<char> {
    match info.lookup(matrix) {
        Some(m) => "| "@ + matrix_short_name(matrix) + " | "@ + group_thousands(decimal(m.num_rows as nat))
            + " | "@ + group_thousands(decimal(m.pattern_entries as nat)) + " | "@ + info_symmetry_text(m)
            + " |\n"@,
        None => "| "@ + matrix_short_name(matrix) + " | — | — | — |\n"@,
    }
}

/// The rows of the matrices, one by one.
pub open spec fn matrix_table_rows(info: MatricesInfo, matrices: Seq<&str>) -> spec_fn(int) -> Seq<char> {
    |i: int| matrix_table_row(info, matrices[i]@)
}

/// The header and alignment lines.
pub open spec fn matrix_table_header() -> Seq<char> {
    "| Matrix | Nrow | NNZ | Sym |\n"@ + "| --- | ---: | ---: | :-: |\n"@
}

/// Appends the row of one matrix.
fn push_matrix_row(buf: &mut String, info: &MatricesInfo, matrix: &str)
    ensures
        final(buf)@ == old(buf)@ + matrix_table_row(*info, matrix@),
{
    let mname = short_matrix_name(matrix);
    buf.append("| ");
    buf.append(mname.as_str());
    match info.get(matrix) {
        Some(m) => {
            let str_nrow = to_grouped_decimal(m.num_rows);
            let str_nnz = to_grouped_decimal(m.pattern_entries);
            let str_sym = if text_eq(m.symmetric.as_str(), "No") {
                "No"
            } else if match &m.positive_definite {
                Some(p) => text_eq(p.as_str(), "yes"),
                None => false,
            } {
                "Yes*"
            } else {
                "Yes"
            };
            buf.append(" | ");
            buf.append(str_nrow.as_str());
            buf.append(" | ");
            buf.append(str_nnz.as_str());
            buf.append(" | ");
            buf.append(str_sym);
            buf.append(" |\n");
        },
        None => {
            // matrix not in SuiteSparse (e.g. pres-cylin)
            buf.append(" | — | — | — |\n");
        },
    }
}

/// Generates a Markdown table with matrix metadata: name, rows, non-zeros
/// (pattern entries) and symmetry.
pub fn matrix_table_md(info: &MatricesInfo, matrices: &[&str]) -> (r: String)
    ensures
        r@ == matrix_table_header() + concat_n(matrix_table_rows(*info, matrices@), matrices@.len()),
{
    let mut buf = owned("| Matrix | Nrow | NNZ | Sym |\n");
    buf.append("| --- | ---: | ---: | :-: |\n");
    let n = matrices.len();
    let mut i: usize = 0;
    while i < n
        invariant
            i <= n,
            n == matrices@.len(),
            buf@ == matrix_table_header() + concat_n(matrix_table_rows(*info, matrices@), i as nat),
        decreases n - i,
    {
        push_matrix_row(&mut buf, info, matrices[i]);
        i = i + 1;
    }
    buf
}

/// The row of a matrix that the metadata hold gives its name, its number of
/// rows and its number of pattern entries (`pattern_entries`, not the count
/// of numerically non-zero values), both with thousands separators, and its
/// symmetry: `No`, `Yes*` when recorded as positive definite, `Yes`
/// otherwise; a matrix that the metadata lack gets dashes.
pub proof fn lemma_matrix_table_row_cells(info: MatricesInfo, matrix: Seq<char>)
    ensures
        info.lookup(matrix) matches Some(m) ==> matrix_table_row(info, matrix) == "| "@ + matrix_short_name(matrix)
            + " | "@ + group_thousands(decimal(m.num_rows as nat)) + " | "@ + group_thousands(
            decimal(m.pattern_entries as nat),
        ) + " | "@ + (if m.symmetric@ == "No"@ {
            "No"@
        } else if (match m.positive_definite {
            Some(p) => p@ == "yes"@,
            None => false,
        }) {
            "Yes*"@
        } else {
            "Yes"@
        }) + " |\n"@,
        info.lookup(matrix) is None ==> matrix_table_row(info, matrix) == "| "@ + matrix_short_name(matrix)
            + " | — | — | — |\n"@,
{
}

} // verus!
