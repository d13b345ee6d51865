//! LaTeX comparison table of the linear solvers.

use crate::all_results::{
    time_renders_plainly, time_without_outliers, times_render_plainly, AllResults, Genie, RunStats,
};
use crate::constants::{big_time, is_big_time, TIME_DIGITS};
use crate::external::{format_nanoseconds_with_digits, nanoseconds_text_with_digits};
use crate::sequences::{concat_n, count_char, lemma_count_char_concat, lemma_count_char_concat_n};
use crate::text::{
    decimal, escape_underscores, escape_underscores_text, group_thousands, owned, push_decimal,
    symmetry_label, symmetry_text, text_eq, to_grouped_decimal, lemma_count_decimal, is_digit_char,
    lemma_count_duration,
};
use crate::StrError;
use vstd::prelude::*;

verus! {

/// Column label: two-line stacked "Matching / Algorithm"
pub open spec fn label_matching_algorithm() -> Seq<char> {
    "{\\shortstack[l]{Matching\\\\Algorithm}}"@
}

/// Column label: two-line stacked "Total / Time"
pub open spec fn label_total_time() -> Seq<char> {
    "{\\shortstack[l]{Total\\\\Time}}"@
}

/// Column label: two-line stacked "Relative / Error"
pub open spec fn label_relative_error() -> Seq<char> {
    "{\\shortstack[l]{Relative\\\\Error}}"@
}

/// `text` in bold when `bold` holds.
pub open spec fn latex_bold(text: Seq<char>, bold: bool) -> Seq<char> {
    if bold {
        "\\bfseries "@ + text
    } else {
        text
    }
}

/// Returns `text` in bold when `bold` holds.
pub fn bold_latex(text: &str, bold: bool) -> (r: String)
    ensures
        r@ == latex_bold(text@, bold),
{
    if bold {
        let mut r = owned("\\bfseries ");
        r.append(text);
        r
    } else {
        owned(text)
    }
}

/// The optional column separation setting.
pub open spec fn latex_col_sep(col_sep_pt: Option<Seq<char>>) -> Seq<char> {
    match col_sep_pt {
        Some(v) => "\\setlength{\\tabcolsep}{"@ + v + "pt}\n"@,
        None => Seq::empty(),
    }
}

/// The spacing around `\times` in siunitx numbers.
pub open spec fn latex_times_op(tight: bool) -> Seq<char> {
    if tight {
        ", exponent-product={{\\!{{\\times}}\\!}}"@
    } else {
        ", exponent-product={{\\mkern1mu{{\\times}}\\mkern1mu}}"@
    }
}

/// Top rule, when horizontal lines are requested.
pub open spec fn latex_top_rule(h: bool) -> Seq<char> {
    if h { "\n\\toprule"@ } else { Seq::empty() }
}

/// Middle rule, when horizontal lines are requested.
pub open spec fn latex_mid_rule(h: bool) -> Seq<char> {
    if h { "\\midrule"@ } else { Seq::empty() }
}

/// Bottom rule, when horizontal lines are requested.
pub open spec fn latex_bottom_rule(h: bool) -> Seq<char> {
    if h { "\\bottomrule\n"@ } else { Seq::empty() }
}

/// The table environment, caption, label and number formatting.
pub open spec fn latex_opening(
    caption: Seq<char>,
    label: Seq<char>,
    col_sep_pt: Option<Seq<char>>,
    tight: bool,
) -> Seq<char> {
    "\\begin{table}[!h]\n\\centering\n\\caption{"@ + caption + "}\\label{"@ + label
        + "}\n\\small\n"@ + latex_col_sep(col_sep_pt)
        + "\\sisetup{group-separator={,}, detect-weight=true"@ + latex_times_op(tight) + "}\n"@
}

/// The column specification of one solver.
pub open spec fn latex_column_spec(g: Genie) -> Seq<char> {
    let name = g.name_text();
    if g == Genie::Cudss {
        "   l                                                                          % "@ + name + " extra\n   l                                                                          % "@ + name + " time\n   S[table-format=1.2e-2, exponent-mode=scientific, print-zero-exponent=true] % "@
            + name + " error\n"@
    } else {
        "   l                                                                          % "@ + name + " time\n   S[table-format=1.2e-2, exponent-mode=scientific, print-zero-exponent=true] % "@
            + name + " error\n"@
    }
}

/// The column specifications of the solvers, one by one.
pub open spec fn latex_column_specs(gs: Seq<Genie>) -> spec_fn(int) -> Seq<char> {
    |j: int| latex_column_spec(gs[j])
}

/// The vertical cell padding: the given value, 3 by default.
pub open spec fn latex_v_gap(row_sep_pt: Option<Seq<char>>) -> Seq<char> {
    match row_sep_pt {
        Some(v) => v,
        None => "3"@,
    }
}

/// The tabular environment with its column specifications and options.
pub open spec fn latex_columns(gs: Seq<Genie>, row_sep_pt: Option<Seq<char>>, h: bool) -> Seq<char> {
    "\\begin{NiceTabular}{\n   l\n   r % ndim\n   r % nnz\n   c % sym\n"@ + concat_n(
        latex_column_specs(gs),
        gs.len(),
    ) + " }[\ncell-space-limits="@ + latex_v_gap(row_sep_pt)
        + "pt,\ncode-before={\n   \\rowcolor{gray!35}{1,2}\n   \\rowcolors{3}{white}{gray!15}\n}]"@
        + latex_top_rule(h) + "\n"@
}

/// Number of columns of one solver: three for cuDSS, two otherwise.
pub open spec fn solver_width(g: Genie) -> nat {
    if g == Genie::Cudss { 3 } else { 2 }
}

/// The first column (counting from 1) of the `k`-th solver.
pub open spec fn first_column(gs: Seq<Genie>, k: nat) -> nat
    decreases k,
{
    if k == 0 {
        5
    } else {
        first_column(gs, (k - 1) as nat) + solver_width(gs[k - 1])
    }
}

/// Separator after the `k`-th of `n` items.
pub open spec fn between(k: int, n: int, sep: Seq<char>) -> Seq<char> {
    if k < n - 1 { sep } else { Seq::empty() }
}

/// The grouped title of the `k`-th solver.
pub open spec fn latex_group_title(gs: Seq<Genie>, k: int) -> Seq<char> {
    "\\multicolumn{"@ + (if gs[k] == Genie::Cudss { "3"@ } else { "2"@ }) + "}{c}{\\bfseries "@
        + gs[k].display_text() + "}"@ + between(k, gs.len() as int, " & "@)
}

/// The grouped titles of the solvers, one by one.
pub open spec fn latex_group_title_fn(gs: Seq<Genie>) -> spec_fn(int) -> Seq<char> {
    |k: int| latex_group_title(gs, k)
}

/// The line of grouped solver titles.
pub open spec fn latex_group_titles(gs: Seq<Genie>) -> Seq<char> {
    "& & & & "@ + concat_n(latex_group_title_fn(gs), gs.len()) + " \\\\\n"@
}

/// The rule under the time and error columns of the `k`-th solver.
pub open spec fn latex_cmidrule(gs: Seq<Genie>, k: int) -> Seq<char> {
    let start = first_column(gs, k as nat);
    "\\cmidrule(lr){"@ + decimal(start) + "-"@ + decimal((start + solver_width(gs[k]) - 1) as nat)
        + "}"@ + between(k, gs.len() as int, " "@)
}

/// The rules of the solvers, one by one.
pub open spec fn latex_cmidrule_fn(gs: Seq<Genie>) -> spec_fn(int) -> Seq<char> {
    |k: int| latex_cmidrule(gs, k)
}

/// The line of rules under the solver titles.
pub open spec fn latex_cmidrules(gs: Seq<Genie>) -> Seq<char> {
    concat_n(latex_cmidrule_fn(gs), gs.len()) + "\n"@
}

/// The column labels of the `k`-th solver.
pub open spec fn latex_label(gs: Seq<Genie>, k: int, h: bool) -> Seq<char> {
    (if gs[k] == Genie::Cudss {
        " & "@ + label_matching_algorithm() + " & "@ + label_total_time() + " & "@
            + label_relative_error()
    } else {
        " & "@ + label_total_time() + " & "@ + label_relative_error()
    }) + (if k == gs.len() - 1 { "\\\\"@ + latex_mid_rule(h) } else { Seq::empty() })
}

/// The column labels of the solvers, one by one.
pub open spec fn latex_label_fn(gs: Seq<Genie>, h: bool) -> spec_fn(int) -> Seq<char> {
    |k: int| latex_label(gs, k, h)
}

/// The line of column labels.
pub open spec fn latex_labels(gs: Seq<Genie>, h: bool) -> Seq<char> {
    "\\RowStyle{\\bfseries} Matrix & Nrow & NNZ & Sym"@ + concat_n(latex_label_fn(gs, h), gs.len())
        + "\n"@
}

/// The name of a matrix in the table: long names abbreviated, underscores escaped.
pub open spec fn latex_matrix_name(m: Seq<char>) -> Seq<char> {
    if m == "pres-cylin-3d-tet10-fine-nu499"@ {
        "pres-cylinNI"@
    } else if m == "pres-cylin-3d-tet10-fine"@ {
        "pres-cylin"@
    } else if m == "dielFilterV2real"@ {
        "dielFilterV2"@
    } else {
        escape_underscores(m)
    }
}

/// The leading cells of a row: name, rows, non-zeros, symmetry.
pub open spec fn latex_row_start(m: Seq<char>, d0: RunStats) -> Seq<char> {
    latex_matrix_name(m) + "& "@ + group_thousands(decimal(d0.nrow as nat)) + " & "@
        + group_thousands(decimal(d0.nnz_actual as nat)) + " & "@ + symmetry_text(
        d0.symmetric@,
        d0.positive_definite,
    )
}

/// The time and error cells from the rendered time and error.
pub open spec fn latex_timed_cells(time: Seq<char>, time_big: bool, error: Seq<char>, error_big: bool) -> Seq<char> {
    " & "@ + latex_bold(time, time_big) + " & "@ + latex_bold(error, error_big)
}

/// Returns the time and error cells from the rendered time and error.
pub fn latex_timed_cells_text(time: &str, time_big: bool, error: &str, error_big: bool) -> (r: String)
    ensures
        r@ == latex_timed_cells(time@, time_big, error@, error_big),
{
    let time_str = bold_latex(time, time_big);
    let str_err = bold_latex(error, error_big);
    let mut r = owned(" & ");
    r.append(time_str.as_str());
    r.append(" & ");
    r.append(str_err.as_str());
    r
}

/// The time and error cells of one result.
pub open spec fn latex_result_cells(s: RunStats) -> Seq<char> {
    if s.out_of_memory {
        "& oom & oom"@
    } else if s.total_ifs == 0 {
        "& n/a & n/a"@
    } else {
        let t = time_without_outliers(s);
        latex_timed_cells(
            nanoseconds_text_with_digits(t, TIME_DIGITS),
            is_big_time(t),
            s.relative_error_text@,
            s.relative_error_is_big,
        )
    }
}

/// The cells of one solver in a row: the matching algorithm for cuDSS, then
/// the time and the error.
pub open spec fn latex_solver_cells(g: Genie, s: RunStats) -> Seq<char> {
    if g == Genie::Cudss {
        " & "@ + s.matching@ + latex_result_cells(s)
    } else {
        latex_result_cells(s)
    }
}

/// The solver cells of the row of matrix `m`, one by one.
pub open spec fn latex_row_cells(data: AllResults, m: Seq<char>) -> spec_fn(int) -> Seq<char> {
    |j: int| latex_solver_cells(data.genie_list()[j], data.entry(data.genie_list()[j], m)->0)
}

/// The row of the `i`-th matrix; the last row ends on a line of its own.
pub open spec fn latex_row(data: AllResults, i: int) -> Seq<char> {
    let m = data.matrix_list()[i];
    let gs = data.genie_list();
    latex_row_start(m, data.entry(gs[0], m)->0) + concat_n(latex_row_cells(data, m), gs.len())
        + if i == data.matrix_list().len() - 1 {
        "\n\\\\\n"@
    } else {
        "\\\\\n"@
    }
}

/// The rows of the matrices, one by one.
pub open spec fn latex_rows(data: AllResults) -> spec_fn(int) -> Seq<char> {
    |i: int| latex_row(data, i)
}

/// The end of the tabular and table environments.
pub open spec fn latex_closing(h: bool) -> Seq<char> {
    latex_bottom_rule(h) + "\\end{NiceTabular}\n\\end{table}\n"@
}

/// The whole table.
pub open spec fn latex_table(
    caption: Seq<char>,
    label: Seq<char>,
    data: AllResults,
    row_sep_pt: Option<Seq<char>>,
    col_sep_pt: Option<Seq<char>>,
    h: bool,
    tight: bool,
) -> Seq<char> {
    let gs = data.genie_list();
    latex_opening(caption, label, col_sep_pt, tight) + latex_columns(gs, row_sep_pt, h)
        + latex_group_titles(gs) + latex_cmidrules(gs) + latex_labels(gs, h) + concat_n(
        latex_rows(data),
        data.matrix_list().len(),
    ) + latex_closing(h)
}

/// The view of an optional text.
pub open spec fn opt_view(t: Option<&str>) -> Option<Seq<char>> {
    match t {
        Some(v) => Some(v@),
        None => None,
    }
}


fn push_opening(buf: &mut String, caption: &str, label: &str, col_sep_pt: Option<&str>, tight: bool)
    ensures
        final(buf)@ == old(buf)@ + latex_opening(caption@, label@, opt_view(col_sep_pt), tight),
{
    buf.append("\\begin{table}[!h]\n\\centering\n\\caption{");
    buf.append(caption);
    buf.append("}\\label{");
    buf.append(label);
    buf.append("}\n\\small\n");
    match col_sep_pt {
        Some(v) => {
            buf.append("\\setlength{\\tabcolsep}{");
            buf.append(v);
            buf.append("pt}\n");
        },
        None => {},
    }
    buf.append("\\sisetup{group-separator={,}, detect-weight=true");
    if tight {
        buf.append(", exponent-product={{\\!{{\\times}}\\!}}");
    } else {
        buf.append(", exponent-product={{\\mkern1mu{{\\times}}\\mkern1mu}}");
    }
    buf.append("}\n");
}

fn push_column_spec(buf: &mut String, genies: &Vec<Genie>, j: usize)
    requires
        j < genies.len(),
    ensures
        final(buf)@ == old(buf)@ + latex_column_spec(genies@[j as int]),
{
    let genie = genies[j];
    let name = genie.to_string();
    if genie == Genie::Cudss {
        buf.append("   l                                                                          % ");
        buf.append(name.as_str());
        buf.append(" extra\n   l                                                                          % ");
        buf.append(name.as_str());
        buf.append(" time\n   S[table-format=1.2e-2, exponent-mode=scientific, print-zero-exponent=true] % ");
        buf.append(name.as_str());
        buf.append(" error\n");
    } else {
        buf.append("   l                                                                          % ");
        buf.append(name.as_str());
        buf.append(" time\n   S[table-format=1.2e-2, exponent-mode=scientific, print-zero-exponent=true] % ");
        buf.append(name.as_str());
        buf.append(" error\n");
    }
}

fn push_columns(buf: &mut String, genies: &Vec<Genie>, row_sep_pt: Option<&str>, h: bool)
    ensures
        final(buf)@ == old(buf)@ + latex_columns(genies@, opt_view(row_sep_pt), h),
{
    let ghost gs = genies@;
    let ghost start = old(buf)@ + "\\begin{NiceTabular}{\n   l\n   r % ndim\n   r % nnz\n   c % sym\n"@;
    buf.append("\\begin{NiceTabular}{\n   l\n   r % ndim\n   r % nnz\n   c % sym\n");
    let mut j: usize = 0;
    while j < genies.len()
        invariant
            j <= genies.len(),
            gs == genies@,
            buf@ == start + concat_n(latex_column_specs(gs), j as nat),
        decreases genies.len() - j,
    {
        push_column_spec(buf, genies, j);
        j = j + 1;
    }
    buf.append(" }[\ncell-space-limits=");
    match row_sep_pt {
        Some(v) => buf.append(v),
        None => buf.append("3"),
    }
    buf.append("pt,\ncode-before={\n   \\rowcolor{gray!35}{1,2}\n   \\rowcolors{3}{white}{gray!15}\n}]");
    if h {
        buf.append("\n\\toprule");
    }
    buf.append("\n");
}

fn push_group_title(buf: &mut String, genies: &Vec<Genie>, k: usize)
    requires
        k < genies.len(),
    ensures
        final(buf)@ == old(buf)@ + latex_group_title(genies@, k as int),
{
    let genie = genies[k];
    let display = genie.display_name();
    buf.append("\\multicolumn{");
    if genie == Genie::Cudss {
        buf.append("3");
    } else {
        buf.append("2");
    }
    buf.append("}{c}{\\bfseries ");
    buf.append(display.as_str());
    buf.append("}");
    if k + 1 < genies.len() {
        buf.append(" & ");
    }
}

fn push_group_titles(buf: &mut String, genies: &Vec<Genie>)
    ensures
        final(buf)@ == old(buf)@ + latex_group_titles(genies@),
{
    let ghost gs = genies@;
    let ghost start = old(buf)@ + "& & & & "@;
    buf.append("& & & & ");
    let n = genies.len();
    let mut k: usize = 0;
    while k < n
        invariant
            k <= n,
            n == gs.len(),
            gs == genies@,
            buf@ == start + concat_n(latex_group_title_fn(gs), k as nat),
        decreases n - k,
    {
        push_group_title(buf, genies, k);
        k = k + 1;
    }
    buf.append(" \\\\\n");
}

fn push_cmidrule(buf: &mut String, genies: &Vec<Genie>, k: usize, col: u128) -> (next: u128)
    requires
        k < genies.len(),
        col == first_column(genies@, k as nat),
        col <= 5 + 3 * k,
    ensures
        final(buf)@ == old(buf)@ + latex_cmidrule(genies@, k as int),
        next == first_column(genies@, (k + 1) as nat),
        next <= 5 + 3 * (k + 1),
{
    let has_extra = genies[k] == Genie::Cudss;
    let end = col + if has_extra { 2 } else { 1 };
    buf.append("\\cmidrule(lr){");
    push_decimal(buf, col);
    buf.append("-");
    push_decimal(buf, end);
    buf.append("}");
    if k + 1 < genies.len() {
        buf.append(" ");
    }
    col + if has_extra { 3 } else { 2 }
}

fn push_label(buf: &mut String, genies: &Vec<Genie>, k: usize, h: bool)
    requires
        k < genies.len(),
    ensures
        final(buf)@ == old(buf)@ + latex_label(genies@, k as int, h),
{
    if genies[k] == Genie::Cudss {
        buf.append(" & ");
        buf.append("{\\shortstack[l]{Matching\\\\Algorithm}}");
        buf.append(" & ");
        buf.append("{\\shortstack[l]{Total\\\\Time}}");
        buf.append(" & ");
        buf.append("{\\shortstack[l]{Relative\\\\Error}}");
    } else {
        buf.append(" & ");
        buf.append("{\\shortstack[l]{Total\\\\Time}}");
        buf.append(" & ");
        buf.append("{\\shortstack[l]{Relative\\\\Error}}");
    }
    if k + 1 == genies.len() {
        buf.append("\\\\");
        if h {
            buf.append("\\midrule");
        }
    }
}

fn push_cmidrules(buf: &mut String, genies: &Vec<Genie>)
    ensures
        final(buf)@ == old(buf)@ + latex_cmidrules(genies@),
{
    let ghost gs = genies@;
    let ghost start = old(buf)@;
    let n = genies.len();
    let mut col: u128 = 5;
    let mut k: usize = 0;
    while k < n
        invariant
            k <= n,
            n == gs.len(),
            gs == genies@,
            col == first_column(gs, k as nat),
            col <= 5 + 3 * k,
            buf@ == start + concat_n(latex_cmidrule_fn(gs), k as nat),
        decreases n - k,
    {
        col = push_cmidrule(buf, genies, k, col);
        k = k + 1;
    }
    buf.append("\n");
}

fn push_labels(buf: &mut String, genies: &Vec<Genie>, h: bool)
    ensures
        final(buf)@ == old(buf)@ + latex_labels(genies@, h),
{
    let ghost gs = genies@;
    let ghost start = old(buf)@ + "\\RowStyle{\\bfseries} Matrix & Nrow & NNZ & Sym"@;
    buf.append("\\RowStyle{\\bfseries} Matrix & Nrow & NNZ & Sym");
    let n = genies.len();
    let mut k: usize = 0;
    while k < n
        invariant
            k <= n,
            n == gs.len(),
            gs == genies@,
            buf@ == start + concat_n(latex_label_fn(gs, h), k as nat),
        decreases n - k,
    {
        push_label(buf, genies, k, h);
        k = k + 1;
    }
    buf.append("\n");
}

/// Appends the name of a matrix as it appears in the LaTeX table.
fn push_matrix_name(buf: &mut String, matrix: &str)
    ensures
        final(buf)@ == old(buf)@ + latex_matrix_name(matrix@),
{
    if text_eq(matrix, "pres-cylin-3d-tet10-fine-nu499") {
        buf.append("pres-cylinNI");
    } else if text_eq(matrix, "pres-cylin-3d-tet10-fine") {
        buf.append("pres-cylin");
    } else if text_eq(matrix, "dielFilterV2real") {
        buf.append("dielFilterV2");
    } else {
        let escaped = escape_underscores_text(matrix);
        buf.append(escaped.as_str());
    }
}

/// Appends the time and error cells of one result.
fn push_result_cells(buf: &mut String, data: &AllResults, genie: Genie, matrix: &str, dat: &RunStats)
    requires
        data.entry(genie, matrix@) == Some(*dat),
        !dat.out_of_memory && dat.total_ifs != 0 ==> dat.total_ifs_array.len() > 0,
    ensures
        final(buf)@ == old(buf)@ + latex_result_cells(*dat),
        time_renders_plainly(*dat),
{
    if dat.out_of_memory {
        buf.append("& oom & oom");
    } else if dat.total_ifs == 0 {
        buf.append("& n/a & n/a");
    } else {
        let time = match data.recalculate_total_time_without_outliers(genie, matrix) {
            Ok(t) => t,
            Err(_) => {
                proof { assert(false); }
                0
            },
        };
        let time_text = format_nanoseconds_with_digits(time, TIME_DIGITS);
        let cells = latex_timed_cells_text(
            time_text.as_str(),
            big_time(time),
            dat.relative_error_text.as_str(),
            dat.relative_error_is_big,
        );
        buf.append(cells.as_str());
    }
}

/// Appends the row of the `i`-th matrix.
fn push_row(buf: &mut String, data: &AllResults, i: usize)
    requires
        data.runs_recorded(),
        data.genie_list().len() > 0,
        i < data.matrix_list().len(),
    ensures
        final(buf)@ == old(buf)@ + latex_row(*data, i as int),
        forall|jj: int| 0 <= jj < data.genie_list().len() ==> time_renders_plainly(#[trigger] data.result_at(jj, i as int)),
{
    let genies = data.genies();
    let matrices = data.matrices();
    let ghost gs = data.genie_list();
    let ghost names = data.matrix_list();
    let ng = genies.len();
    let nm = matrices.len();
    assert(names.len() == nm);
    assert(names[i as int] == matrices@[i as int]@);
    let matrix = matrices[i].as_str();
    let ghost m = names[i as int];
    assert(gs.contains(gs[0]));
    assert(names.contains(m));
    let ghost before = old(buf)@;
    let d0 = match data.get(genies[0], matrix) {
        Some(d) => d,
        None => {
            proof { assert(false); }
            return;
        },
    };
    push_matrix_name(buf, matrix);
    let str_ndim = to_grouped_decimal(d0.nrow);
    let str_nnz = to_grouped_decimal(d0.nnz_actual);
    buf.append("& ");
    buf.append(str_ndim.as_str());
    buf.append(" & ");
    buf.append(str_nnz.as_str());
    buf.append(" & ");
    buf.append(symmetry_label(d0.symmetric.as_str(), d0.positive_definite));
    let ghost start = buf@;
    assert(start == before + latex_row_start(m, data.entry(gs[0], m)->0));
    let mut j: usize = 0;
    while j < ng
        invariant
            j <= ng,
            ng == gs.len(),
            genies@ == gs,
            gs == data.genie_list(),
            names == data.matrix_list(),
            names.contains(m),
            matrix@ == m,
            data.runs_recorded(),
            m == names[i as int],
            buf@ == start + concat_n(latex_row_cells(*data, m), j as nat),
            forall|jj: int| 0 <= jj < j ==> time_renders_plainly(#[trigger] data.result_at(jj, i as int)),
        decreases ng - j,
    {
        let genie = genies[j];
        assert(gs.contains(gs[j as int]));
        let dat = match data.get(genie, matrix) {
            Some(d) => d,
            None => {
                proof { assert(false); }
                return;
            },
        };
        proof {
            let ii = choose|ii: int| 0 <= ii < names.len() && names[ii] == m;
            assert(data.entry(gs[j as int], names[ii]) == Some(*dat));
        }
        if genie == Genie::Cudss {
            buf.append(" & ");
            buf.append(dat.matching.as_str());
        }
        push_result_cells(buf, data, genie, matrix, dat);
        j = j + 1;
    }
    if i + 1 == nm {
        buf.append("\n\\\\\n");
    } else {
        buf.append("\\\\\n");
    }
}

/// Generates a LaTeX comparison table of the linear solvers.
///
/// A NiceTabular with alternating row colours and, per solver, a grouped
/// header over the total time without outliers and the relative error (cuDSS
/// also shows the matching algorithm). Times and errors above the thresholds
/// are bold; out-of-memory results read `oom` and results without a time
/// `n/a`. `row_sep_pt` and `col_sep_pt` are the paddings in points, written as
/// numbers; the row padding is 3 points by default.
pub fn performance_table(
    caption: &str,
    label: &str,
    data: &AllResults,
    row_sep_pt: Option<&str>,
    col_sep_pt: Option<&str>,
    with_horiz_lines: bool,
    tight_times_op: bool,
) -> (r: Result<String, StrError>)
    requires
        data.runs_recorded(),
    ensures
        (data.genie_list().len() == 0 || data.matrix_list().len() == 0) ==> (r matches Err(e)
            && e@ == "results map must not be empty"@),
        (data.genie_list().len() > 0 && data.matrix_list().len() > 0) ==> (r matches Ok(t)
            && t@ == latex_table(
            caption@,
            label@,
            *data,
            opt_view(row_sep_pt),
            opt_view(col_sep_pt),
            with_horiz_lines,
            tight_times_op,
        )),
        times_render_plainly(*data),
{
    if data.is_empty() {
        return Err("results map must not be empty");
    }
    let genies = data.genies();
    let ghost gs = data.genie_list();
    let ghost names = data.matrix_list();
    let mut buf = String::new();
    push_opening(&mut buf, caption, label, col_sep_pt, tight_times_op);
    push_columns(&mut buf, genies, row_sep_pt, with_horiz_lines);
    push_group_titles(&mut buf, genies);
    push_cmidrules(&mut buf, genies);
    push_labels(&mut buf, genies, with_horiz_lines);
    let ghost head = buf@;
    let matrices = data.matrices();
    let nm = matrices.len();
    assert(matrices@.map_values(|m: String| m@).len() == nm);
    let mut i: usize = 0;
    while i < nm
        invariant
            i <= nm,
            nm == names.len(),
            gs.len() > 0,
            gs == data.genie_list(),
            names == data.matrix_list(),
            data.runs_recorded(),
            buf@ == head + concat_n(latex_rows(*data), i as nat),
            forall|jj: int, ii: int|
                0 <= jj < gs.len() && 0 <= ii < i ==> time_renders_plainly(#[trigger] data.result_at(jj, ii)),
        decreases nm - i,
    {
        push_row(&mut buf, data, i);
        i = i + 1;
    }
    proof {
        assert forall|jj: int, ii: int| 0 <= jj < gs.len() && 0 <= ii < nm implies time_renders_plainly(
            #[trigger] data.entry(gs[jj], names[ii])->0,
        ) by {
            assert(data.result_at(jj, ii) == data.entry(gs[jj], names[ii])->0);
        }
    }
    if with_horiz_lines {
        buf.append("\\bottomrule\n");
    }
    buf.append("\\end{NiceTabular}\n\\end{table}\n");
    Ok(buf)
}


/// The texts that the table copies from the results hold no `c`: matrix names,
/// matching algorithms and relative errors.
pub open spec fn latex_texts_avoid(data: AllResults, c: char) -> bool {
    &&& forall|i: int|
        0 <= i < data.matrix_list().len() ==> count_char(
            latex_matrix_name(#[trigger] data.matrix_list()[i]),
            c,
        ) == 0
    &&& data.entries_satisfy(
        |s: RunStats|
            count_char(s.matching@, c) == 0 && count_char(s.relative_error_text@, c) == 0,
    )
}

#[verifier::spinoff_prover]
#[verifier::rlimit(40)]
proof fn lemma_amp_matching_label()
    ensures
        count_char(label_matching_algorithm(), '&') == 0,
{
    reveal_strlit("{\\shortstack[l]{Matching\\\\Algorithm}}");
    reveal_with_fuel(count_char, 60);
}

#[verifier::spinoff_prover]
#[verifier::rlimit(40)]
proof fn lemma_amp_literals_long()
    ensures
        count_char("\\RowStyle{\\bfseries} Matrix & Nrow & NNZ & Sym"@, '&') == 3,
        count_char(label_total_time(), '&') == 0,
        count_char(label_relative_error(), '&') == 0,
{
    reveal_strlit("\\RowStyle{\\bfseries} Matrix & Nrow & NNZ & Sym");
    reveal_strlit("{\\shortstack[l]{Total\\\\Time}}");
    reveal_strlit("{\\shortstack[l]{Relative\\\\Error}}");
    reveal_with_fuel(count_char, 50);
}

#[verifier::spinoff_prover]
#[verifier::rlimit(40)]
proof fn lemma_amp_literals_short()
    ensures
        count_char(" & "@, '&') == 1,
        count_char("& "@, '&') == 1,
        count_char("& oom & oom"@, '&') == 2,
        count_char("& n/a & n/a"@, '&') == 2,
        count_char("\\bfseries "@, '&') == 0,
        count_char("\\\\"@, '&') == 0,
        count_char("\\midrule"@, '&') == 0,
        count_char("\n\\\\\n"@, '&') == 0,
        count_char("\\\\\n"@, '&') == 0,
        count_char("No"@, '&') == 0,
        count_char("Yes"@, '&') == 0,
        count_char("Yes*"@, '&') == 0,
{
    reveal_strlit(" & ");
    reveal_strlit("& ");
    reveal_strlit("& oom & oom");
    reveal_strlit("& n/a & n/a");
    reveal_strlit("\\bfseries ");
    reveal_strlit("\\\\");
    reveal_strlit("\\midrule");
    reveal_strlit("\n\\\\\n");
    reveal_strlit("\\\\\n");
    reveal_strlit("No");
    reveal_strlit("Yes");
    reveal_strlit("Yes*");
    reveal_with_fuel(count_char, 14);
}

proof fn lemma_amp_literals()
    ensures
        count_char("\\RowStyle{\\bfseries} Matrix & Nrow & NNZ & Sym"@, '&') == 3,
        count_char(" & "@, '&') == 1,
        count_char("& "@, '&') == 1,
        count_char("& oom & oom"@, '&') == 2,
        count_char("& n/a & n/a"@, '&') == 2,
        count_char("\\bfseries "@, '&') == 0,
        count_char("\\\\"@, '&') == 0,
        count_char("\\midrule"@, '&') == 0,
        count_char("\n\\\\\n"@, '&') == 0,
        count_char("\\\\\n"@, '&') == 0,
        count_char("No"@, '&') == 0,
        count_char("Yes"@, '&') == 0,
        count_char("Yes*"@, '&') == 0,
        count_char(label_total_time(), '&') == 0,
        count_char(label_relative_error(), '&') == 0,
{
    lemma_amp_literals_long();
    lemma_amp_literals_short();
}

proof fn lemma_latex_bold_amps(t: Seq<char>, b: bool)
    ensures
        count_char(latex_bold(t, b), '&') == count_char(t, '&'),
{
    lemma_amp_literals();
    if b {
        lemma_count_char_concat("\\bfseries "@, t, '&');
    }
}

proof fn lemma_label_amps(gs: Seq<Genie>, k: int, h: bool)
    requires
        0 <= k < gs.len(),
    ensures
        count_char(latex_label(gs, k, h), '&') == solver_width(gs[k]),
{
    lemma_amp_literals();
    lemma_amp_matching_label();
    let a = label_matching_algorithm();
    let t = label_total_time();
    let e = label_relative_error();
    let first = if gs[k] == Genie::Cudss {
        " & "@ + a + " & "@ + t + " & "@ + e
    } else {
        " & "@ + t + " & "@ + e
    };
    let last = if k == gs.len() - 1 { "\\\\"@ + latex_mid_rule(h) } else { Seq::empty() };
    lemma_count_char_concat(" & "@, t, '&');
    lemma_count_char_concat(" & "@ + t, " & "@, '&');
    lemma_count_char_concat(" & "@ + t + " & "@, e, '&');
    lemma_count_char_concat(" & "@, a, '&');
    lemma_count_char_concat(" & "@ + a, " & "@, '&');
    lemma_count_char_concat(" & "@ + a + " & "@, t, '&');
    lemma_count_char_concat(" & "@ + a + " & "@ + t, " & "@, '&');
    lemma_count_char_concat(" & "@ + a + " & "@ + t + " & "@, e, '&');
    lemma_count_char_concat("\\\\"@, latex_mid_rule(h), '&');
    assert(count_char(Seq::<char>::empty(), '&') == 0);
    assert(count_char(last, '&') == 0);
    lemma_count_char_concat(first, last, '&');
}

proof fn lemma_latex_solver_cells_amps(g: Genie, s: RunStats)
    requires
        count_char(s.matching@, '&') == 0,
        count_char(s.relative_error_text@, '&') == 0,
        time_renders_plainly(s),
    ensures
        count_char(latex_solver_cells(g, s), '&') == solver_width(g),
{
    lemma_amp_literals();
    let r = latex_result_cells(s);
    if !s.out_of_memory && s.total_ifs != 0 {
        let t = time_without_outliers(s);
        let bt = latex_bold(nanoseconds_text_with_digits(t, TIME_DIGITS), is_big_time(t));
        let be = latex_bold(s.relative_error_text@, s.relative_error_is_big);
        lemma_count_duration(nanoseconds_text_with_digits(t, TIME_DIGITS), '&');
        lemma_latex_bold_amps(nanoseconds_text_with_digits(t, TIME_DIGITS), is_big_time(t));
        lemma_latex_bold_amps(s.relative_error_text@, s.relative_error_is_big);
        lemma_count_char_concat(" & "@, bt, '&');
        lemma_count_char_concat(" & "@ + bt, " & "@, '&');
        lemma_count_char_concat(" & "@ + bt + " & "@, be, '&');
    }
    assert(count_char(r, '&') == 2);
    if g == Genie::Cudss {
        lemma_count_char_concat(" & "@, s.matching@, '&');
        lemma_count_char_concat(" & "@ + s.matching@, r, '&');
    }
}

proof fn lemma_latex_row_start_amps(m: Seq<char>, d0: RunStats)
    requires
        count_char(latex_matrix_name(m), '&') == 0,
    ensures
        count_char(latex_row_start(m, d0), '&') == 3,
{
    lemma_amp_literals();
    let a = latex_matrix_name(m);
    let n1 = group_thousands(decimal(d0.nrow as nat));
    let n2 = group_thousands(decimal(d0.nnz_actual as nat));
    let sy = symmetry_text(d0.symmetric@, d0.positive_definite);
    assert(!is_digit_char('&'));
    lemma_count_decimal(d0.nrow as nat, '&');
    lemma_count_decimal(d0.nnz_actual as nat, '&');
    assert(count_char(sy, '&') == 0);
    lemma_count_char_concat(a, "& "@, '&');
    lemma_count_char_concat(a + "& "@, n1, '&');
    lemma_count_char_concat(a + "& "@ + n1, " & "@, '&');
    lemma_count_char_concat(a + "& "@ + n1 + " & "@, n2, '&');
    lemma_count_char_concat(a + "& "@ + n1 + " & "@ + n2, " & "@, '&');
    lemma_count_char_concat(a + "& "@ + n1 + " & "@ + n2 + " & "@, sy, '&');
}

/// Every row of the LaTeX table has as many cells as the line of column
/// labels, when the copied texts hold no `&`. The times are written plainly in
/// every table that `performance_table` builds, as its `ensures` states.
#[verifier::spinoff_prover]
#[verifier::rlimit(40)]
pub proof fn lemma_latex_table_cells(data: AllResults, h: bool)
    requires
        latex_texts_avoid(data, '&'),
        times_render_plainly(data),
    ensures
        forall|i: int|
            0 <= i < data.matrix_list().len() ==> count_char(#[trigger] latex_row(data, i), '&')
                == count_char(latex_labels(data.genie_list(), h), '&'),
{
    lemma_amp_literals();
    let gs = data.genie_list();
    let n = gs.len();
    let lc = latex_label_fn(gs, h);
    let head = "\\RowStyle{\\bfseries} Matrix & Nrow & NNZ & Sym"@;
    lemma_count_char_concat(head, concat_n(lc, n), '&');
    lemma_count_char_concat(head + concat_n(lc, n), "\n"@, '&');
    reveal_strlit("\n");
    assert(count_char("\n"@, '&') == 0) by {
        reveal_with_fuel(count_char, 2);
    }
    assert forall|i: int| 0 <= i < data.matrix_list().len() implies count_char(#[trigger] latex_row(data, i), '&')
        == count_char(latex_labels(gs, h), '&') by {
        let m = data.matrix_list()[i];
        let rc = latex_row_cells(data, m);
        assert forall|j: int| 0 <= j < n implies count_char(#[trigger] rc(j), '&') == count_char(lc(j), '&') by {
            let s = data.entry(gs[j], m)->0;
            assert(count_char(s.matching@, '&') == 0 && count_char(s.relative_error_text@, '&') == 0
                && time_renders_plainly(s));
            lemma_latex_solver_cells_amps(gs[j], s);
            lemma_label_amps(gs, j, h);
        }
        lemma_count_char_concat_n(rc, lc, n, '&');
        let start = latex_row_start(m, data.entry(gs[0], m)->0);
        lemma_latex_row_start_amps(m, data.entry(gs[0], m)->0);
        let end = if i == data.matrix_list().len() - 1 { "\n\\\\\n"@ } else { "\\\\\n"@ };
        lemma_count_char_concat(start, concat_n(rc, n), '&');
        lemma_count_char_concat(start + concat_n(rc, n), end, '&');
    }
}

/// Every row of the LaTeX table starts with the matrix's name and, taken from
/// the first solver's results for that matrix, the number of rows, the number
/// of non-zeros after summing duplicates (`nnz_actual`, not the stored count
/// `nnz`), both with thousands separators, and the symmetry: `No`, `Yes*` when
/// positive definiteness was declared, `Yes` otherwise.
pub proof fn lemma_latex_row_leading_cells(data: AllResults)
    ensures
        forall|i: int|
            #![trigger latex_row(data, i)]
            0 <= i < data.matrix_list().len() ==> {
                let d0 = data.result_at(0, i);
                let lead = latex_matrix_name(data.matrix_list()[i]) + "& "@ + group_thousands(
                    decimal(d0.nrow as nat),
                ) + " & "@ + group_thousands(decimal(d0.nnz_actual as nat)) + " & "@ + (if d0.symmetric@
                    == "No"@ {
                    "No"@
                } else if d0.positive_definite {
                    "Yes*"@
                } else {
                    "Yes"@
                });
                latex_row(data, i).subrange(0, lead.len() as int) == lead
            },
{
    assert forall|i: int| #![trigger latex_row(data, i)] 0 <= i < data.matrix_list().len() implies {
        let d0 = data.result_at(0, i);
        let lead = latex_matrix_name(data.matrix_list()[i]) + "& "@ + group_thousands(decimal(d0.nrow as nat))
            + " & "@ + group_thousands(decimal(d0.nnz_actual as nat)) + " & "@ + (if d0.symmetric@ == "No"@ {
            "No"@
        } else if d0.positive_definite {
            "Yes*"@
        } else {
            "Yes"@
        });
        latex_row(data, i).subrange(0, lead.len() as int) == lead
    } by {
        let m = data.matrix_list()[i];
        let gs = data.genie_list();
        let d0 = data.result_at(0, i);
        let lead = latex_row_start(m, d0);
        let tail = concat_n(latex_row_cells(data, m), gs.len()) + if i == data.matrix_list().len() - 1 {
            "\n\\\\\n"@
        } else {
            "\\\\\n"@
        };
        assert(latex_row(data, i) =~= lead + tail);
        assert((lead + tail).subrange(0, lead.len() as int) =~= lead);
    }
}

} // verus!
