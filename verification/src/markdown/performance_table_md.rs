//! Markdown comparison table of the linear solvers.

use crate::all_results::{
    time_renders_plainly, time_without_outliers, times_render_plainly, AllResults, Genie, RunStats,
};
use crate::constants::{big_time, is_big_time, TIME_DIGITS};
use crate::external::{format_nanoseconds_with_digits, nanoseconds_text_with_digits};
use crate::sequences::{
    concat_n, count_char, lemma_count_char_concat, lemma_count_char_concat_n,
    lemma_count_char_concat_n_uniform,
};
use crate::text::{
    decimal, group_thousands, matrix_short_name, owned, short_matrix_name, symmetry_label,
    symmetry_text, to_grouped_decimal, lemma_count_decimal, is_digit_char,
    lemma_count_duration,
};
use crate::StrError;
use vstd::prelude::*;

verus! {

/// `text` in bold when `bold` holds.
pub open spec fn md_bold(text: Seq<char>, bold: bool) -> Seq<char> {
    if bold {
        "**"@ + text + "**"@
    } else {
        text
    }
}

/// Returns `text` in bold when `bold` holds.
pub fn bold_md(text: &str, bold: bool) -> (r: String)
    ensures
        r@ == md_bold(text@, bold),
{
    if bold {
        let mut r = owned("**");
        r.append(text);
        r.append("**");
        r
    } else {
        owned(text)
    }
}

/// The header cells of one solver.
pub open spec fn md_header_cell(g: Genie) -> Seq<char> {
    let d = g.display_text();
    if g == Genie::Cudss {
        " "@ + d + " MA | "@ + d + " Time | "@ + d + " Error |"@
    } else {
        " "@ + d + " Time | "@ + d + " Error |"@
    }
}

/// The alignment cells of one solver.
pub open spec fn md_separator_cell(g: Genie) -> Seq<char> {
    if g == Genie::Cudss {
        " ---: | ---: | ---: |"@
    } else {
        " ---: | ---: |"@
    }
}

/// The time and error cells from the rendered time and error.
pub open spec fn md_timed_cells(time: Seq<char>, time_big: bool, error: Seq<char>, error_big: bool) -> Seq<char> {
    " "@ + md_bold(time, time_big) + " | "@ + md_bold(error, error_big) + " |"@
}

/// Returns the time and error cells from the rendered time and error.
pub fn md_timed_cells_text(time: &str, time_big: bool, error: &str, error_big: bool) -> (r: String)
    ensures
        r@ == md_timed_cells(time@, time_big, error@, error_big),
{
    let time_str = bold_md(time, time_big);
    let str_err = bold_md(error, error_big);
    let mut r = owned(" ");
    r.append(time_str.as_str());
    r.append(" | ");
    r.append(str_err.as_str());
    r.append(" |");
    r
}

/// The time and error cells of one result.
pub open spec fn md_result_cells(s: RunStats) -> Seq<char> {
    if s.out_of_memory {
        " oom | oom |"@
    } else if s.total_ifs == 0 {
        " n/a | n/a |"@
    } else {
        let t = time_without_outliers(s);
        md_timed_cells(
            nanoseconds_text_with_digits(t, TIME_DIGITS),
            is_big_time(t),
            s.relative_error_text@,
            s.relative_error_is_big,
        )
    }
}

/// The cells of one solver in a row: the matching algorithm for cuDSS, then
/// the time and the error.
pub open spec fn md_solver_cells(g: Genie, s: RunStats) -> Seq<char> {
    if g == Genie::Cudss {
        " "@ + s.matching@ + " |"@ + md_result_cells(s)
    } else {
        md_result_cells(s)
    }
}

/// The header cells of the solvers, one by one.
pub open spec fn md_header_cells(gs: Seq<Genie>) -> spec_fn(int) -> Seq<char> {
    |j: int| md_header_cell(gs[j])
}

/// The alignment cells of the solvers, one by one.
pub open spec fn md_separator_cells(gs: Seq<Genie>) -> spec_fn(int) -> Seq<char> {
    |j: int| md_separator_cell(gs[j])
}

/// The solver cells of the row of matrix `m`, one by one.
pub open spec fn md_row_cells(data: AllResults, m: Seq<char>) -> spec_fn(int) -> Seq<char> {
    |j: int| md_solver_cells(data.genie_list()[j], data.entry(data.genie_list()[j], m)->0)
}

/// The leading cells of a row: name, rows, non-zeros, symmetry of the results
/// of the first solver.
pub open spec fn md_row_start(m: Seq<char>, d0: RunStats) -> Seq<char> {
    "| "@ + matrix_short_name(m) + " | "@ + group_thousands(decimal(d0.nrow as nat)) + " | "@
        + group_thousands(decimal(d0.nnz_actual as nat)) + " | "@ + symmetry_text(
        d0.symmetric@,
        d0.positive_definite,
    ) + " |"@
}

/// The row of the `i`-th matrix.
pub open spec fn md_row(data: AllResults, i: int) -> Seq<char> {
    let m = data.matrix_list()[i];
    let gs = data.genie_list();
    md_row_start(m, data.entry(gs[0], m)->0) + concat_n(md_row_cells(data, m), gs.len()) + "\n"@
}

/// The rows of the matrices, one by one.
pub open spec fn md_rows(data: AllResults) -> spec_fn(int) -> Seq<char> {
    |i: int| md_row(data, i)
}

/// The header line.
pub open spec fn md_header(gs: Seq<Genie>) -> Seq<char> {
    "| Matrix | Nrow | NNZ | Sym |"@ + concat_n(md_header_cells(gs), gs.len()) + "\n"@
}

/// The alignment line.
pub open spec fn md_separator(gs: Seq<Genie>) -> Seq<char> {
    "| --- | ---: | ---: | :-: |"@ + concat_n(md_separator_cells(gs), gs.len()) + "\n"@
}

/// The whole table.
pub open spec fn md_table(data: AllResults) -> Seq<char> {
    md_header(data.genie_list()) + md_separator(data.genie_list()) + concat_n(
        md_rows(data),
        data.matrix_list().len(),
    )
}

/// Appends the time and error cells of one result.
fn push_result_cells(buf: &mut String, data: &AllResults, genie: Genie, matrix: &str, dat: &RunStats)
    requires
        data.entry(genie, matrix@) == Some(*dat),
        !dat.out_of_memory && dat.total_ifs != 0 ==> dat.total_ifs_array.len() > 0,
    ensures
        final(buf)@ == old(buf)@ + md_result_cells(*dat),
        time_renders_plainly(*dat),
{
    if dat.out_of_memory {
        buf.append(" oom | oom |");
    } else if dat.total_ifs == 0 {
        buf.append(" n/a | n/a |");
    } else {
        let time = match data.recalculate_total_time_without_outliers(genie, matrix) {
            Ok(t) => t,
            Err(_) => {
                proof { assert(false); }
                0
            },
        };
        let time_text = format_nanoseconds_with_digits(time, TIME_DIGITS);
        let cells = md_timed_cells_text(
            time_text.as_str(),
            big_time(time),
            dat.relative_error_text.as_str(),
            dat.relative_error_is_big,
        );
        buf.append(cells.as_str());
    }
}

/// Appends the header cells of the `j`-th solver.
fn push_header_cell(buf: &mut String, genies: &Vec<Genie>, j: usize)
    requires
        j < genies.len(),
    ensures
        final(buf)@ == old(buf)@ + md_header_cell(genies@[j as int]),
{
    let genie = genies[j];
    let display = genie.display_name();
    if genie == Genie::Cudss {
        buf.append(" ");
        buf.append(display.as_str());
        buf.append(" MA | ");
        buf.append(display.as_str());
        buf.append(" Time | ");
        buf.append(display.as_str());
        buf.append(" Error |");
    } else {
        buf.append(" ");
        buf.append(display.as_str());
        buf.append(" Time | ");
        buf.append(display.as_str());
        buf.append(" Error |");
    }
}

/// Appends the row of the `i`-th matrix.
fn push_row(buf: &mut String, data: &AllResults, i: usize)
    requires
        data.runs_recorded(),
        data.genie_list().len() > 0,
        i < data.matrix_list().len(),
    ensures
        final(buf)@ == old(buf)@ + md_row(*data, i as int),
        forall|jj: int| 0 <= jj < data.genie_list().len() ==> time_renders_plainly(#[trigger] data.result_at(jj, i as int)),
{
    let genies = data.genies();
    let matrices = data.matrices();
    let ghost gs = data.genie_list();
    let ghost names = data.matrix_list();
    let ng = genies.len();
    assert(names[i as int] == matrices@[i as int]@);
    let matrix = matrices[i].as_str();
    let ghost m = names[i as int];
    assert(matrix@ == m);
    assert(gs.contains(gs[0]));
    assert(names.contains(m));
    let ghost before = old(buf)@;
    let d0 = match data.get(genies[0], matrix) {
        Some(d) => d,
        None => {
            proof { assert(false); }
            return;
        },
    };
    let mname = short_matrix_name(matrix);
    let str_ndim = to_grouped_decimal(d0.nrow);
    let str_nnz = to_grouped_decimal(d0.nnz_actual);
    let str_sym = symmetry_label(d0.symmetric.as_str(), d0.positive_definite);
    buf.append("| ");
    buf.append(mname.as_str());
    buf.append(" | ");
    buf.append(str_ndim.as_str());
    buf.append(" | ");
    buf.append(str_nnz.as_str());
    buf.append(" | ");
    buf.append(str_sym);
    buf.append(" |");
    let ghost start = buf@;
    assert(start == before + md_row_start(m, data.entry(gs[0], m)->0));
    let mut j: usize = 0;
    while j < ng
        invariant
            j <= ng,
            ng == gs.len(),
            genies@ == gs,
            gs == data.genie_list(),
            names == data.matrix_list(),
            names.contains(m),
            matrix@ == m,
            data.runs_recorded(),
            m == names[i as int],
            buf@ == start + concat_n(md_row_cells(*data, m), j as nat),
            forall|jj: int| 0 <= jj < j ==> time_renders_plainly(#[trigger] data.result_at(jj, i as int)),
        decreases ng - j,
    {
        let genie = genies[j];
        assert(gs.contains(gs[j as int]));
        let dat = match data.get(genie, matrix) {
            Some(d) => d,
            None => {
                proof { assert(false); }
                return;
            },
        };
        proof {
            let ii = choose|ii: int| 0 <= ii < names.len() && names[ii] == m;
            assert(data.entry(gs[j as int], names[ii]) == Some(*dat));
        }
        if genie == Genie::Cudss {
            buf.append(" ");
            buf.append(dat.matching.as_str());
            buf.append(" |");
        }
        push_result_cells(buf, data, genie, matrix, dat);
        j = j + 1;
    }
    buf.append("\n");
}

/// Generates a Markdown comparison table of the linear solvers.
///
/// One row per matrix and, per solver, the average total time without
/// outliers and the relative error (cuDSS also shows the matching algorithm).
/// Times and errors above the thresholds are **bold**; out-of-memory results
/// read `oom` and results without a time `n/a`.
pub fn performance_table_md(data: &AllResults) -> (r: Result<String, StrError>)
    requires
        data.runs_recorded(),
    ensures
        (data.genie_list().len() == 0 || data.matrix_list().len() == 0) ==> (r matches Err(e)
            && e@ == "results map must not be empty"@),
        (data.genie_list().len() > 0 && data.matrix_list().len() > 0) ==> (r matches Ok(t)
            && t@ == md_table(*data)),
        times_render_plainly(*data),
{
    if data.is_empty() {
        return Err("results map must not be empty");
    }
    let genies = data.genies();
    let matrices = data.matrices();
    let ghost gs = data.genie_list();
    let ghost names = data.matrix_list();
    let ng = genies.len();
    let nm = matrices.len();

    // header row: solver names spanning columns
    let mut buf = owned("| Matrix | Nrow | NNZ | Sym |");
    let mut j: usize = 0;
    while j < ng
        invariant
            j <= ng,
            ng == gs.len(),
            genies@ == gs,
            buf@ == "| Matrix | Nrow | NNZ | Sym |"@ + concat_n(md_header_cells(gs), j as nat),
        decreases ng - j,
    {
        push_header_cell(&mut buf, genies, j);
        j = j + 1;
    }
    buf.append("\n");
    let ghost header = buf@;
    assert(header == md_header(gs));

    // separator row with alignment
    buf.append("| --- | ---: | ---: | :-: |");
    let mut j: usize = 0;
    while j < ng
        invariant
            j <= ng,
            ng == gs.len(),
            genies@ == gs,
            buf@ == header + "| --- | ---: | ---: | :-: |"@ + concat_n(md_separator_cells(gs), j as nat),
        decreases ng - j,
    {
        if genies[j] == Genie::Cudss {
            buf.append(" ---: | ---: | ---: |");
        } else {
            buf.append(" ---: | ---: |");
        }
        j = j + 1;
    }
    buf.append("\n");
    assert(buf@ == md_header(gs) + md_separator(gs));

    // one row per matrix
    let mut i: usize = 0;
    while i < nm
        invariant
            i <= nm,
            ng == gs.len(),
            nm == names.len(),
            ng > 0,
            genies@ == gs,
            matrices@.map_values(|s: String| s@) == names,
            gs == data.genie_list(),
            names == data.matrix_list(),
            data.runs_recorded(),
            buf@ == md_header(gs) + md_separator(gs) + concat_n(md_rows(*data), i as nat),
            forall|jj: int, ii: int|
                0 <= jj < ng && 0 <= ii < i ==> time_renders_plainly(#[trigger] data.result_at(jj, ii)),
        decreases nm - i,
    {
        push_row(&mut buf, data, i);
        i = i + 1;
    }
    proof {
        assert forall|jj: int, ii: int| 0 <= jj < ng && 0 <= ii < nm implies time_renders_plainly(
            #[trigger] data.entry(gs[jj], names[ii])->0,
        ) by {
            assert(data.result_at(jj, ii) == data.entry(gs[jj], names[ii])->0);
        }
    }
    Ok(buf)
}


/// The texts that the table copies from the results hold no `c`: matrix names,
/// matching algorithms and relative errors.
pub open spec fn md_texts_avoid(data: AllResults, c: char) -> bool {
    &&& forall|i: int|
        0 <= i < data.matrix_list().len() ==> count_char(
            matrix_short_name(#[trigger] data.matrix_list()[i]),
            c,
        ) == 0
    &&& data.entries_satisfy(
        |s: RunStats|
            count_char(s.matching@, c) == 0 && count_char(s.relative_error_text@, c) == 0,
    )
}

#[verifier::spinoff_prover]
#[verifier::rlimit(40)]
proof fn lemma_pipe_literals_lines()
    ensures
        count_char("| Matrix | Nrow | NNZ | Sym |"@, '|') == 5,
        count_char("| --- | ---: | ---: | :-: |"@, '|') == 5,
        count_char(" ---: | ---: | ---: |"@, '|') == 3,
        count_char(" ---: | ---: |"@, '|') == 2,
{
    reveal_strlit("| Matrix | Nrow | NNZ | Sym |");
    reveal_strlit("| --- | ---: | ---: | :-: |");
    reveal_strlit(" ---: | ---: | ---: |");
    reveal_strlit(" ---: | ---: |");
    reveal_with_fuel(count_char, 30);
}

#[verifier::spinoff_prover]
#[verifier::rlimit(40)]
proof fn lemma_pipe_literals_cells()
    ensures
        count_char(" oom | oom |"@, '|') == 2,
        count_char(" n/a | n/a |"@, '|') == 2,
        count_char(" MA | "@, '|') == 1,
        count_char(" Time | "@, '|') == 1,
        count_char(" Error |"@, '|') == 1,
        count_char(" |"@, '|') == 1,
        count_char(" | "@, '|') == 1,
        count_char("| "@, '|') == 1,
{
    reveal_strlit(" oom | oom |");
    reveal_strlit(" n/a | n/a |");
    reveal_strlit(" MA | ");
    reveal_strlit(" Time | ");
    reveal_strlit(" Error |");
    reveal_strlit(" |");
    reveal_strlit(" | ");
    reveal_strlit("| ");
    reveal_with_fuel(count_char, 14);
}

#[verifier::spinoff_prover]
#[verifier::rlimit(40)]
proof fn lemma_pipe_literals_words()
    ensures
        count_char(" "@, '|') == 0,
        count_char("\n"@, '|') == 0,
        count_char("**"@, '|') == 0,
        count_char("No"@, '|') == 0,
        count_char("Yes"@, '|') == 0,
        count_char("Yes*"@, '|') == 0,
        count_char("cuDSS"@, '|') == 0,
        count_char("KLU"@, '|') == 0,
        count_char("MUMPS"@, '|') == 0,
        count_char("UMFPACK"@, '|') == 0,
{
    reveal_strlit(" ");
    reveal_strlit("\n");
    reveal_strlit("**");
    reveal_strlit("No");
    reveal_strlit("Yes");
    reveal_strlit("Yes*");
    reveal_strlit("cuDSS");
    reveal_strlit("KLU");
    reveal_strlit("MUMPS");
    reveal_strlit("UMFPACK");
    reveal_with_fuel(count_char, 8);
}

proof fn lemma_pipe_literals()
    ensures
        count_char("| Matrix | Nrow | NNZ | Sym |"@, '|') == 5,
        count_char("| --- | ---: | ---: | :-: |"@, '|') == 5,
        count_char(" ---: | ---: | ---: |"@, '|') == 3,
        count_char(" ---: | ---: |"@, '|') == 2,
        count_char(" oom | oom |"@, '|') == 2,
        count_char(" n/a | n/a |"@, '|') == 2,
        count_char(" MA | "@, '|') == 1,
        count_char(" Time | "@, '|') == 1,
        count_char(" Error |"@, '|') == 1,
        count_char(" |"@, '|') == 1,
        count_char(" | "@, '|') == 1,
        count_char("| "@, '|') == 1,
        count_char(" "@, '|') == 0,
        count_char("\n"@, '|') == 0,
        count_char("**"@, '|') == 0,
        count_char("No"@, '|') == 0,
        count_char("Yes"@, '|') == 0,
        count_char("Yes*"@, '|') == 0,
        count_char("cuDSS"@, '|') == 0,
        count_char("KLU"@, '|') == 0,
        count_char("MUMPS"@, '|') == 0,
        count_char("UMFPACK"@, '|') == 0,
{
    lemma_pipe_literals_lines();
    lemma_pipe_literals_cells();
    lemma_pipe_literals_words();
}

/// Number of columns of one solver: three for cuDSS, two otherwise.
pub open spec fn md_solver_columns(g: Genie) -> nat {
    if g == Genie::Cudss { 3 } else { 2 }
}

proof fn lemma_bold_pipes(t: Seq<char>, b: bool)
    ensures
        count_char(md_bold(t, b), '|') == count_char(t, '|'),
{
    lemma_pipe_literals();
    if b {
        lemma_count_char_concat("**"@ + t, "**"@, '|');
        lemma_count_char_concat("**"@, t, '|');
    }
}

proof fn lemma_header_cell_pipes(g: Genie)
    ensures
        count_char(md_header_cell(g), '|') == md_solver_columns(g),
        count_char(md_separator_cell(g), '|') == md_solver_columns(g),
{
    lemma_pipe_literals();
    let d = g.display_text();
    assert(count_char(d, '|') == 0);
    lemma_count_char_concat(" "@, d, '|');
    lemma_count_char_concat(" "@ + d, " Time | "@, '|');
    lemma_count_char_concat(" "@ + d + " Time | "@, d, '|');
    lemma_count_char_concat(" "@ + d + " Time | "@ + d, " Error |"@, '|');
    lemma_count_char_concat(" "@ + d, " MA | "@, '|');
    lemma_count_char_concat(" "@ + d + " MA | "@, d, '|');
    lemma_count_char_concat(" "@ + d + " MA | "@ + d, " Time | "@, '|');
    lemma_count_char_concat(" "@ + d + " MA | "@ + d + " Time | "@, d, '|');
    lemma_count_char_concat(" "@ + d + " MA | "@ + d + " Time | "@ + d, " Error |"@, '|');
}

proof fn lemma_solver_cells_pipes(g: Genie, s: RunStats)
    requires
        count_char(s.matching@, '|') == 0,
        count_char(s.relative_error_text@, '|') == 0,
        time_renders_plainly(s),
    ensures
        count_char(md_solver_cells(g, s), '|') == md_solver_columns(g),
{
    lemma_pipe_literals();
    let r = md_result_cells(s);
    if !s.out_of_memory && s.total_ifs != 0 {
        let t = time_without_outliers(s);
        let bt = md_bold(nanoseconds_text_with_digits(t, TIME_DIGITS), is_big_time(t));
        let be = md_bold(s.relative_error_text@, s.relative_error_is_big);
        lemma_count_duration(nanoseconds_text_with_digits(t, TIME_DIGITS), '|');
        lemma_bold_pipes(nanoseconds_text_with_digits(t, TIME_DIGITS), is_big_time(t));
        lemma_bold_pipes(s.relative_error_text@, s.relative_error_is_big);
        lemma_count_char_concat(" "@, bt, '|');
        lemma_count_char_concat(" "@ + bt, " | "@, '|');
        lemma_count_char_concat(" "@ + bt + " | "@, be, '|');
        lemma_count_char_concat(" "@ + bt + " | "@ + be, " |"@, '|');
    }
    assert(count_char(r, '|') == 2);
    if g == Genie::Cudss {
        lemma_count_char_concat(" "@, s.matching@, '|');
        lemma_count_char_concat(" "@ + s.matching@, " |"@, '|');
        lemma_count_char_concat(" "@ + s.matching@ + " |"@, r, '|');
    }
}

proof fn lemma_row_start_pipes(m: Seq<char>, d0: RunStats)
    requires
        count_char(matrix_short_name(m), '|') == 0,
    ensures
        count_char(md_row_start(m, d0), '|') == 5,
{
    lemma_pipe_literals();
    let a = matrix_short_name(m);
    let n1 = group_thousands(decimal(d0.nrow as nat));
    let n2 = group_thousands(decimal(d0.nnz_actual as nat));
    let sy = symmetry_text(d0.symmetric@, d0.positive_definite);
    assert(!is_digit_char('|'));
    lemma_count_decimal(d0.nrow as nat, '|');
    lemma_count_decimal(d0.nnz_actual as nat, '|');
    assert(count_char(sy, '|') == 0);
    lemma_count_char_concat("| "@, a, '|');
    lemma_count_char_concat("| "@ + a, " | "@, '|');
    lemma_count_char_concat("| "@ + a + " | "@, n1, '|');
    lemma_count_char_concat("| "@ + a + " | "@ + n1, " | "@, '|');
    lemma_count_char_concat("| "@ + a + " | "@ + n1 + " | "@, n2, '|');
    lemma_count_char_concat("| "@ + a + " | "@ + n1 + " | "@ + n2, " | "@, '|');
    lemma_count_char_concat("| "@ + a + " | "@ + n1 + " | "@ + n2 + " | "@, sy, '|');
    lemma_count_char_concat("| "@ + a + " | "@ + n1 + " | "@ + n2 + " | "@ + sy, " |"@, '|');
}

/// Every line of the Markdown table has as many columns as the header: the
/// separator line always, and each matrix row when the copied texts hold no `|`.
/// The times are written plainly in every table that `performance_table_md`
/// builds, as its `ensures` states.
pub proof fn lemma_md_table_columns(data: AllResults)
    requires
        md_texts_avoid(data, '|'),
        times_render_plainly(data),
    ensures
        count_char(md_separator(data.genie_list()), '|') == count_char(md_header(data.genie_list()), '|'),
        forall|i: int|
            0 <= i < data.matrix_list().len() ==> count_char(#[trigger] md_row(data, i), '|')
                == count_char(md_header(data.genie_list()), '|'),
{
    lemma_pipe_literals();
    let gs = data.genie_list();
    let n = gs.len();
    let hc = md_header_cells(gs);
    let sc = md_separator_cells(gs);
    assert forall|j: int| 0 <= j < n implies count_char(#[trigger] sc(j), '|') == count_char(hc(j), '|') by {
        lemma_header_cell_pipes(gs[j]);
    }
    lemma_count_char_concat_n(sc, hc, n, '|');
    lemma_count_char_concat("| Matrix | Nrow | NNZ | Sym |"@, concat_n(hc, n), '|');
    lemma_count_char_concat("| Matrix | Nrow | NNZ | Sym |"@ + concat_n(hc, n), "\n"@, '|');
    lemma_count_char_concat("| --- | ---: | ---: | :-: |"@, concat_n(sc, n), '|');
    lemma_count_char_concat("| --- | ---: | ---: | :-: |"@ + concat_n(sc, n), "\n"@, '|');
    assert forall|i: int| 0 <= i < data.matrix_list().len() implies count_char(#[trigger] md_row(data, i), '|')
        == count_char(md_header(gs), '|') by {
        let m = data.matrix_list()[i];
        let rc = md_row_cells(data, m);
        assert forall|j: int| 0 <= j < n implies count_char(#[trigger] rc(j), '|') == count_char(hc(j), '|') by {
            let s = data.entry(gs[j], m)->0;
            assert(count_char(s.matching@, '|') == 0 && count_char(s.relative_error_text@, '|') == 0
                && time_renders_plainly(s));
            lemma_solver_cells_pipes(gs[j], s);
            lemma_header_cell_pipes(gs[j]);
        }
        lemma_count_char_concat_n(rc, hc, n, '|');
        let start = md_row_start(m, data.entry(gs[0], m)->0);
        lemma_row_start_pipes(m, data.entry(gs[0], m)->0);
        lemma_count_char_concat(start, concat_n(rc, n), '|');
        lemma_count_char_concat(start + concat_n(rc, n), "\n"@, '|');
    }
}


#[verifier::spinoff_prover]
#[verifier::rlimit(40)]
proof fn lemma_newline_literals_lines()
    ensures
        count_char("| Matrix | Nrow | NNZ | Sym |"@, '\n') == 0,
        count_char("| --- | ---: | ---: | :-: |"@, '\n') == 0,
        count_char(" ---: | ---: | ---: |"@, '\n') == 0,
        count_char(" ---: | ---: |"@, '\n') == 0,
{
    reveal_strlit("| Matrix | Nrow | NNZ | Sym |");
    reveal_strlit("| --- | ---: | ---: | :-: |");
    reveal_strlit(" ---: | ---: | ---: |");
    reveal_strlit(" ---: | ---: |");
    reveal_with_fuel(count_char, 30);
}

#[verifier::spinoff_prover]
#[verifier::rlimit(40)]
proof fn lemma_newline_literals_cells()
    ensures
        count_char(" oom | oom |"@, '\n') == 0,
        count_char(" n/a | n/a |"@, '\n') == 0,
        count_char(" MA | "@, '\n') == 0,
        count_char(" Time | "@, '\n') == 0,
        count_char(" Error |"@, '\n') == 0,
        count_char(" |"@, '\n') == 0,
        count_char(" | "@, '\n') == 0,
        count_char("| "@, '\n') == 0,
{
    reveal_strlit(" oom | oom |");
    reveal_strlit(" n/a | n/a |");
    reveal_strlit(" MA | ");
    reveal_strlit(" Time | ");
    reveal_strlit(" Error |");
    reveal_strlit(" |");
    reveal_strlit(" | ");
    reveal_strlit("| ");
    reveal_with_fuel(count_char, 14);
}

#[verifier::spinoff_prover]
#[verifier::rlimit(40)]
proof fn lemma_newline_literals_words()
    ensures
        count_char(" "@, '\n') == 0,
        count_char("\n"@, '\n') == 1,
        count_char("**"@, '\n') == 0,
        count_char("No"@, '\n') == 0,
        count_char("Yes"@, '\n') == 0,
        count_char("Yes*"@, '\n') == 0,
        count_char("cuDSS"@, '\n') == 0,
        count_char("KLU"@, '\n') == 0,
        count_char("MUMPS"@, '\n') == 0,
        count_char("UMFPACK"@, '\n') == 0,
{
    reveal_strlit(" ");
    reveal_strlit("\n");
    reveal_strlit("**");
    reveal_strlit("No");
    reveal_strlit("Yes");
    reveal_strlit("Yes*");
    reveal_strlit("cuDSS");
    reveal_strlit("KLU");
    reveal_strlit("MUMPS");
    reveal_strlit("UMFPACK");
    reveal_with_fuel(count_char, 8);
}

proof fn lemma_newline_header_cell(g: Genie)
    ensures
        count_char(md_header_cell(g), '\n') == 0,
        count_char(md_separator_cell(g), '\n') == 0,
{
    lemma_newline_literals_lines();
    lemma_newline_literals_cells();
    lemma_newline_literals_words();
    let d = g.display_text();
    assert(count_char(d, '\n') == 0);
    lemma_count_char_concat(" "@, d, '\n');
    lemma_count_char_concat(" "@ + d, " Time | "@, '\n');
    lemma_count_char_concat(" "@ + d + " Time | "@, d, '\n');
    lemma_count_char_concat(" "@ + d + " Time | "@ + d, " Error |"@, '\n');
    lemma_count_char_concat(" "@ + d, " MA | "@, '\n');
    lemma_count_char_concat(" "@ + d + " MA | "@, d, '\n');
    lemma_count_char_concat(" "@ + d + " MA | "@ + d, " Time | "@, '\n');
    lemma_count_char_concat(" "@ + d + " MA | "@ + d + " Time | "@, d, '\n');
    lemma_count_char_concat(" "@ + d + " MA | "@ + d + " Time | "@ + d, " Error |"@, '\n');
}

proof fn lemma_newline_bold(t: Seq<char>, b: bool)
    ensures
        count_char(md_bold(t, b), '\n') == count_char(t, '\n'),
{
    lemma_newline_literals_words();
    if b {
        lemma_count_char_concat("**"@ + t, "**"@, '\n');
        lemma_count_char_concat("**"@, t, '\n');
    }
}

proof fn lemma_newline_solver_cells(g: Genie, s: RunStats)
    requires
        count_char(s.matching@, '\n') == 0,
        count_char(s.relative_error_text@, '\n') == 0,
        time_renders_plainly(s),
    ensures
        count_char(md_solver_cells(g, s), '\n') == 0,
{
    lemma_newline_literals_cells();
    lemma_newline_literals_words();
    let r = md_result_cells(s);
    if !s.out_of_memory && s.total_ifs != 0 {
        let t = time_without_outliers(s);
        let bt = md_bold(nanoseconds_text_with_digits(t, TIME_DIGITS), is_big_time(t));
        let be = md_bold(s.relative_error_text@, s.relative_error_is_big);
        lemma_count_duration(nanoseconds_text_with_digits(t, TIME_DIGITS), '\n');
        lemma_newline_bold(nanoseconds_text_with_digits(t, TIME_DIGITS), is_big_time(t));
        lemma_newline_bold(s.relative_error_text@, s.relative_error_is_big);
        lemma_count_char_concat(" "@, bt, '\n');
        lemma_count_char_concat(" "@ + bt, " | "@, '\n');
        lemma_count_char_concat(" "@ + bt + " | "@, be, '\n');
        lemma_count_char_concat(" "@ + bt + " | "@ + be, " |"@, '\n');
    }
    assert(count_char(r, '\n') == 0);
    if g == Genie::Cudss {
        lemma_count_char_concat(" "@, s.matching@, '\n');
        lemma_count_char_concat(" "@ + s.matching@, " |"@, '\n');
        lemma_count_char_concat(" "@ + s.matching@ + " |"@, r, '\n');
    }
}

proof fn lemma_newline_row_start(m: Seq<char>, d0: RunStats)
    requires
        count_char(matrix_short_name(m), '\n') == 0,
    ensures
        count_char(md_row_start(m, d0), '\n') == 0,
{
    lemma_newline_literals_cells();
    lemma_newline_literals_words();
    let a = matrix_short_name(m);
    let n1 = group_thousands(decimal(d0.nrow as nat));
    let n2 = group_thousands(decimal(d0.nnz_actual as nat));
    let sy = symmetry_text(d0.symmetric@, d0.positive_definite);
    assert(!is_digit_char('\n'));
    lemma_count_decimal(d0.nrow as nat, '\n');
    lemma_count_decimal(d0.nnz_actual as nat, '\n');
    assert(count_char(sy, '\n') == 0);
    lemma_count_char_concat("| "@, a, '\n');
    lemma_count_char_concat("| "@ + a, " | "@, '\n');
    lemma_count_char_concat("| "@ + a + " | "@, n1, '\n');
    lemma_count_char_concat("| "@ + a + " | "@ + n1, " | "@, '\n');
    lemma_count_char_concat("| "@ + a + " | "@ + n1 + " | "@, n2, '\n');
    lemma_count_char_concat("| "@ + a + " | "@ + n1 + " | "@ + n2, " | "@, '\n');
    lemma_count_char_concat("| "@ + a + " | "@ + n1 + " | "@ + n2 + " | "@, sy, '\n');
    lemma_count_char_concat("| "@ + a + " | "@ + n1 + " | "@ + n2 + " | "@ + sy, " |"@, '\n');
}

/// The Markdown table has one line per matrix after the header and the
/// separator, when the copied texts hold no line break. The times are written
/// plainly in every table that `performance_table_md` builds, as its `ensures`
/// states.
pub proof fn lemma_md_table_lines(data: AllResults)
    requires
        md_texts_avoid(data, '\n'),
        times_render_plainly(data),
    ensures
        count_char(md_table(data), '\n') == data.matrix_list().len() + 2,
        count_char(md_header(data.genie_list()), '\n') == 1,
        count_char(md_separator(data.genie_list()), '\n') == 1,
        forall|i: int|
            0 <= i < data.matrix_list().len() ==> count_char(#[trigger] md_row(data, i), '\n') == 1,
{
    lemma_newline_literals_lines();
    lemma_newline_literals_words();
    let gs = data.genie_list();
    let n = gs.len();
    let hc = md_header_cells(gs);
    let sc = md_separator_cells(gs);
    assert forall|j: int| 0 <= j < n implies count_char(#[trigger] hc(j), '\n') == 0 by {
        lemma_newline_header_cell(gs[j]);
    }
    assert forall|j: int| 0 <= j < n implies count_char(#[trigger] sc(j), '\n') == 0 by {
        lemma_newline_header_cell(gs[j]);
    }
    lemma_count_char_concat_n_uniform(hc, n, '\n', 0);
    lemma_count_char_concat_n_uniform(sc, n, '\n', 0);
    lemma_count_char_concat("| Matrix | Nrow | NNZ | Sym |"@, concat_n(hc, n), '\n');
    lemma_count_char_concat("| Matrix | Nrow | NNZ | Sym |"@ + concat_n(hc, n), "\n"@, '\n');
    lemma_count_char_concat("| --- | ---: | ---: | :-: |"@, concat_n(sc, n), '\n');
    lemma_count_char_concat("| --- | ---: | ---: | :-: |"@ + concat_n(sc, n), "\n"@, '\n');
    assert forall|i: int| 0 <= i < data.matrix_list().len() implies count_char(#[trigger] md_row(data, i), '\n')
        == 1 by {
        let m = data.matrix_list()[i];
        let rc = md_row_cells(data, m);
        assert forall|j: int| 0 <= j < n implies count_char(#[trigger] rc(j), '\n') == 0 by {
            let s = data.entry(gs[j], m)->0;
            assert(count_char(s.matching@, '\n') == 0 && count_char(s.relative_error_text@, '\n') == 0
                && time_renders_plainly(s));
            lemma_newline_solver_cells(gs[j], s);
        }
        lemma_count_char_concat_n_uniform(rc, n, '\n', 0);
        let start = md_row_start(m, data.entry(gs[0], m)->0);
        lemma_newline_row_start(m, data.entry(gs[0], m)->0);
        lemma_count_char_concat(start, concat_n(rc, n), '\n');
        lemma_count_char_concat(start + concat_n(rc, n), "\n"@, '\n');
    }
    let rows = md_rows(data);
    assert forall|i: int| 0 <= i < data.matrix_list().len() implies count_char(#[trigger] rows(i), '\n') == 1 by {
        assert(count_char(md_row(data, i), '\n') == 1);
    }
    lemma_count_char_concat_n_uniform(rows, data.matrix_list().len(), '\n', 1);
    lemma_count_char_concat(md_header(gs), md_separator(gs), '\n');
    lemma_count_char_concat(md_header(gs) + md_separator(gs), concat_n(rows, data.matrix_list().len()), '\n');
}

/// Every row of the Markdown table starts with the matrix's name and, taken
/// from the first solver's results for that matrix, the number of rows, the
/// number of non-zeros after summing duplicates (`nnz_actual`, not the stored
/// count `nnz`), both with thousands separators, and the symmetry: `No`,
/// `Yes*` when positive definiteness was declared, `Yes` otherwise.
pub proof fn lemma_md_row_leading_cells(data: AllResults)
    ensures
        forall|i: int|
            #![trigger md_row(data, i)]
            0 <= i < data.matrix_list().len() ==> {
                let d0 = data.result_at(0, i);
                let lead = "| "@ + matrix_short_name(data.matrix_list()[i]) + " | "@ + group_thousands(
                    decimal(d0.nrow as nat),
                ) + " | "@ + group_thousands(decimal(d0.nnz_actual as nat)) + " | "@ + (if d0.symmetric@
                    == "No"@ {
                    "No"@
                } else if d0.positive_definite {
                    "Yes*"@
                } else {
                    "Yes"@
                }) + " |"@;
                md_row(data, i).subrange(0, lead.len() as int) == lead
            },
{
    assert forall|i: int| #![trigger md_row(data, i)] 0 <= i < data.matrix_list().len() implies {
        let d0 = data.result_at(0, i);
        let lead = "| "@ + matrix_short_name(data.matrix_list()[i]) + " | "@ + group_thousands(
            decimal(d0.nrow as nat),
        ) + " | "@ + group_thousands(decimal(d0.nnz_actual as nat)) + " | "@ + (if d0.symmetric@ == "No"@ {
            "No"@
        } else if d0.positive_definite {
            "Yes*"@
        } else {
            "Yes"@
        }) + " |"@;
        md_row(data, i).subrange(0, lead.len() as int) == lead
    } by {
        let m = data.matrix_list()[i];
        let gs = data.genie_list();
        let d0 = data.result_at(0, i);
        let lead = md_row_start(m, d0);
        let tail = concat_n(md_row_cells(data, m), gs.len()) + "\n"@;
        assert(md_row(data, i) =~= lead + tail);
        assert((lead + tail).subrange(0, lead.len() as int) =~= lead);
    }
}

} // verus!
