//! Results of all solver runs, organised by solver and matrix.

use crate::constants::TIME_DIGITS;
use crate::external::{format_nanoseconds, nanoseconds_text, nanoseconds_text_with_digits};
use crate::sequences::{last_index_of, lemma_last_index_of, lemma_last_index_of_unique};
use crate::text::{duration_chars, owned, text_eq};
use crate::StrError;
use vstd::prelude::*;

verus! {

/// The sparse linear solvers that the benchmarks compare.
#[derive(Clone, Copy, Debug, PartialEq, Eq, Structural)]
pub enum Genie {
    Cudss,
    Klu,
    Mumps,
    Umfpack,
}

impl Genie {
    /// The solver's short lower-case name, as used in file names.
    pub open spec fn name_text(self) -> Seq<char> {
        match self {
            Genie::Cudss => "cudss"@,
            Genie::Klu => "klu"@,
            Genie::Mumps => "mumps"@,
            Genie::Umfpack => "umfpack"@,
        }
    }

    /// The solver's name as printed in table headers: `cuDSS`, `KLU`, and the
    /// upper-cased short name otherwise.
    pub open spec fn display_text(self) -> Seq<char> {
        match self {
            Genie::Cudss => "cuDSS"@,
            Genie::Klu => "KLU"@,
            Genie::Mumps => "MUMPS"@,
            Genie::Umfpack => "UMFPACK"@,
        }
    }

    /// Returns the short lower-case name.
    pub fn to_string(&self) -> (s: String)
        ensures
            s@ == self.name_text(),
    {
        match self {
            Genie::Cudss => owned("cudss"),
            Genie::Klu => owned("klu"),
            Genie::Mumps => owned("mumps"),
            Genie::Umfpack => owned("umfpack"),
        }
    }

    /// Returns the name printed in table headers.
    pub fn display_name(&self) -> (s: String)
        ensures
            s@ == self.display_text(),
    {
        match self {
            Genie::Cudss => owned("cuDSS"),
            Genie::Klu => owned("KLU"),
            Genie::Mumps => owned("MUMPS"),
            Genie::Umfpack => owned("UMFPACK"),
        }
    }
}

/// Statistics of the total times of the runs of one (solver, matrix) pair,
/// computed from the recorded times by the caller.
pub struct TimeSummary {
    /// Smallest total time (nanoseconds)
    pub min: u128,
    /// Median total time (nanoseconds)
    pub median: u128,
    /// Largest total time (nanoseconds)
    pub max: u128,
    /// The first outlier among the total times, if any (nanoseconds)
    pub first_outlier: Option<u128>,
    /// Number of outliers among the total times
    pub num_outliers: usize,
    /// Average of the total times that are not outliers (nanoseconds)
    pub mean_without_outliers: u128,
}

/// What the reports read of the results of one solver on one matrix.
pub struct RunStats {
    /// Name of the solver that produced the results
    pub solver: String,
    /// Whether the solver ran out of memory
    pub out_of_memory: bool,
    /// Name of the matrix
    pub matrix_name: String,
    /// Number of rows
    pub nrow: u64,
    /// Number of stored non-zero values, counting duplicates
    pub nnz: u64,
    /// Number of non-zero values after summing duplicates
    pub nnz_actual: u64,
    /// Symmetry information (`"No"` when not symmetric)
    pub symmetric: String,
    /// Whether positive definiteness was declared to the solver
    pub positive_definite: bool,
    /// Requested matching algorithm
    pub matching: String,
    /// Average total time (initialize + factorize + solve), nanoseconds
    pub total_ifs: u128,
    /// Total time of each run, nanoseconds
    pub total_ifs_array: Vec<u128>,
    /// The relative error in scientific notation with two decimals
    pub relative_error_text: String,
    /// Whether the relative error is above the highlighting threshold
    pub relative_error_is_big: bool,
    /// Statistics of the total times
    pub times: TimeSummary,
}

impl RunStats {
    /// The statistics of the times agree with one another and with the runs:
    /// a first outlier exactly when there is an outlier, and no more outliers
    /// than runs.
    pub open spec fn summary_consistent(self) -> bool {
        &&& (self.times.first_outlier is Some <==> self.times.num_outliers > 0)
        &&& self.times.num_outliers <= self.total_ifs_array.len()
    }
}

/// All results, one per (solver, matrix) pair.
///
/// The pair (`genies[j]`, `matrices[i]`) is answered by `results[j][i]`; when a
/// solver or a matrix occurs more than once, its last occurrence answers.
pub struct AllResults {
    genies: Vec<Genie>,
    matrices: Vec<String>,
    results: Vec<Vec<RunStats>>,
}

impl AllResults {
    #[verifier::type_invariant]
    spec fn well_formed(self) -> bool {
        &&& self.results.len() == self.genies.len()
        &&& forall|j: int| 0 <= j < self.results.len() ==> #[trigger] self.results[j].len() == self.matrices.len()
        &&& forall|j: int, i: int|
            0 <= j < self.results.len() && 0 <= i < self.results[j].len() ==> (
            #[trigger] self.results[j][i]).summary_consistent()
    }

    /// The solvers, in the order given.
    pub closed spec fn genie_list(self) -> Seq<Genie> {
        self.genies@
    }

    /// The matrix names, in the order given.
    pub closed spec fn matrix_list(self) -> Seq<Seq<char>> {
        self.matrices@.map_values(|m: String| m@)
    }

    /// The results for a (solver, matrix) pair, if the pair is held.
    pub closed spec fn entry(self, genie: Genie, matrix: Seq<char>) -> Option<RunStats> {
        let j = last_index_of(self.genies@, genie);
        let i = last_index_of(self.matrix_list(), matrix);
        if 0 <= j < self.results.len() && 0 <= i < self.results[j].len() {
            Some(self.results[j][i])
        } else {
            None
        }
    }

    /// The results of every held pair.
    pub open spec fn entries_satisfy(self, p: spec_fn(RunStats) -> bool) -> bool {
        forall|j: int, i: int|
            0 <= j < self.genie_list().len() && 0 <= i < self.matrix_list().len() ==> p(
                #[trigger] self.entry(self.genie_list()[j], self.matrix_list()[i])->0,
            )
    }

    /// Every pair whose times are summarised has at least one recorded run.
    pub open spec fn runs_recorded(self) -> bool {
        self.entries_satisfy(
            |s: RunStats| !s.out_of_memory && s.total_ifs != 0 ==> s.total_ifs_array.len() > 0,
        )
    }

    /// Collects the results. `results[j][i]` holds the results of `genies[j]`
    /// on `matrices[i]`, in the order in which they were read.
    pub fn new(genies: Vec<Genie>, matrices: Vec<String>, results: Vec<Vec<RunStats>>) -> (r: Self)
        requires
            results.len() == genies.len(),
            forall|j: int| 0 <= j < results.len() ==> #[trigger] results[j].len() == matrices.len(),
            forall|j: int, i: int|
                0 <= j < results.len() && 0 <= i < results[j].len() ==> (
                #[trigger] results[j][i]).summary_consistent(),
        ensures
            r.genie_list() == genies@,
            r.matrix_list() == matrices@.map_values(|m: String| m@),
            forall|genie: Genie, matrix: Seq<char>|
                #[trigger] r.entry(genie, matrix) == {
                    let j = last_index_of(genies@, genie);
                    let i = last_index_of(matrices@.map_values(|m: String| m@), matrix);
                    if j >= 0 && i >= 0 {
                        Some(results@[j]@[i])
                    } else {
                        None
                    }
                },
    {
        let r = AllResults { genies, matrices, results };
        proof {
            assert forall|genie: Genie, matrix: Seq<char>| #[trigger] r.entry(genie, matrix) == {
                let j = last_index_of(r.genies@, genie);
                let i = last_index_of(r.matrix_list(), matrix);
                if j >= 0 && i >= 0 {
                    Some(r.results@[j]@[i])
                } else {
                    None
                }
            } by {
                lemma_last_index_of(r.genies@, genie);
                lemma_last_index_of(r.matrix_list(), matrix);
            }
        }
        r
    }

    /// Returns the solvers.
    pub fn genies(&self) -> (g: &Vec<Genie>)
        ensures
            g@ == self.genie_list(),
    {
        &self.genies
    }

    /// Returns the matrix names.
    pub fn matrices(&self) -> (m: &Vec<String>)
        ensures
            m@.map_values(|s: String| s@) == self.matrix_list(),
    {
        &self.matrices
    }

    /// Whether no (solver, matrix) pair is held.
    pub fn is_empty(&self) -> (b: bool)
        ensures
            b == (self.genie_list().len() == 0 || self.matrix_list().len() == 0),
    {
        self.genies.len() == 0 || self.matrices.len() == 0
    }

    fn find_genie(&self, genie: Genie) -> (r: Option<usize>)
        ensures
            match r {
                Some(j) => j == last_index_of(self.genie_list(), genie),
                None => last_index_of(self.genie_list(), genie) == -1,
            },
    {
        let mut j = self.genies.len();
        while j > 0
            invariant
                j <= self.genies@.len(),
                forall|k: int| j <= k < self.genies@.len() ==> self.genies@[k] != genie,
            decreases j,
        {
            if self.genies[j - 1] == genie {
                proof {
                    lemma_last_index_of_unique(self.genies@, genie, j - 1);
                }
                return Some(j - 1);
            }
            j = j - 1;
        }
        proof {
            lemma_last_index_of(self.genies@, genie);
            if self.genies@.contains(genie) {
                let k = choose|k: int| 0 <= k < self.genies@.len() && self.genies@[k] == genie;
                assert(self.genies@[k] != genie);
            }
        }
        None
    }

    fn find_matrix(&self, matrix: &str) -> (r: Option<usize>)
        ensures
            match r {
                Some(i) => i == last_index_of(self.matrix_list(), matrix@),
                None => last_index_of(self.matrix_list(), matrix@) == -1,
            },
    {
        let ghost names = self.matrix_list();
        let mut i = self.matrices.len();
        while i > 0
            invariant
                names == self.matrix_list(),
                names.len() == self.matrices@.len(),
                i <= names.len(),
                forall|k: int| i <= k < names.len() ==> names[k] != matrix@,
            decreases i,
        {
            if text_eq(self.matrices[i - 1].as_str(), matrix) {
                proof {
                    lemma_last_index_of_unique(names, matrix@, i - 1);
                }
                return Some(i - 1);
            }
            i = i - 1;
        }
        proof {
            lemma_last_index_of(names, matrix@);
            if names.contains(matrix@) {
                let k = choose|k: int| 0 <= k < names.len() && names[k] == matrix@;
                assert(names[k] != matrix@);
            }
        }
        None
    }

    /// Returns the results of `genie` on `matrix`, if the pair is held.
    pub fn get(&self, genie: Genie, matrix: &str) -> (r: Option<&RunStats>)
        ensures
            match r {
                Some(s) => self.entry(genie, matrix@) == Some(*s),
                None => self.entry(genie, matrix@) is None,
            },
            (self.genie_list().contains(genie) && self.matrix_list().contains(matrix@)) ==> r is Some,
            r matches Some(s) ==> s.summary_consistent(),
    {
        proof {
            use_type_invariant(self);
            lemma_last_index_of(self.genie_list(), genie);
            lemma_last_index_of(self.matrix_list(), matrix@);
        }
        match self.find_genie(genie) {
            None => None,
            Some(j) => match self.find_matrix(matrix) {
                None => None,
                Some(i) => Some(&self.results[j][i]),
            },
        }
    }

    /// The results of the `j`-th solver on the `i`-th matrix.
    pub open spec fn result_at(self, j: int, i: int) -> RunStats {
        self.entry(self.genie_list()[j], self.matrix_list()[i])->0
    }

    /// Every two results that did not run out of memory have the same number
    /// of runs.
    pub open spec fn runs_consistent(self) -> bool {
        forall|j1: int, i1: int, j2: int, i2: int|
            0 <= j1 < self.genie_list().len() && 0 <= i1 < self.matrix_list().len() && 0 <= j2
                < self.genie_list().len() && 0 <= i2 < self.matrix_list().len() && !self.result_at(
                j1,
                i1,
            ).out_of_memory && !self.result_at(j2, i2).out_of_memory ==> #[trigger] self.result_at(
                j1,
                i1,
            ).total_ifs_array.len() == #[trigger] self.result_at(j2, i2).total_ifs_array.len()
    }

    /// Returns one row of a Markdown table with total-time statistics for the
    /// pair (`genie`, `matrix`): minimum, median, maximum and first outlier.
    pub fn get_statistics(&self, genie: Genie, matrix: &str) -> (r: Result<String, StrError>)
        requires
            self.entry(genie, matrix@) matches Some(s) ==> (s.out_of_memory
                || s.total_ifs_array.len() > 0),
        ensures
            match self.entry(genie, matrix@) {
                None => r matches Err(e) && e@ == "cannot get data for given (genie, matrix)"@,
                Some(s) => r matches Ok(row) && row@ == statistics_row(matrix@, s) && s.summary_consistent(),
            },
    {
        let dat = match self.get(genie, matrix) {
            Some(d) => d,
            None => {
                return Err("cannot get data for given (genie, matrix)");
            },
        };
        if dat.out_of_memory {
            let mut row = owned("| ");
            row.append(matrix);
            row.append(" | oom | oom | oom | oom |");
            return Ok(row);
        }
        let min = format_nanoseconds(dat.times.min);
        let median = format_nanoseconds(dat.times.median);
        let max = format_nanoseconds(dat.times.max);
        let outlier = match dat.times.first_outlier {
            Some(v) => format_nanoseconds(v),
            None => owned("n/a"),
        };
        Ok(statistics_row_text(matrix, min.as_str(), median.as_str(), max.as_str(), outlier.as_str()))
    }

    /// Returns the average total time of (`genie`, `matrix`) without the
    /// outliers: the recorded average when there is no outlier.
    pub fn recalculate_total_time_without_outliers(&self, genie: Genie, matrix: &str) -> (r: Result<u128, StrError>)
        requires
            self.entry(genie, matrix@) matches Some(s) ==> s.total_ifs_array.len() > 0,
        ensures
            match self.entry(genie, matrix@) {
                None => r matches Err(e) && e@ == "cannot get data for given (genie, matrix)"@,
                Some(s) => r == Ok::<u128, StrError>(time_without_outliers(s)) && s.summary_consistent(),
            },
    {
        match self.get(genie, matrix) {
            None => Err("cannot get data for given (genie, matrix)"),
            Some(dat) => {
                if dat.times.num_outliers == 0 {
                    Ok(dat.total_ifs)
                } else {
                    Ok(dat.times.mean_without_outliers)
                }
            },
        }
    }

    /// Checks that all results that did not run out of memory have the same
    /// number of runs.
    pub fn check_number_of_runs(&self) -> (r: Result<(), StrError>)
        ensures
            r is Ok <==> self.runs_consistent(),
            r matches Err(e) ==> e@ == "number of runs is not consistent"@,
    {
        proof {
            use_type_invariant(self);
        }
        let ghost names = self.matrix_list();
        let ghost gs = self.genie_list();
        let n_mat = self.matrices.len();
        let n_gen = self.genies.len();
        // the number of runs of the first result met that did not run out of memory
        let mut expected: Option<usize> = None;
        let ghost mut wj: int = 0;
        let ghost mut wi: int = 0;
        let mut j: usize = 0;
        while j < n_gen
            invariant
                j <= n_gen,
                n_mat == names.len(),
                n_gen == gs.len(),
                names == self.matrix_list(),
                gs == self.genie_list(),
                expected is None ==> forall|jj: int, ii: int|
                    0 <= jj < j && 0 <= ii < n_mat ==> (#[trigger] self.result_at(jj, ii)).out_of_memory,
                expected matches Some(n) ==> {
                    &&& 0 <= wj < n_gen && 0 <= wi < n_mat
                    &&& !self.result_at(wj, wi).out_of_memory
                    &&& self.result_at(wj, wi).total_ifs_array.len() == n
                    &&& forall|jj: int, ii: int|
                        0 <= jj < j && 0 <= ii < n_mat && !(#[trigger] self.result_at(
                            jj,
                            ii,
                        )).out_of_memory ==> self.result_at(jj, ii).total_ifs_array.len() == n
                },
            decreases n_gen - j,
        {
            let mut k: usize = 0;
            while k < n_mat
                invariant
                    j < n_gen,
                    k <= n_mat,
                    n_mat == names.len(),
                    n_gen == gs.len(),
                    names == self.matrix_list(),
                    gs == self.genie_list(),
                    expected is None ==> forall|jj: int, ii: int|
                        ((0 <= jj < j && 0 <= ii < n_mat) || (jj == j && 0 <= ii < k))
                            ==> (#[trigger] self.result_at(jj, ii)).out_of_memory,
                    expected matches Some(n) ==> {
                        &&& 0 <= wj < n_gen && 0 <= wi < n_mat
                        &&& !self.result_at(wj, wi).out_of_memory
                        &&& self.result_at(wj, wi).total_ifs_array.len() == n
                        &&& forall|jj: int, ii: int|
                            ((0 <= jj < j && 0 <= ii < n_mat) || (jj == j && 0 <= ii < k))
                                && !(#[trigger] self.result_at(jj, ii)).out_of_memory
                                ==> self.result_at(jj, ii).total_ifs_array.len() == n
                    },
                decreases n_mat - k,
            {
                proof {
                    assert(names[k as int] == self.matrices@[k as int]@);
                    assert(names.contains(names[k as int]));
                    assert(gs.contains(gs[j as int]));
                }
                let d = self.get(self.genies[j], self.matrices[k].as_str());
                match d {
                    Some(dat) => {
                        assert(*dat == self.result_at(j as int, k as int));
                        if !dat.out_of_memory {
                            match expected {
                                None => {
                                    expected = Some(dat.total_ifs_array.len());
                                    proof {
                                        wj = j as int;
                                        wi = k as int;
                                    }
                                },
                                Some(n) => {
                                    if dat.total_ifs_array.len() != n {
                                        proof {
                                            assert(self.result_at(wj, wi).total_ifs_array.len()
                                                != self.result_at(j as int, k as int).total_ifs_array.len());
                                        }
                                        return Err("number of runs is not consistent");
                                    }
                                },
                            }
                        }
                    },
                    None => {
                        proof { assert(false); }
                    },
                }
                k = k + 1;
            }
            j = j + 1;
        }
        proof {
            assert forall|j1: int, i1: int, j2: int, i2: int|
                0 <= j1 < gs.len() && 0 <= i1 < names.len() && 0 <= j2 < gs.len() && 0 <= i2
                    < names.len() && !self.result_at(j1, i1).out_of_memory && !self.result_at(
                    j2,
                    i2,
                ).out_of_memory implies #[trigger] self.result_at(j1, i1).total_ifs_array.len()
                == #[trigger] self.result_at(j2, i2).total_ifs_array.len() by {
                if expected is None {
                    assert(self.result_at(j1, i1).out_of_memory);
                }
            }
        }
        Ok(())
    }
}

/// The text of a duration, or `n/a` when there is none.
pub open spec fn optional_nanoseconds_text(t: Option<u128>) -> Seq<char> {
    match t {
        Some(v) => nanoseconds_text(v),
        None => "n/a"@,
    }
}

/// A row of the total-time statistics table from its rendered cells.
pub open spec fn statistics_cells(
    matrix: Seq<char>,
    min: Seq<char>,
    median: Seq<char>,
    max: Seq<char>,
    outlier: Seq<char>,
) -> Seq<char> {
    "| "@ + matrix + " | "@ + min + " | "@ + median + " | "@ + max + " | "@ + outlier + " |"@
}

/// Returns a row of the total-time statistics table from its rendered cells.
pub fn statistics_row_text(matrix: &str, min: &str, median: &str, max: &str, outlier: &str) -> (r: String)
    ensures
        r@ == statistics_cells(matrix@, min@, median@, max@, outlier@),
{
    let mut row = owned("| ");
    row.append(matrix);
    row.append(" | ");
    row.append(min);
    row.append(" | ");
    row.append(median);
    row.append(" | ");
    row.append(max);
    row.append(" | ");
    row.append(outlier);
    row.append(" |");
    row
}

/// One row of the total-time statistics table.
pub open spec fn statistics_row(matrix: Seq<char>, s: RunStats) -> Seq<char> {
    if s.out_of_memory {
        "| "@ + matrix + " | oom | oom | oom | oom |"@
    } else {
        statistics_cells(
            matrix,
            nanoseconds_text(s.times.min),
            nanoseconds_text(s.times.median),
            nanoseconds_text(s.times.max),
            optional_nanoseconds_text(s.times.first_outlier),
        )
    }
}

/// The average total time without outliers: the recorded average when no run
/// is an outlier, and the average of the other runs otherwise.
pub open spec fn time_without_outliers(s: RunStats) -> u128 {
    if s.times.num_outliers == 0 {
        s.total_ifs
    } else {
        s.times.mean_without_outliers
    }
}

/// The time that the comparison tables show for a result, when they show one,
/// is written with digits, `.` and unit letters only.
pub open spec fn time_renders_plainly(s: RunStats) -> bool {
    !s.out_of_memory && s.total_ifs != 0 ==> duration_chars(
        nanoseconds_text_with_digits(time_without_outliers(s), TIME_DIGITS),
    )
}

/// Every time that the comparison tables show is written with digits, `.` and
/// unit letters only.
pub open spec fn times_render_plainly(data: AllResults) -> bool {
    data.entries_satisfy(|s: RunStats| time_renders_plainly(s))
}

} // verus!
