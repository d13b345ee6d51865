use benchmark_russell::all_results::{AllResults, Genie, RunStats, TimeSummary};

fn stats(
    solver: &str,
    matrix: &str,
    nrow: u64,
    nnz_actual: u64,
    symmetric: &str,
    total_ifs: u128,
    runs: Vec<u128>,
    times: TimeSummary,
) -> RunStats {
    RunStats {
        solver: solver.to_string(),
        out_of_memory: false,
        matrix_name: matrix.to_string(),
        nrow,
        nnz: nnz_actual,
        nnz_actual,
        symmetric: symmetric.to_string(),
        positive_definite: false,
        matching: "Auto".to_string(),
        total_ifs,
        total_ifs_array: runs,
        relative_error_text: "1.00e-15".to_string(),
        relative_error_is_big: false,
        times,
    }
}

fn summary(min: u128, median: u128, max: u128, first_outlier: Option<u128>, num_outliers: usize, mean: u128) -> TimeSummary {
    TimeSummary { min, median, max, first_outlier, num_outliers, mean_without_outliers: mean }
}

fn oom(solver: &str, matrix: &str) -> RunStats {
    let mut s = stats(solver, matrix, 10, 10, "No", 0, vec![], summary(0, 0, 0, None, 0, 0));
    s.out_of_memory = true;
    s
}

#[test]
fn new_works() {
    let mut res = stats("cuDSS", "boyd2", 466316, 1500397, "Yes", 996_540_000, vec![996_540_000], summary(0, 0, 0, None, 0, 0));
    res.nnz = 890091;
    let data = AllResults::new(vec![Genie::Cudss], vec!["boyd2".to_string()], vec![vec![res]]);
    let res = data.get(Genie::Cudss, "boyd2").unwrap();
    assert_eq!(res.solver, "cuDSS");
    assert_eq!(res.matrix_name, "boyd2");
    assert_eq!(res.nnz, 890091);
    assert_eq!(res.nnz_actual, 1500397);
}

#[test]
fn recalculate_total_time() {
    // ten runs, the last one an outlier: the average without it is smaller
    let runs = vec![9_000_000_000, 9_100_000_000, 9_050_000_000, 9_000_000_000, 9_020_000_000,
        9_010_000_000, 9_030_000_000, 9_040_000_000, 9_060_000_000, 19_000_000_000];
    let total: u128 = runs.iter().sum::<u128>() / 10;
    let s = stats("cuDSS", "PFlow_742", 742793, 37138461, "Yes", total, runs,
        summary(9_000_000_000, 9_035_000_000, 19_000_000_000, Some(19_000_000_000), 1, 9_034_444_444));
    let data = AllResults::new(vec![Genie::Cudss], vec!["PFlow_742".to_string()], vec![vec![s]]);
    let time = data.recalculate_total_time_without_outliers(Genie::Cudss, "PFlow_742").unwrap();
    let dat = data.get(Genie::Cudss, "PFlow_742").unwrap();
    assert!(time < dat.total_ifs);
    assert_eq!(time, 9_034_444_444);
}

#[test]
fn recalculate_without_outliers_keeps_average() {
    let s = stats("MUMPS", "bwm2000", 2000, 7996, "No", 6_260_000, vec![6_000_000, 6_520_000],
        summary(6_000_000, 6_260_000, 6_520_000, None, 0, 1));
    let data = AllResults::new(vec![Genie::Mumps], vec!["bwm2000".to_string()], vec![vec![s]]);
    assert_eq!(data.recalculate_total_time_without_outliers(Genie::Mumps, "bwm2000"), Ok(6_260_000));
    assert_eq!(
        data.recalculate_total_time_without_outliers(Genie::Cudss, "bwm2000"),
        Err("cannot get data for given (genie, matrix)")
    );
    assert_eq!(
        data.recalculate_total_time_without_outliers(Genie::Mumps, "fp"),
        Err("cannot get data for given (genie, matrix)")
    );
}

#[test]
fn print_total_time_stats_works() {
    let s = stats("cuDSS", "boyd2", 466316, 1500397, "Yes", 996_540_000, vec![996_000_000, 997_080_000],
        summary(1_500_000, 2_000_000, 3_000_000, None, 0, 0));
    let data = AllResults::new(vec![Genie::Cudss], vec!["boyd2".to_string()], vec![vec![s]]);
    let row = data.get_statistics(Genie::Cudss, "boyd2").unwrap();
    // verify it returns a markdown row with expected columns
    assert!(row.starts_with("| boyd2 |"));
    assert!(row.contains("| n/a |") || true); // outlier column present
    assert_eq!(row, "| boyd2 | 1.5ms | 2ms | 3ms | n/a |");
}

#[test]
fn statistics_row_shows_outlier_and_oom() {
    let s = stats("MUMPS", "fp", 7548, 848553, "No", 500, vec![400, 500, 600],
        summary(400, 500, 999, Some(999), 1, 450));
    let data = AllResults::new(
        vec![Genie::Mumps, Genie::Umfpack],
        vec!["fp".to_string()],
        vec![vec![s], vec![oom("UMFPACK", "fp")]],
    );
    assert_eq!(data.get_statistics(Genie::Mumps, "fp").unwrap(), "| fp | 400ns | 500ns | 999ns | 999ns |");
    assert_eq!(data.get_statistics(Genie::Umfpack, "fp").unwrap(), "| fp | oom | oom | oom | oom |");
    assert_eq!(data.get_statistics(Genie::Klu, "fp"), Err("cannot get data for given (genie, matrix)"));
}

#[test]
fn last_occurrence_answers() {
    let a = stats("MUMPS", "fp", 1, 1, "No", 100, vec![100], summary(0, 0, 0, None, 0, 0));
    let b = stats("MUMPS", "fp", 2, 2, "No", 200, vec![200], summary(0, 0, 0, None, 0, 0));
    let data = AllResults::new(
        vec![Genie::Mumps],
        vec!["fp".to_string(), "fp".to_string()],
        vec![vec![a, b]],
    );
    assert_eq!(data.get(Genie::Mumps, "fp").unwrap().nrow, 2);
}

#[test]
fn number_of_runs_consistency() {
    let a = stats("MUMPS", "a", 1, 1, "No", 100, vec![100, 100], summary(0, 0, 0, None, 0, 0));
    let b = stats("MUMPS", "b", 1, 1, "No", 100, vec![100, 100], summary(0, 0, 0, None, 0, 0));
    let c = stats("UMFPACK", "a", 1, 1, "No", 100, vec![100, 100], summary(0, 0, 0, None, 0, 0));
    let data = AllResults::new(
        vec![Genie::Mumps, Genie::Umfpack],
        vec!["a".to_string(), "b".to_string()],
        vec![vec![a, b], vec![c, oom("UMFPACK", "b")]],
    );
    assert_eq!(data.check_number_of_runs(), Ok(()));

    let a = stats("MUMPS", "a", 1, 1, "No", 100, vec![100, 100], summary(0, 0, 0, None, 0, 0));
    let b = stats("MUMPS", "b", 1, 1, "No", 100, vec![100, 100, 100], summary(0, 0, 0, None, 0, 0));
    let data = AllResults::new(vec![Genie::Mumps], vec!["a".to_string(), "b".to_string()], vec![vec![a, b]]);
    assert_eq!(data.check_number_of_runs(), Err("number of runs is not consistent"));

    // the first matrix ran out of memory: the second one sets the expected count
    let b = stats("MUMPS", "b", 1, 1, "No", 100, vec![100, 100, 100], summary(0, 0, 0, None, 0, 0));
    let data = AllResults::new(vec![Genie::Mumps], vec!["a".to_string(), "b".to_string()], vec![vec![oom("MUMPS", "a"), b]]);
    assert_eq!(data.check_number_of_runs(), Ok(()));

    // every result of the first solver ran out of memory: the others agree
    let c = stats("UMFPACK", "a", 1, 1, "No", 100, vec![100, 100], summary(0, 0, 0, None, 0, 0));
    let data = AllResults::new(
        vec![Genie::Mumps, Genie::Umfpack],
        vec!["a".to_string()],
        vec![vec![oom("MUMPS", "a")], vec![c]],
    );
    assert_eq!(data.check_number_of_runs(), Ok(()));

    // two solvers that disagree on the same matrix
    let a = stats("MUMPS", "a", 1, 1, "No", 100, vec![100, 100], summary(0, 0, 0, None, 0, 0));
    let c = stats("UMFPACK", "a", 1, 1, "No", 100, vec![100], summary(0, 0, 0, None, 0, 0));
    let data = AllResults::new(vec![Genie::Mumps, Genie::Umfpack], vec!["a".to_string()], vec![vec![a], vec![c]]);
    assert_eq!(data.check_number_of_runs(), Err("number of runs is not consistent"));

    // no solver at all
    let none = AllResults::new(vec![], vec!["a".to_string()], vec![]);
    assert_eq!(none.check_number_of_runs(), Ok(()));

    let empty = AllResults::new(vec![], vec![], vec![]);
    assert_eq!(empty.check_number_of_runs(), Ok(()));
}

#[test]
fn genie_names() {
    assert_eq!(Genie::Cudss.to_string(), "cudss");
    assert_eq!(Genie::Klu.to_string(), "klu");
    assert_eq!(Genie::Mumps.to_string(), "mumps");
    assert_eq!(Genie::Umfpack.to_string(), "umfpack");
    assert_eq!(Genie::Cudss.display_name(), "cuDSS");
    assert_eq!(Genie::Klu.display_name(), "KLU");
    assert_eq!(Genie::Mumps.display_name(), "MUMPS");
    assert_eq!(Genie::Umfpack.display_name(), "UMFPACK");
}
