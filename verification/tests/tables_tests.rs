use benchmark_russell::all_results::{AllResults, Genie, RunStats, TimeSummary};
use benchmark_russell::latex::call_latexmk::latex_document;
use benchmark_russell::latex::performance_table::performance_table;
use benchmark_russell::markdown::performance_table_md::{bold_md, performance_table_md};

fn run(solver: &str, matrix: &str, nrow: u64, nnz: u64, sym: &str, matching: &str, time: u128, err: &str, big_err: bool) -> RunStats {
    RunStats {
        solver: solver.to_string(),
        out_of_memory: false,
        matrix_name: matrix.to_string(),
        nrow,
        nnz,
        nnz_actual: nnz,
        symmetric: sym.to_string(),
        positive_definite: false,
        matching: matching.to_string(),
        total_ifs: time,
        total_ifs_array: vec![time; 10],
        relative_error_text: err.to_string(),
        relative_error_is_big: big_err,
        times: TimeSummary { min: time, median: time, max: time, first_outlier: None, num_outliers: 0, mean_without_outliers: time },
    }
}

fn oom(solver: &str, matrix: &str, nrow: u64, nnz: u64, sym: &str) -> RunStats {
    let mut r = run(solver, matrix, nrow, nnz, sym, "Auto", 0, "0.00e0", false);
    r.out_of_memory = true;
    r.total_ifs_array = vec![];
    r
}

struct Mat {
    name: &'static str,
    nrow: u64,
    nnz: u64,
    sym: &'static str,
    cudss: (&'static str, u128, &'static str),
    mumps: (u128, &'static str),
    umfpack: Option<(u128, &'static str)>,
}

fn readme_matrices() -> Vec<Mat> {
    vec![
        Mat { name: "bwm2000", nrow: 2000, nnz: 7996, sym: "No", cudss: ("Auto", 8_633_000, "8.21e-16"), mumps: (6_260_000, "7.50e-16"), umfpack: Some((713_627, "5.30e-16")) },
        Mat { name: "rdb5000", nrow: 5000, nnz: 29600, sym: "No", cudss: ("Auto", 30_087_000, "4.06e-13"), mumps: (7_442_000, "5.37e-13"), umfpack: Some((11_504_000, "1.93e-15")) },
        Mat { name: "Goodwin_040", nrow: 17922, nnz: 561677, sym: "No", cudss: ("MaxMinDiag", 71_095_000, "2.82e-12"), mumps: (106_490_000, "1.65e-11"), umfpack: Some((104_256_000, "6.62e-13")) },
        Mat { name: "fp", nrow: 7548, nnz: 848553, sym: "No", cudss: ("Auto", 155_376_000, "4.98e-9"), mumps: (164_943_000, "1.16e-20"), umfpack: Some((149_956_000, "2.57e-21")) },
        Mat { name: "helm2d03", nrow: 392257, nnz: 2741935, sym: "Yes", cudss: ("None", 1_239_000_000, "1.68e-10"), mumps: (1_440_000_000, "3.82e-10"), umfpack: Some((1_375_000_000, "2.37e-13")) },
        Mat { name: "pre2", nrow: 659033, nnz: 5959282, sym: "No", cudss: ("Auto", 3_428_000_000, "2.15e-14"), mumps: (4_383_000_000, "2.60e-14"), umfpack: None },
    ]
}

fn readme_results(genies: &[Genie]) -> AllResults {
    let mats = readme_matrices();
    let mut results = Vec::new();
    for g in genies {
        let mut row = Vec::new();
        for m in &mats {
            let r = match g {
                Genie::Cudss => run("cuDSS", m.name, m.nrow, m.nnz, m.sym, m.cudss.0, m.cudss.1, m.cudss.2, false),
                Genie::Mumps => run("MUMPS", m.name, m.nrow, m.nnz, m.sym, "Auto", m.mumps.0, m.mumps.1, false),
                _ => match m.umfpack {
                    Some((t, e)) => run("UMFPACK", m.name, m.nrow, m.nnz, m.sym, "Auto", t, e, false),
                    None => oom("UMFPACK", m.name, m.nrow, m.nnz, m.sym),
                },
            };
            row.push(r);
        }
        results.push(row);
    }
    AllResults::new(genies.to_vec(), mats.iter().map(|m| m.name.to_string()).collect(), results)
}

#[test]
fn performance_table_md_works() {
    let data = readme_results(&[Genie::Cudss, Genie::Mumps, Genie::Umfpack]);
    let md = performance_table_md(&data).unwrap();
    // verify header structure
    assert!(md.contains("| Matrix | Nrow | NNZ | Sym |"));
    assert!(md.contains("cuDSS MA | cuDSS Time | cuDSS Error |"));
    assert!(md.contains("MUMPS Time | MUMPS Error |"));
    assert!(md.contains("UMFPACK Time | UMFPACK Error |"));
    // verify separator row
    assert!(md.contains("| --- | ---: | ---: | :-: |"));
    // verify matrix entries appear
    for mat in &["bwm2000", "rdb5000", "Goodwin_040", "fp"] {
        assert!(md.contains(mat), "missing matrix {}", mat);
    }
    // verify ndim/nnz present (header col)
    assert!(md.contains("Nrow") && md.contains("NNZ"));
}

#[test]
fn performance_table_md_rows_match_the_readme() {
    let data = readme_results(&[Genie::Cudss, Genie::Mumps, Genie::Umfpack]);
    let md = performance_table_md(&data).unwrap();
    let lines: Vec<&str> = md.lines().collect();
    assert_eq!(lines.len(), 8);
    assert_eq!(lines[0], "| Matrix | Nrow | NNZ | Sym | cuDSS MA | cuDSS Time | cuDSS Error | MUMPS Time | MUMPS Error | UMFPACK Time | UMFPACK Error |");
    assert_eq!(lines[1], "| --- | ---: | ---: | :-: | ---: | ---: | ---: | ---: | ---: | ---: | ---: |");
    assert_eq!(lines[2], "| bwm2000 | 2,000 | 7,996 | No | Auto | 8.633ms | 8.21e-16 | 6.260ms | 7.50e-16 | 713.627µs | 5.30e-16 |");
    assert_eq!(lines[4], "| Goodwin_040 | 17,922 | 561,677 | No | MaxMinDiag | 71.095ms | 2.82e-12 | 106.490ms | 1.65e-11 | 104.256ms | 6.62e-13 |");
    assert_eq!(lines[6], "| helm2d03 | 392,257 | 2,741,935 | Yes | None | 1.239s | 1.68e-10 | 1.440s | 3.82e-10 | 1.375s | 2.37e-13 |");
    assert_eq!(lines[7], "| pre2 | 659,033 | 5,959,282 | No | Auto | 3.428s | 2.15e-14 | 4.383s | 2.60e-14 | oom | oom |");
    for line in &lines {
        assert_eq!(line.matches('|').count(), lines[0].matches('|').count());
    }
}

#[test]
fn performance_table_md_highlights_and_abbreviates() {
    let mut slow = run("MUMPS", "ASIC_680k", 682862, 3871773, "No", "Auto", 77_353_000_000, "8.09e-11", false);
    slow.times.num_outliers = 1;
    slow.times.mean_without_outliers = 77_353_000_000;
    slow.total_ifs = 80_000_000_000;
    let bad = run("MUMPS", "torso1", 116158, 8516500, "No", "Auto", 1_847_000_000, "3.75e-6", true);
    let mut cyl = run("MUMPS", "pres-cylin-3d-tet10-fine", 1711464, 133562188, "Yes", "Auto", 78_368_000_000, "5.09e-13", false);
    cyl.positive_definite = true;
    let mut none = run("MUMPS", "dielFilterV2real", 1157456, 48538952, "Yes", "Auto", 0, "0.00e0", false);
    none.total_ifs_array = vec![];
    let data = AllResults::new(
        vec![Genie::Mumps],
        vec!["ASIC_680k".to_string(), "torso1".to_string(), "pres-cylin-3d-tet10-fine".to_string(), "dielFilterV2real".to_string()],
        vec![vec![slow, bad, cyl, none]],
    );
    let md = performance_table_md(&data).unwrap();
    let lines: Vec<&str> = md.lines().collect();
    assert_eq!(lines[2], "| ASIC_680k | 682,862 | 3,871,773 | No | **1m17.353s** | 8.09e-11 |");
    assert_eq!(lines[3], "| torso1 | 116,158 | 8,516,500 | No | 1.847s | **3.75e-6** |");
    assert_eq!(lines[4], "| pres-cylin | 1,711,464 | 133,562,188 | Yes* | **1m18.368s** | 5.09e-13 |");
    assert_eq!(lines[5], "| dielFilterV2 | 1,157,456 | 48,538,952 | Yes | n/a | n/a |");
}

#[test]
fn performance_table_md_rejects_empty_results() {
    let data = AllResults::new(vec![Genie::Mumps], vec![], vec![vec![]]);
    assert_eq!(performance_table_md(&data), Err("results map must not be empty"));
    let data = AllResults::new(vec![], vec!["fp".to_string()], vec![]);
    assert_eq!(performance_table_md(&data), Err("results map must not be empty"));
}

#[test]
fn bold_md_works() {
    assert_eq!(bold_md("1.5s", true), "**1.5s**");
    assert_eq!(bold_md("1.5s", false), "1.5s");
}

#[test]
fn performance_table_works() {
    // generate the table for nine matrices and two solvers
    let data = readme_results(&[Genie::Umfpack, Genie::Mumps]);
    let buf = performance_table("Performance results.", "tab:1", &data, None, None, false, false).unwrap();
    assert!(buf.starts_with("\\begin{table}[!h]\n\\centering\n\\caption{Performance results.}\\label{tab:1}\n"));
    assert!(buf.contains("& & & & \\multicolumn{2}{c}{\\bfseries UMFPACK} & \\multicolumn{2}{c}{\\bfseries MUMPS} \\\\\n"));
    assert!(buf.contains("\\cmidrule(lr){5-6} \\cmidrule(lr){7-8}\n"));
    assert!(buf.contains("Goodwin\\_040& 17,922 & 561,677 & No & 104.256ms & 6.62e-13 & 106.490ms & 1.65e-11\\\\\n"));
    assert!(buf.contains("pre2& 659,033 & 5,959,282 & No& oom & oom & 4.383s & 2.60e-14\n\\\\\n"));
    assert!(buf.ends_with("\\end{NiceTabular}\n\\end{table}\n"));
}

#[test]
fn performance_table_exact_text() {
    let data = AllResults::new(
        vec![Genie::Mumps],
        vec!["bwm2000".to_string()],
        vec![vec![run("MUMPS", "bwm2000", 2000, 7996, "No", "Auto", 6_260_000, "7.50e-16", false)]],
    );
    let buf = performance_table("Cap", "tab:1", &data, None, Some("4"), false, false).unwrap();
    let expected = String::new()
        + "\\begin{table}[!h]\n\\centering\n\\caption{Cap}\\label{tab:1}\n\\small\n\\setlength{\\tabcolsep}{4pt}\n"
        + "\\sisetup{group-separator={,}, detect-weight=true, exponent-product={{\\mkern1mu{{\\times}}\\mkern1mu}}}\n"
        + "\\begin{NiceTabular}{\n   l\n   r % ndim\n   r % nnz\n   c % sym\n"
        + "   l                                                                          % mumps time\n"
        + "   S[table-format=1.2e-2, exponent-mode=scientific, print-zero-exponent=true] % mumps error\n"
        + " }[\ncell-space-limits=3pt,\ncode-before={\n   \\rowcolor{gray!35}{1,2}\n   \\rowcolors{3}{white}{gray!15}\n}]\n"
        + "& & & & \\multicolumn{2}{c}{\\bfseries MUMPS} \\\\\n"
        + "\\cmidrule(lr){5-6}\n"
        + "\\RowStyle{\\bfseries} Matrix & Nrow & NNZ & Sym & {\\shortstack[l]{Total\\\\Time}} & {\\shortstack[l]{Relative\\\\Error}}\\\\\n"
        + "bwm2000& 2,000 & 7,996 & No & 6.260ms & 7.50e-16\n\\\\\n"
        + "\\end{NiceTabular}\n\\end{table}\n";
    assert_eq!(buf, expected);
}

#[test]
fn performance_table_options_and_cudss() {
    let mut slow = run("cuDSS", "pres-cylin-3d-tet10-fine", 1711464, 133562188, "Yes", "None", 124_270_000_000, "8.89e-13", false);
    slow.positive_definite = true;
    let data = AllResults::new(
        vec![Genie::Cudss, Genie::Mumps],
        vec!["pres-cylin-3d-tet10-fine".to_string()],
        vec![vec![slow], vec![run("MUMPS", "pres-cylin-3d-tet10-fine", 1711464, 133562188, "Yes", "Auto", 1_000, "1.00e-3", true)]],
    );
    let buf = performance_table("C", "L", &data, Some("2.5"), None, true, true).unwrap();
    assert!(buf.contains("exponent-product={{\\!{{\\times}}\\!}}}\n"));
    assert!(buf.contains("cell-space-limits=2.5pt,"));
    assert!(buf.contains("}]\n\\toprule\n"));
    assert!(buf.contains("   l                                                                          % cudss extra\n"));
    assert!(buf.contains("\\multicolumn{3}{c}{\\bfseries cuDSS} & \\multicolumn{2}{c}{\\bfseries MUMPS} \\\\\n"));
    assert!(buf.contains("\\cmidrule(lr){5-7} \\cmidrule(lr){8-9}\n"));
    assert!(buf.contains("{\\shortstack[l]{Matching\\\\Algorithm}} & {\\shortstack[l]{Total\\\\Time}}"));
    assert!(buf.contains("{\\shortstack[l]{Relative\\\\Error}}\\\\\\midrule\n"));
    assert!(buf.contains("pres-cylin& 1,711,464 & 133,562,188 & Yes* & None & \\bfseries 2m4.270s & 8.89e-13 & 1.000µs & \\bfseries 1.00e-3\n\\\\\n"));
    assert!(buf.ends_with("\\bottomrule\n\\end{NiceTabular}\n\\end{table}\n"));
}

#[test]
fn latex_document_wraps_the_content() {
    let doc = latex_document("BODY", false, false);
    assert!(doc.starts_with("\\documentclass[12pt,a4paper]{article}\n\\usepackage{enumitem}\n"));
    assert!(doc.contains("   colorlinks=true,    % Turns off the default boxes, turns on colored text\n"));
    assert!(doc.contains("   \\plparsep=1pt\n\\title{Performance benchmarks using the Rust Scientific Library (Russell)}\n\\author{Dr Dorival Pedroso}\n"));
    assert!(doc.ends_with("\\maketitle\n\nBODY\n\\end{document}"));
    assert!(!doc.contains("geometry"));
    let doc = latex_document("X", true, true);
    assert!(doc.starts_with("\\documentclass[10pt,a4paper]{article}\n"));
    assert!(doc.contains("   \\plparsep=1pt\n\\usepackage[top=1cm,bottom=2cm,left=1cm,right=1cm]{geometry}\n\\title{"));
}

#[test]
fn performance_table_rows_have_as_many_cells_as_labels() {
    let data = readme_results(&[Genie::Cudss, Genie::Mumps, Genie::Umfpack]);
    let buf = performance_table("C", "L", &data, None, None, true, false).unwrap();
    let labels = buf.lines().find(|l| l.starts_with("\\RowStyle")).unwrap();
    let cells = labels.matches('&').count();
    assert_eq!(cells, 3 + 3 + 2 + 2);
    let mut rows = 0;
    for name in ["bwm2000", "rdb5000", "Goodwin\\_040", "fp", "helm2d03", "pre2"] {
        let row = buf.lines().find(|l| l.starts_with(&format!("{}&", name))).unwrap();
        assert_eq!(row.matches('&').count(), cells);
        rows += 1;
    }
    assert_eq!(rows, 6);
}
