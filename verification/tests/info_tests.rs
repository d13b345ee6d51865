use benchmark_russell::matrix_info::{MatricesInfo, MatrixInfo};
use benchmark_russell::matrix_table_md::matrix_table_md;
use benchmark_russell::util::{
    driver_version_from_output, get_description_for_matching_algorithm, get_key_for_matching_algorithm,
    get_matrix_list_latex, get_matrix_list_md,
};

fn record(name: &str, group: &str, rows: u64, pattern: u64, sym: &str, pd: Option<&str>, description: Option<&str>) -> MatrixInfo {
    MatrixInfo {
        name: name.to_string(),
        group: group.to_string(),
        num_rows: rows,
        num_cols: rows,
        nonzeros: pattern,
        pattern_entries: pattern,
        kind: "Test Problem".to_string(),
        symmetric: sym.to_string(),
        positive_definite: pd.map(|s| s.to_string()),
        data_type: "real".to_string(),
        description: description.map(|s| s.to_string()),
    }
}

fn sample_info() -> MatricesInfo {
    MatricesInfo::new(vec![
        record("bwm2000", "Bai", 2000, 7996, "No", Some("no"),
            Some("Brusselator wave model in transport interaction of chemical solutions (1992)")),
        record("Goodwin_040", "Goodwin", 17922, 561677, "No", Some("no"),
            Some("Finite element, Navier-Stokes & other transport equations (2018)")),
        record("pres-cylin-3d-tet10-fine", "Pedroso", 1711464, 133562188, "Yes", Some("yes"), None),
        record("oilpan", "GHS_psdef", 73752, 3597188, "Yes", None, Some("Structural problem, 100% #1")),
    ])
}

#[test]
fn matrix_table_md_works() {
    let md = matrix_table_md(&sample_info(), &["bwm2000", "Goodwin_040"]);
    // header
    assert!(md.contains("| Matrix | Nrow | NNZ | Sym |"));
    assert!(md.contains("| --- | ---: | ---: | :-: |"));
    // bwm2000
    assert!(md.contains("| bwm2000 | 2,000 | 7,996 | No |"));
    // Goodwin_040
    assert!(md.contains("| Goodwin_040 | 17,922 | 561,677 | No |"));
}

#[test]
fn matrix_table_md_handles_pres_cylin() {
    let md = matrix_table_md(&sample_info(), &["pres-cylin-3d-tet10-fine"]);
    assert!(md.contains("| pres-cylin | 1,711,464 | 133,562,188 | Yes* |"));
}

#[test]
fn matrix_table_md_exact_text() {
    let md = matrix_table_md(&sample_info(), &["oilpan", "unknown_matrix"]);
    assert_eq!(
        md,
        "| Matrix | Nrow | NNZ | Sym |\n| --- | ---: | ---: | :-: |\n| oilpan | 73,752 | 3,597,188 | Yes |\n| unknown_matrix | — | — | — |\n"
    );
    assert_eq!(matrix_table_md(&sample_info(), &[]), "| Matrix | Nrow | NNZ | Sym |\n| --- | ---: | ---: | :-: |\n");
}

#[test]
fn matrices_info_keeps_the_last_record_of_a_name() {
    let info = MatricesInfo::new(vec![
        record("fp", "MKS", 1, 1, "No", None, None),
        record("xenon1", "Ronis", 48600, 1181120, "No", None, None),
        record("fp", "MKS", 7548, 848553, "No", None, None),
    ]);
    assert_eq!(info.len(), 2);
    assert!(!info.is_empty());
    assert_eq!(info.get("fp").unwrap().num_rows, 7548);
    assert_eq!(info.get("xenon1").unwrap().group, "Ronis");
    assert!(info.get("twotone").is_none());
    assert!(MatricesInfo::new(vec![]).is_empty());
}

#[test]
fn matrix_list_md_works() {
    let md = get_matrix_list_md(&sample_info(), &["bwm2000", "pres-cylin", "oilpan"]);
    let lines: Vec<&str> = md.lines().collect();
    assert_eq!(lines.len(), 3);
    assert_eq!(lines[0], " 1. **bwm2000** (Bai) -- Brusselator wave model in transport interaction of chemical solutions (1992)");
    assert_eq!(lines[1], " 2. **pres-cylin** (Pedroso) -- FEM stiffness matrix of a pressurized cylinder (Tet10 with 1,711,464 DOF). Not from the Collection. From [Pedroso DM (2024) Caveats of three direct linear solvers for finite element analyses](https://onlinelibrary.wiley.com/doi/10.1002/nme.7545).");
    assert_eq!(lines[2], " 3. **oilpan** (GHS_psdef) -- Structural problem, 100% #1");
    let md = get_matrix_list_md(&sample_info(), &["pres-cylin-3d-tet10-fine"]);
    assert_eq!(md, " 1. **pres-cylin-3d-tet10-fine** (Pedroso) -- No description available.\n");
}

#[test]
fn matrix_list_latex_works() {
    let tex = get_matrix_list_latex(&sample_info(), &["Goodwin_040", "oilpan", "pres-cylin"]);
    let lines: Vec<&str> = tex.lines().collect();
    assert_eq!(lines.len(), 3);
    assert_eq!(lines[0], "  \\item[$\\text{1}$] \\texttt{Goodwin\\_040} (Goodwin) -- Finite element, Navier-Stokes \\& other transport equations (2018)");
    assert_eq!(lines[1], "  \\item[$\\text{2}$] \\texttt{oilpan} (GHS\\_psdef) -- Structural problem, 100\\% \\#1");
    assert_eq!(lines[2], "  \\item[$\\text{3}$] \\texttt{pres-cylin} (Pedroso) -- FEM stiffness matrix of a pressurized cylinder (Tet10 with 1,711,464 DOF). Not from the Collection. From \\href{https://onlinelibrary.wiley.com/doi/10.1002/nme.7545}{Pedroso DM (2024) Caveats of three direct linear solvers for finite element analyses}.");
    let tex = get_matrix_list_latex(&sample_info(), &["pres-cylin-3d-tet10-fine"]);
    assert_eq!(tex, "  \\item[$\\text{1}$] \\texttt{pres-cylin-3d-tet10-fine} (Pedroso) -- No description available.\n");
}

#[test]
fn matching_algorithm_keys_and_descriptions() {
    let names = ["None", "Auto", "MaxDiagCount", "MaxMinDiag", "MaxMinDiagAlt", "MaxDiagSum", "MaxDiagProduct"];
    let keys = ["a", "b", "c", "d", "e", "f", "g"];
    for (n, k) in names.iter().zip(keys.iter()) {
        assert_eq!(get_key_for_matching_algorithm(n), *k);
        assert_ne!(get_description_for_matching_algorithm(n), "Unknown");
    }
    assert_eq!(get_key_for_matching_algorithm("auto"), "h");
    assert_eq!(get_description_for_matching_algorithm("auto"), "Unknown");
    assert_eq!(get_description_for_matching_algorithm("None"), "No matching algorithm (default).");
    assert_eq!(get_description_for_matching_algorithm("Auto"), "Automatic selection.");
    assert_eq!(
        get_description_for_matching_algorithm("MaxDiagProduct"),
        "Column permutation to maximize the product of diagonal entries."
    );
}

#[test]
fn get_nvidia_driver_version_works() {
    let version = driver_version_from_output(true, "595.71.05\n").unwrap();
    assert!(!version.is_empty());
    assert!(version.contains('.'));
    assert_eq!(version, "595.71.05");
}

#[test]
fn driver_version_errors() {
    assert_eq!(driver_version_from_output(false, "595.71.05"), Err("nvidia-smi command failed"));
    assert_eq!(driver_version_from_output(true, " \n\t "), Err("nvidia driver version not found"));
    assert_eq!(driver_version_from_output(true, "\u{a0} 1.2 \u{3000}"), Ok("1.2".to_string()));
}

#[test]
fn matrices_info_works() {
    let bwm2000 = MatrixInfo {
        name: "bwm2000".to_string(),
        group: "Bai".to_string(),
        num_rows: 2000,
        num_cols: 2000,
        nonzeros: 7996,
        pattern_entries: 7996,
        kind: "Chemical Process Simulation Problem".to_string(),
        symmetric: "No".to_string(),
        positive_definite: Some("no".to_string()),
        data_type: "real".to_string(),
        description: Some("Brusselator wave model in transport interaction of chemical solutions (1992)".to_string()),
    };
    let flan = MatrixInfo {
        name: "Flan_1565".to_string(),
        group: "Janna".to_string(),
        num_rows: 1564794,
        num_cols: 1564794,
        nonzeros: 114165372,
        pattern_entries: 117406044,
        kind: "Structural Problem".to_string(),
        symmetric: "Yes".to_string(),
        positive_definite: Some("yes".to_string()),
        data_type: "real".to_string(),
        description: Some("3D model of a steel flange, hexahedral finite elements".to_string()),
    };
    let info = MatricesInfo::new(vec![bwm2000, flan]);
    assert!(!info.is_empty(), "should have at least one entry");

    // check first entry (bwm2000)
    let bwm = info.get("bwm2000").expect("bwm2000 not found");
    assert_eq!(bwm.group, "Bai");
    assert_eq!(bwm.num_rows, 2000);
    assert_eq!(bwm.num_cols, 2000);
    assert_eq!(bwm.nonzeros, 7996);
    assert_eq!(bwm.pattern_entries, 7996);
    assert_eq!(bwm.kind, "Chemical Process Simulation Problem");
    assert_eq!(bwm.symmetric, "No");
    assert_eq!(bwm.positive_definite.as_deref(), Some("no"));
    assert_eq!(bwm.data_type, "real");
    assert_eq!(
        bwm.description.as_deref(),
        Some("Brusselator wave model in transport interaction of chemical solutions (1992)")
    );

    // check last entry (Flan_1565)
    let flan = info.get("Flan_1565").expect("Flan_1565 not found");
    assert_eq!(flan.group, "Janna");
    assert_eq!(flan.num_rows, 1564794);
    assert_eq!(flan.symmetric, "Yes");
    assert_eq!(flan.positive_definite.as_deref(), Some("yes"));
}

#[test]
fn matrix_lists_join_and_have_one_line_per_matrix() {
    let info = sample_info();
    let both = ["oilpan", "pres-cylin-3d-tet10-fine-nu499"];
    let tex_ab = get_matrix_list_latex(&info, &both);
    let tex_a = get_matrix_list_latex(&info, &both[..1]);
    let tex_b = get_matrix_list_latex(&info, &both[1..]);
    assert_eq!(tex_ab, tex_a.clone() + &tex_b.replacen("\\text{1}", "\\text{2}", 1));
    let md_ab = get_matrix_list_md(&info, &both);
    let md_a = get_matrix_list_md(&info, &both[..1]);
    let md_b = get_matrix_list_md(&info, &both[1..]);
    assert_eq!(md_ab, md_a + &md_b.replacen(" 1. ", " 2. ", 1));
    assert_eq!(tex_ab.matches('\n').count(), 2);
    assert_eq!(md_ab.matches('\n').count(), 2);
    assert!(tex_ab.ends_with('\n') && md_ab.ends_with('\n'));
    assert_eq!(get_matrix_list_md(&info, &[]), "");
    assert_eq!(get_matrix_list_latex(&info, &[]), "");
}
