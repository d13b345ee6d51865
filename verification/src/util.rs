//! Matching-algorithm keys, matrix listings and the driver version.

use crate::matrix_info::{MatricesInfo, MatrixInfo};
use crate::sequences::{
    concat_n, count_char, lemma_concat_n_ext, lemma_concat_n_split, lemma_count_char_concat,
    lemma_count_char_concat_n_uniform,
};
use crate::text::{
    decimal, escape_latex, escape_latex_text, escape_underscores, escape_underscores_text, is_digit_char,
    lemma_count_decimal, lemma_count_escapes, owned, push_decimal, text_eq, trim, trim_text,
};
use crate::StrError;
use vstd::prelude::*;

verus! {

/// The sort key of a cuDSS matching algorithm: `a` to `g` for the known
/// algorithms in the order of the cuDSS documentation, `h` for anything else.
pub open spec fn matching_key(matching: Seq<char>) -> Seq<char> {
    if matching == "None"@ {
        "a"@
    } else if matching == "Auto"@ {
        "b"@
    } else if matching == "MaxDiagCount"@ {
        "c"@
    } else if matching == "MaxMinDiag"@ {
        "d"@
    } else if matching == "MaxMinDiagAlt"@ {
        "e"@
    } else if matching == "MaxDiagSum"@ {
        "f"@
    } else if matching == "MaxDiagProduct"@ {
        "g"@
    } else {
        "h"@
    }
}

/// A one-sentence description of a cuDSS matching algorithm, `Unknown` for
/// anything else.
pub open spec fn matching_description(matching: Seq<char>) -> Seq<char> {
    if matching == "None"@ {
        "No matching algorithm (default)."@
    } else if matching == "Auto"@ {
        "Automatic selection."@
    } else if matching == "MaxDiagCount"@ {
        "Column permutation to maximize the number of diagonal entries."@
    } else if matching == "MaxMinDiag"@ {
        "Column permutation to maximize the smallest value on the diagonal."@
    } else if matching == "MaxMinDiagAlt"@ {
        "Alternate algorithm to maximize the smallest value on the diagonal."@
    } else if matching == "MaxDiagSum"@ {
        "Column permutation to maximize the sum of diagonal entries."@
    } else if matching == "MaxDiagProduct"@ {
        "Column permutation to maximize the product of diagonal entries."@
    } else {
        "Unknown"@
    }
}

/// The matching algorithms that cuDSS knows.
pub open spec fn is_known_matching(matching: Seq<char>) -> bool {
    ||| matching == "None"@
    ||| matching == "Auto"@
    ||| matching == "MaxDiagCount"@
    ||| matching == "MaxMinDiag"@
    ||| matching == "MaxMinDiagAlt"@
    ||| matching == "MaxDiagSum"@
    ||| matching == "MaxDiagProduct"@
}

/// Returns the sort key of a cuDSS matching algorithm.
pub fn get_key_for_matching_algorithm(matching: &str) -> (r: String)
    ensures
        r@ == matching_key(matching@),
{
    // No matching algorithm (default): CUDSS_MATCHING_ALG_NONE
    if text_eq(matching, "None") {
        return owned("a");
    }
    // Automatic selection, same as CUDSS_MATCHING_ALG_MAX_DIAG_PRODUCT: CUDSS_MATCHING_ALG_AUTO
    if text_eq(matching, "Auto") {
        return owned("b");
    }
    // Maximize the number of diagonal entries (MC64 JOB=1): CUDSS_MATCHING_ALG_MAX_DIAG_COUNT
    if text_eq(matching, "MaxDiagCount") {
        return owned("c");
    }
    // Maximize the smallest value on the diagonal (MC64 JOB=2): CUDSS_MATCHING_ALG_MAX_MIN_DIAG
    if text_eq(matching, "MaxMinDiag") {
        return owned("d");
    }
    // Alternate algorithm for the same (MC64 JOB=3): CUDSS_MATCHING_ALG_MAX_MIN_DIAG_ALT
    if text_eq(matching, "MaxMinDiagAlt") {
        return owned("e");
    }
    // Maximize the sum of diagonal entries (MC64 JOB=4): CUDSS_MATCHING_ALG_MAX_DIAG_SUM
    if text_eq(matching, "MaxDiagSum") {
        return owned("f");
    }
    // Maximize the product of diagonal entries, with scaling (MC64 JOB=5):
    // CUDSS_MATCHING_ALG_MAX_DIAG_PRODUCT
    if text_eq(matching, "MaxDiagProduct") {
        return owned("g");
    }
    owned("h")
}

/// Returns a one-sentence description of a cuDSS matching algorithm.
pub fn get_description_for_matching_algorithm(matching: &str) -> (r: String)
    ensures
        r@ == matching_description(matching@),
{
    if text_eq(matching, "None") {
        return owned("No matching algorithm (default).");
    }
    if text_eq(matching, "Auto") {
        return owned("Automatic selection.");
    }
    if text_eq(matching, "MaxDiagCount") {
        return owned("Column permutation to maximize the number of diagonal entries.");
    }
    if text_eq(matching, "MaxMinDiag") {
        return owned("Column permutation to maximize the smallest value on the diagonal.");
    }
    if text_eq(matching, "MaxMinDiagAlt") {
        return owned("Alternate algorithm to maximize the smallest value on the diagonal.");
    }
    if text_eq(matching, "MaxDiagSum") {
        return owned("Column permutation to maximize the sum of diagonal entries.");
    }
    if text_eq(matching, "MaxDiagProduct") {
        return owned("Column permutation to maximize the product of diagonal entries.");
    }
    owned("Unknown")
}

/// The description of a matrix, or a note that there is none.
pub open spec fn description_or_default(m: MatrixInfo) -> Seq<char> {
    match m.description {
        Some(d) => d@,
        None => "No description available."@,
    }
}

/// What the lists say of the pressurized cylinder, which is not from the
/// SuiteSparse collection.
pub open spec fn cylinder_text() -> Seq<char> {
    "FEM stiffness matrix of a "@ + "pressurized cylinder (Tet10 "@ + "with 1,711,464 DOF). Not from "@
        + "the Collection. From "@
}

/// The title of the paper that describes the pressurized cylinder.
pub open spec fn paper_title() -> Seq<char> {
    "Pedroso DM (2024) Caveats of "@ + "three direct linear solvers "@ + "for finite element analyses"@
}

/// The address of the paper that describes the pressurized cylinder.
pub open spec fn paper_url() -> Seq<char> {
    "https://onlinelibrary.wiley.com/"@ + "doi/10.1002/nme.7545"@
}

/// Appends `cylinder_text()`.
fn push_cylinder_text(buf: &mut String)
    ensures
        final(buf)@ == old(buf)@ + cylinder_text(),
{
    buf.append("FEM stiffness matrix of a ");
    buf.append("pressurized cylinder (Tet10 ");
    buf.append("with 1,711,464 DOF). Not from ");
    buf.append("the Collection. From ");
}

/// Appends `paper_title()`.
fn push_paper_title(buf: &mut String)
    ensures
        final(buf)@ == old(buf)@ + paper_title(),
{
    buf.append("Pedroso DM (2024) Caveats of ");
    buf.append("three direct linear solvers ");
    buf.append("for finite element analyses");
}

/// Appends `paper_url()`.
fn push_paper_url(buf: &mut String)
    ensures
        final(buf)@ == old(buf)@ + paper_url(),
{
    buf.append("https://onlinelibrary.wiley.com/");
    buf.append("doi/10.1002/nme.7545");
}

/// The LaTeX item of the `i`-th matrix (numbered from one).
pub open spec fn matrix_item_latex(info: MatricesInfo, i: int, matrix: Seq<char>) -> Seq<char> {
    let num = decimal((i + 1) as nat);
    match info.lookup(matrix) {
        Some(m) => "  \\item[$\\text{"@ + num + "}$] \\texttt{"@ + escape_underscores(matrix) + "} ("@
            + escape_underscores(m.group@) + ") -- "@ + escape_latex(description_or_default(m)) + "\n"@,
        None => "  \\item[$\\text{"@ + num + "}$] \\texttt{pres-cylin} (Pedroso) -- "@ + cylinder_text()
            + "\\href{"@ + paper_url() + "}{"@ + paper_title() + "}.\n"@,
    }
}

/// The Markdown item of the `i`-th matrix (numbered from one).
pub open spec fn matrix_item_md(info: MatricesInfo, i: int, matrix: Seq<char>) -> Seq<char> {
    let num = decimal((i + 1) as nat);
    match info.lookup(matrix) {
        Some(m) => " "@ + num + ". **"@ + matrix + "** ("@ + m.group@ + ") -- "@ + description_or_default(m)
            + "\n"@,
        None => " "@ + num + ". **pres-cylin** (Pedroso) -- "@ + cylinder_text() + "["@ + paper_title() + "]("@
            + paper_url() + ").\n"@,
    }
}

/// The LaTeX items of the matrices, one by one.
pub open spec fn matrix_items_latex(info: MatricesInfo, matrices: Seq<&str>) -> spec_fn(int) -> Seq<char> {
    |i: int| matrix_item_latex(info, i, matrices[i]@)
}

/// The Markdown items of the matrices, one by one.
pub open spec fn matrix_items_md(info: MatricesInfo, matrices: Seq<&str>) -> spec_fn(int) -> Seq<char> {
    |i: int| matrix_item_md(info, i, matrices[i]@)
}

/// Appends the LaTeX item of the `i`-th matrix.
fn push_item_latex(buf: &mut String, info: &MatricesInfo, i: usize, matrix: &str)
    requires
        i < usize::MAX,
    ensures
        final(buf)@ == old(buf)@ + matrix_item_latex(*info, i as int, matrix@),
{
    buf.append("  \\item[$\\text{");
    push_decimal(buf, i as u128 + 1);
    match info.get(matrix) {
        Some(m) => {
            let escaped = escape_underscores_text(matrix);
            let group = escape_underscores_text(m.group.as_str());
            let description = match &m.description {
                Some(d) => escape_latex_text(d.as_str()),
                None => escape_latex_text("No description available."),
            };
            buf.append("}$] \\texttt{");
            buf.append(escaped.as_str());
            buf.append("} (");
            buf.append(group.as_str());
            buf.append(") -- ");
            buf.append(description.as_str());
            buf.append("\n");
        },
        None => {
            // the pressurized cylinder (not from SuiteSparse)
            buf.append("}$] \\texttt{pres-cylin} (Pedroso) -- ");
            push_cylinder_text(buf);
            buf.append("\\href{");
            push_paper_url(buf);
            buf.append("}{");
            push_paper_title(buf);
            buf.append("}.\n");
        },
    }
}

/// Appends the Markdown item of the `i`-th matrix.
fn push_item_md(buf: &mut String, info: &MatricesInfo, i: usize, matrix: &str)
    requires
        i < usize::MAX,
    ensures
        final(buf)@ == old(buf)@ + matrix_item_md(*info, i as int, matrix@),
{
    buf.append(" ");
    push_decimal(buf, i as u128 + 1);
    match info.get(matrix) {
        Some(m) => {
            buf.append(". **");
            buf.append(matrix);
            buf.append("** (");
            buf.append(m.group.as_str());
            buf.append(") -- ");
            match &m.description {
                Some(d) => buf.append(d.as_str()),
                None => buf.append("No description available."),
            }
            buf.append("\n");
        },
        None => {
            // the pressurized cylinder (not from SuiteSparse)
            buf.append(". **pres-cylin** (Pedroso) -- ");
            push_cylinder_text(buf);
            buf.append("[");
            push_paper_title(buf);
            buf.append("](");
            push_paper_url(buf);
            buf.append(").\n");
        },
    }
}

/// Generates a LaTeX itemized list of the tested matrices, with descriptions;
/// a matrix missing from the metadata is the pressurized cylinder, which is not
/// from the SuiteSparse collection.
pub fn get_matrix_list_latex(info: &MatricesInfo, matrices: &[&str]) -> (r: String)
    ensures
        r@ == concat_n(matrix_items_latex(*info, matrices@), matrices@.len()),
{
    let mut buf = String::new();
    let n = matrices.len();
    let mut i: usize = 0;
    while i < n
        invariant
            i <= n,
            n == matrices@.len(),
            buf@ == concat_n(matrix_items_latex(*info, matrices@), i as nat),
        decreases n - i,
    {
        push_item_latex(&mut buf, info, i, matrices[i]);
        i = i + 1;
    }
    buf
}

/// Generates a Markdown numbered list of the tested matrices, with
/// descriptions; a matrix missing from the metadata is the pressurized
/// cylinder, which is not from the SuiteSparse collection.
pub fn get_matrix_list_md(info: &MatricesInfo, matrices: &[&str]) -> (r: String)
    ensures
        r@ == concat_n(matrix_items_md(*info, matrices@), matrices@.len()),
{
    let mut buf = String::new();
    let n = matrices.len();
    let mut i: usize = 0;
    while i < n
        invariant
            i <= n,
            n == matrices@.len(),
            buf@ == concat_n(matrix_items_md(*info, matrices@), i as nat),
        decreases n - i,
    {
        push_item_md(&mut buf, info, i, matrices[i]);
        i = i + 1;
    }
    buf
}


/// Reads the driver version from what `nvidia-smi` printed: the output without
/// surrounding white space, which must not be empty.
pub fn driver_version_from_output(success: bool, stdout: &str) -> (r: Result<String, StrError>)
    ensures
        !success ==> (r matches Err(e) && e@ == "nvidia-smi command failed"@),
        success && trim(stdout@).len() == 0 ==> (r matches Err(e) && e@
            == "nvidia driver version not found"@),
        success && trim(stdout@).len() > 0 ==> (r matches Ok(v) && v@ == trim(stdout@)),
{
    if !success {
        return Err("nvidia-smi command failed");
    }
    let version = trim_text(stdout);
    if version.as_str().unicode_len() == 0 {
        return Err("nvidia driver version not found");
    }
    Ok(version)
}


/// An algorithm gets the catch-all key `h` exactly when it is unknown, and the
/// description `Unknown` exactly then too; two known algorithms never share a
/// key.
pub proof fn lemma_matching_key_description(m1: Seq<char>, m2: Seq<char>)
    ensures
        matching_key(m1) == "h"@ <==> !is_known_matching(m1),
        matching_description(m1) == "Unknown"@ <==> !is_known_matching(m1),
        is_known_matching(m1) && is_known_matching(m2) && matching_key(m1) == matching_key(m2) ==> m1 == m2,
{
    reveal_strlit("a");
    reveal_strlit("b");
    reveal_strlit("c");
    reveal_strlit("d");
    reveal_strlit("e");
    reveal_strlit("f");
    reveal_strlit("g");
    reveal_strlit("h");
    reveal_strlit("Unknown");
    reveal_strlit("No matching algorithm (default).");
    reveal_strlit("Automatic selection.");
    reveal_strlit("Column permutation to maximize the number of diagonal entries.");
    reveal_strlit("Column permutation to maximize the smallest value on the diagonal.");
    reveal_strlit("Alternate algorithm to maximize the smallest value on the diagonal.");
    reveal_strlit("Column permutation to maximize the sum of diagonal entries.");
    reveal_strlit("Column permutation to maximize the product of diagonal entries.");
    assert("a"@[0] != "h"@[0]);
    assert("b"@[0] != "h"@[0]);
    assert("c"@[0] != "h"@[0]);
    assert("d"@[0] != "h"@[0]);
    assert("e"@[0] != "h"@[0]);
    assert("f"@[0] != "h"@[0]);
    assert("g"@[0] != "h"@[0]);
    assert("Automatic selection."@.len() != "Unknown"@.len());
}

/// The LaTeX items of `matrices`, numbered from `start + 1` on.
pub open spec fn matrix_list_latex_from(info: MatricesInfo, matrices: Seq<&str>, start: int) -> Seq<char> {
    concat_n(|k: int| matrix_item_latex(info, start + k, matrices[k]@), matrices.len())
}

/// The Markdown items of `matrices`, numbered from `start + 1` on.
pub open spec fn matrix_list_md_from(info: MatricesInfo, matrices: Seq<&str>, start: int) -> Seq<char> {
    concat_n(|k: int| matrix_item_md(info, start + k, matrices[k]@), matrices.len())
}

/// Each item of a matrix list depends only on its position, its name and the
/// metadata: the list of `a` followed by `b` is the list of `a` followed by
/// the list of `b` numbered on after the last item of `a`, and numbering from
/// the start gives the list itself.
pub proof fn lemma_matrix_lists_concat(info: MatricesInfo, a: Seq<&str>, b: Seq<&str>)
    ensures
        concat_n(matrix_items_latex(info, a + b), (a + b).len()) == concat_n(
            matrix_items_latex(info, a),
            a.len(),
        ) + matrix_list_latex_from(info, b, a.len() as int),
        concat_n(matrix_items_md(info, a + b), (a + b).len()) == concat_n(matrix_items_md(info, a), a.len())
            + matrix_list_md_from(info, b, a.len() as int),
        matrix_list_latex_from(info, b, 0) == concat_n(matrix_items_latex(info, b), b.len()),
        matrix_list_md_from(info, b, 0) == concat_n(matrix_items_md(info, b), b.len()),
{
    let ab = a + b;
    let n = a.len();
    let m = b.len();
    assert(ab.len() == n + m);
    let fl = matrix_items_latex(info, ab);
    let fm = matrix_items_md(info, ab);
    lemma_concat_n_split(fl, n, m);
    lemma_concat_n_split(fm, n, m);
    lemma_concat_n_ext(fl, matrix_items_latex(info, a), n);
    lemma_concat_n_ext(fm, matrix_items_md(info, a), n);
    lemma_concat_n_ext(
        |k: int| fl(n + k),
        |k: int| matrix_item_latex(info, n + k, b[k]@),
        m,
    );
    lemma_concat_n_ext(
        |k: int| fm(n + k),
        |k: int| matrix_item_md(info, n + k, b[k]@),
        m,
    );
    lemma_concat_n_ext(
        |k: int| matrix_item_latex(info, 0 + k, b[k]@),
        matrix_items_latex(info, b),
        m,
    );
    lemma_concat_n_ext(|k: int| matrix_item_md(info, 0 + k, b[k]@), matrix_items_md(info, b), m);
}

/// The name of a matrix, and the group and description that the metadata
/// holds for it, hold no `c`.
pub open spec fn item_texts_avoid(info: MatricesInfo, matrix: Seq<char>, c: char) -> bool {
    count_char(matrix, c) == 0 && match info.lookup(matrix) {
        Some(m) => count_char(m.group@, c) == 0 && match m.description {
            Some(d) => count_char(d@, c) == 0,
            None => true,
        },
        None => true,
    }
}

/// The names, groups and descriptions that the matrix lists copy hold no `c`.
pub open spec fn list_texts_avoid(info: MatricesInfo, matrices: Seq<&str>, c: char) -> bool {
    forall|k: int| 0 <= k < matrices.len() ==> item_texts_avoid(info, (#[trigger] matrices[k])@, c)
}

#[verifier::spinoff_prover]
#[verifier::rlimit(40)]
proof fn lemma_newline_item_literals()
    ensures
        count_char("  \\item[$\\text{"@, '\n') == 0,
        count_char("}$] \\texttt{"@, '\n') == 0,
        count_char("} ("@, '\n') == 0,
        count_char(") -- "@, '\n') == 0,
        count_char("\n"@, '\n') == 1,
        count_char(" "@, '\n') == 0,
        count_char(". **"@, '\n') == 0,
        count_char("** ("@, '\n') == 0,
        count_char("\\href{"@, '\n') == 0,
        count_char("}{"@, '\n') == 0,
        count_char("}.\n"@, '\n') == 1,
        count_char("["@, '\n') == 0,
        count_char("]("@, '\n') == 0,
        count_char(").\n"@, '\n') == 1,
        "\n"@.last() == '\n',
        "}.\n"@.last() == '\n',
        ").\n"@.last() == '\n',
{
    reveal_strlit("  \\item[$\\text{");
    reveal_strlit("}$] \\texttt{");
    reveal_strlit("} (");
    reveal_strlit(") -- ");
    reveal_strlit("\n");
    reveal_strlit(" ");
    reveal_strlit(". **");
    reveal_strlit("** (");
    reveal_strlit("\\href{");
    reveal_strlit("}{");
    reveal_strlit("}.\n");
    reveal_strlit("[");
    reveal_strlit("](");
    reveal_strlit(").\n");
    reveal_with_fuel(count_char, 18);
}

#[verifier::spinoff_prover]
#[verifier::rlimit(40)]
proof fn lemma_newline_description_literals()
    ensures
        count_char("No description available."@, '\n') == 0,
        count_char("}$] \\texttt{pres-cylin} (Pedroso) -- "@, '\n') == 0,
        count_char(". **pres-cylin** (Pedroso) -- "@, '\n') == 0,
{
    reveal_strlit("No description available.");
    reveal_strlit("}$] \\texttt{pres-cylin} (Pedroso) -- ");
    reveal_strlit(". **pres-cylin** (Pedroso) -- ");
    reveal_with_fuel(count_char, 40);
}

#[verifier::spinoff_prover]
#[verifier::rlimit(40)]
proof fn lemma_newline_cylinder_literals()
    ensures
        count_char("FEM stiffness matrix of a "@, '\n') == 0,
        count_char("pressurized cylinder (Tet10 "@, '\n') == 0,
        count_char("with 1,711,464 DOF). Not from "@, '\n') == 0,
        count_char("the Collection. From "@, '\n') == 0,
{
    reveal_strlit("FEM stiffness matrix of a ");
    reveal_strlit("pressurized cylinder (Tet10 ");
    reveal_strlit("with 1,711,464 DOF). Not from ");
    reveal_strlit("the Collection. From ");
    reveal_with_fuel(count_char, 32);
}

#[verifier::spinoff_prover]
#[verifier::rlimit(40)]
proof fn lemma_newline_paper_literals()
    ensures
        count_char("Pedroso DM (2024) Caveats of "@, '\n') == 0,
        count_char("three direct linear solvers "@, '\n') == 0,
        count_char("for finite element analyses"@, '\n') == 0,
        count_char("https://onlinelibrary.wiley.com/"@, '\n') == 0,
        count_char("doi/10.1002/nme.7545"@, '\n') == 0,
{
    reveal_strlit("Pedroso DM (2024) Caveats of ");
    reveal_strlit("three direct linear solvers ");
    reveal_strlit("for finite element analyses");
    reveal_strlit("https://onlinelibrary.wiley.com/");
    reveal_strlit("doi/10.1002/nme.7545");
    reveal_with_fuel(count_char, 34);
}

proof fn lemma_newline_pres_cylin()
    ensures
        count_char(cylinder_text(), '\n') == 0,
        count_char(paper_title(), '\n') == 0,
        count_char(paper_url(), '\n') == 0,
{
    lemma_newline_cylinder_literals();
    lemma_newline_paper_literals();
    let c = '\n';
    lemma_count_char_concat("FEM stiffness matrix of a "@, "pressurized cylinder (Tet10 "@, c);
    lemma_count_char_concat(
        "FEM stiffness matrix of a "@ + "pressurized cylinder (Tet10 "@,
        "with 1,711,464 DOF). Not from "@,
        c,
    );
    lemma_count_char_concat(
        "FEM stiffness matrix of a "@ + "pressurized cylinder (Tet10 "@ + "with 1,711,464 DOF). Not from "@,
        "the Collection. From "@,
        c,
    );
    lemma_count_char_concat("Pedroso DM (2024) Caveats of "@, "three direct linear solvers "@, c);
    lemma_count_char_concat(
        "Pedroso DM (2024) Caveats of "@ + "three direct linear solvers "@,
        "for finite element analyses"@,
        c,
    );
    lemma_count_char_concat("https://onlinelibrary.wiley.com/"@, "doi/10.1002/nme.7545"@, c);
}

/// Sums the line breaks of a concatenation of six pieces.
proof fn lemma_count6(
    p1: Seq<char>,
    p2: Seq<char>,
    p3: Seq<char>,
    p4: Seq<char>,
    p5: Seq<char>,
    p6: Seq<char>,
)
    ensures
        count_char(p1 + p2 + p3 + p4 + p5 + p6, '\n') == count_char(p1, '\n') + count_char(p2, '\n')
            + count_char(p3, '\n') + count_char(p4, '\n') + count_char(p5, '\n') + count_char(p6, '\n'),
{
    lemma_count_char_concat(p1, p2, '\n');
    lemma_count_char_concat(p1 + p2, p3, '\n');
    lemma_count_char_concat(p1 + p2 + p3, p4, '\n');
    lemma_count_char_concat(p1 + p2 + p3 + p4, p5, '\n');
    lemma_count_char_concat(p1 + p2 + p3 + p4 + p5, p6, '\n');
}

proof fn lemma_item_latex_line(info: MatricesInfo, i: int, matrix: &str)
    requires
        i >= 0,
        item_texts_avoid(info, matrix@, '\n'),
    ensures
        count_char(matrix_item_latex(info, i, matrix@), '\n') == 1,
        matrix_item_latex(info, i, matrix@).last() == '\n',
{
    lemma_newline_item_literals();
    lemma_newline_description_literals();
    lemma_newline_pres_cylin();
    let num = decimal((i + 1) as nat);
    assert(!is_digit_char('\n'));
    lemma_count_decimal((i + 1) as nat, '\n');
    let head = "  \\item[$\\text{"@ + num;
    lemma_count_char_concat("  \\item[$\\text{"@, num, '\n');
    match info.lookup(matrix@) {
        Some(m) => {
            lemma_count_escapes(matrix@, '\n');
            lemma_count_escapes(m.group@, '\n');
            lemma_count_escapes(description_or_default(m), '\n');
            lemma_count6(
                head,
                "}$] \\texttt{"@,
                escape_underscores(matrix@),
                "} ("@,
                escape_underscores(m.group@),
                ") -- "@,
            );
            let body = head + "}$] \\texttt{"@ + escape_underscores(matrix@) + "} ("@ + escape_underscores(
                m.group@,
            ) + ") -- "@;
            lemma_count_char_concat(body, escape_latex(description_or_default(m)), '\n');
            lemma_count_char_concat(body + escape_latex(description_or_default(m)), "\n"@, '\n');
        },
        None => {
            lemma_count6(
                head,
                "}$] \\texttt{pres-cylin} (Pedroso) -- "@,
                cylinder_text(),
                "\\href{"@,
                paper_url(),
                "}{"@,
            );
            let body = head + "}$] \\texttt{pres-cylin} (Pedroso) -- "@ + cylinder_text() + "\\href{"@
                + paper_url() + "}{"@;
            lemma_count_char_concat(body, paper_title(), '\n');
            lemma_count_char_concat(body + paper_title(), "}.\n"@, '\n');
        },
    }
}

proof fn lemma_item_md_line(info: MatricesInfo, i: int, matrix: &str)
    requires
        i >= 0,
        item_texts_avoid(info, matrix@, '\n'),
    ensures
        count_char(matrix_item_md(info, i, matrix@), '\n') == 1,
        matrix_item_md(info, i, matrix@).last() == '\n',
{
    lemma_newline_item_literals();
    lemma_newline_description_literals();
    lemma_newline_pres_cylin();
    let num = decimal((i + 1) as nat);
    assert(!is_digit_char('\n'));
    lemma_count_decimal((i + 1) as nat, '\n');
    let head = " "@ + num;
    lemma_count_char_concat(" "@, num, '\n');
    match info.lookup(matrix@) {
        Some(m) => {
            lemma_count6(head, ". **"@, matrix@, "** ("@, m.group@, ") -- "@);
            let body = head + ". **"@ + matrix@ + "** ("@ + m.group@ + ") -- "@;
            lemma_count_char_concat(body, description_or_default(m), '\n');
            lemma_count_char_concat(body + description_or_default(m), "\n"@, '\n');
        },
        None => {
            lemma_count6(head, ". **pres-cylin** (Pedroso) -- "@, cylinder_text(), "["@, paper_title(), "]("@);
            let body = head + ". **pres-cylin** (Pedroso) -- "@ + cylinder_text() + "["@ + paper_title() + "]("@;
            lemma_count_char_concat(body, paper_url(), '\n');
            lemma_count_char_concat(body + paper_url(), ").\n"@, '\n');
        },
    }
}

/// Both matrix lists have one line per matrix, the `i`-th line being the item
/// numbered `i + 1`, when the copied names, groups and descriptions hold no
/// line break; the lists of no matrix are empty.
pub proof fn lemma_matrix_lists_lines(info: MatricesInfo, matrices: Seq<&str>)
    requires
        list_texts_avoid(info, matrices, '\n'),
    ensures
        count_char(concat_n(matrix_items_latex(info, matrices), matrices.len()), '\n') == matrices.len(),
        count_char(concat_n(matrix_items_md(info, matrices), matrices.len()), '\n') == matrices.len(),
        forall|i: int|
            0 <= i < matrices.len() ==> count_char(#[trigger] matrix_item_latex(info, i, matrices[i]@), '\n')
                == 1 && matrix_item_latex(info, i, matrices[i]@).last() == '\n',
        forall|i: int|
            0 <= i < matrices.len() ==> count_char(#[trigger] matrix_item_md(info, i, matrices[i]@), '\n') == 1
                && matrix_item_md(info, i, matrices[i]@).last() == '\n',
        matrices.len() == 0 ==> concat_n(matrix_items_latex(info, matrices), 0) == Seq::<char>::empty()
            && concat_n(matrix_items_md(info, matrices), 0) == Seq::<char>::empty(),
{
    assert forall|i: int| 0 <= i < matrices.len() implies count_char(
        #[trigger] matrix_item_latex(info, i, matrices[i]@),
        '\n',
    ) == 1 && matrix_item_latex(info, i, matrices[i]@).last() == '\n' by {
        lemma_item_latex_line(info, i, matrices[i]);
    }
    assert forall|i: int| 0 <= i < matrices.len() implies count_char(
        #[trigger] matrix_item_md(info, i, matrices[i]@),
        '\n',
    ) == 1 && matrix_item_md(info, i, matrices[i]@).last() == '\n' by {
        lemma_item_md_line(info, i, matrices[i]);
    }
    let fl = matrix_items_latex(info, matrices);
    let fm = matrix_items_md(info, matrices);
    assert forall|j: int| 0 <= j < matrices.len() implies count_char(#[trigger] fl(j), '\n') == 1 by {
        assert(fl(j) == matrix_item_latex(info, j, matrices[j]@));
    }
    assert forall|j: int| 0 <= j < matrices.len() implies count_char(#[trigger] fm(j), '\n') == 1 by {
        assert(fm(j) == matrix_item_md(info, j, matrices[j]@));
    }
    lemma_count_char_concat_n_uniform(fl, matrices.len(), '\n', 1);
    lemma_count_char_concat_n_uniform(fm, matrices.len(), '\n', 1);
}

/// The cuDSS matching algorithms, each with its sort key (in the order of the
/// cuDSS documentation) and the sentence that describes it.
pub proof fn lemma_matching_algorithm_table()
    ensures
        matching_key("None"@) == "a"@,
        matching_description("None"@) == "No matching algorithm (default)."@,
        matching_key("Auto"@) == "b"@,
        matching_description("Auto"@) == "Automatic selection."@,
        matching_key("MaxDiagCount"@) == "c"@,
        matching_description("MaxDiagCount"@) == "Column permutation to maximize the number of diagonal entries."@,
        matching_key("MaxMinDiag"@) == "d"@,
        matching_description("MaxMinDiag"@) == "Column permutation to maximize the smallest value on the diagonal."@,
        matching_key("MaxMinDiagAlt"@) == "e"@,
        matching_description("MaxMinDiagAlt"@)
            == "Alternate algorithm to maximize the smallest value on the diagonal."@,
        matching_key("MaxDiagSum"@) == "f"@,
        matching_description("MaxDiagSum"@) == "Column permutation to maximize the sum of diagonal entries."@,
        matching_key("MaxDiagProduct"@) == "g"@,
        matching_description("MaxDiagProduct"@)
            == "Column permutation to maximize the product of diagonal entries."@,
{
    reveal_strlit("None");
    reveal_strlit("Auto");
    reveal_strlit("MaxDiagCount");
    reveal_strlit("MaxMinDiag");
    reveal_strlit("MaxMinDiagAlt");
    reveal_strlit("MaxDiagSum");
    reveal_strlit("MaxDiagProduct");
    assert("None"@.len() == 4 && "Auto"@.len() == 4 && "MaxDiagCount"@.len() == 12);
    assert("MaxMinDiag"@.len() == 10 && "MaxMinDiagAlt"@.len() == 13 && "MaxDiagSum"@.len() == 10);
    assert("MaxDiagProduct"@.len() == 14);
    assert("None"@[0] != "Auto"@[0]);
    assert("MaxMinDiag"@[3] != "MaxDiagSum"@[3]);
}

} // verus!
