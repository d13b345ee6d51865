//! The LaTeX document around a report.

use crate::sequences::concat_n;
use crate::text::{
    contains_text, lemma_concat_n_contains, lemma_contains_text_left, lemma_contains_text_right, owned,
};
use vstd::prelude::*;

verus! {

/// Title of the report.
pub open spec fn report_title() -> Seq<char> {
    "Performance benchmarks using the Rust Scientific Library (Russell)"@
}

/// Author of the report.
pub open spec fn report_author() -> Seq<char> {
    "Dr Dorival Pedroso"@
}

/// The page geometry: narrow margins on request, none otherwise.
pub open spec fn geometry_text(narrow_margins: bool) -> Seq<char> {
    if narrow_margins {
        "\\usepackage[top=1cm,bottom=2cm,left=1cm,right=1cm]{geometry}\n"@
    } else {
        Seq::empty()
    }
}

/// The font size: 10pt on request, 12pt otherwise.
pub open spec fn font_size_text(small_font: bool) -> Seq<char> {
    if small_font {
        "10pt"@
    } else {
        "12pt"@
    }
}

/// The `i`-th line of the preamble that loads the packages of the report
/// (the `xcolor` line comes in two pieces: the package and its comment).
pub open spec fn preamble_line(i: int) -> Seq<char> {
    if i == 0 {
        ",a4paper]{article}\n"@
    } else if i == 1 {
        "\\usepackage{enumitem}\n"@
    } else if i == 2 {
        "\\usepackage{booktabs}\n"@
    } else if i == 3 {
        "\\usepackage{nicematrix}\n"@
    } else if i == 4 {
        "\\usepackage{amsmath,amssymb}\n"@
    } else if i == 5 {
        "\\usepackage{bm}\n"@
    } else if i == 6 {
        "\\usepackage{siunitx}\n"@
    } else if i == 7 {
        "\\usepackage{xcolor}"@
    } else if i == 8 {
        " % Required for defining custom colors\n"@
    } else if i == 9 {
        "\\definecolor{DocBlue}{RGB}{30, 100, 200} % A clean, professional blue\n"@
    } else if i == 10 {
        "\\usepackage[labelfont=bf]{caption}\n"@
    } else if i == 11 {
        "\\usepackage[\n"@
    } else if i == 12 {
        "   colorlinks=true,    % Turns off the default boxes, turns on colored text\n"@
    } else if i == 13 {
        "   urlcolor=DocBlue,   % Colors url and href links\n"@
    } else if i == 14 {
        "   linkcolor=DocBlue,  % Colors internal links (sections, equations)\n"@
    } else if i == 15 {
        "   citecolor=DocBlue,  % Colors bibliography citations\n"@
    } else if i == 16 {
        "   breaklinks=true     % Allows long URLs to wrap nicely across lines\n"@
    } else if i == 17 {
        "]{hyperref}\n"@
    } else if i == 18 {
        "\\usepackage{paralist}\n"@
    } else if i == 19 {
        "   \\let\\itemize\\compactitem\n"@
    } else if i == 20 {
        "   \\let\\enditemize\\endcompactitem\n"@
    } else if i == 21 {
        "   \\pltopsep=0.5em\n"@
    } else if i == 22 {
        "   \\plitemsep=1pt\n"@
    } else if i == 23 {
        "   \\plparsep=1pt\n"@
    } else {
        Seq::empty()
    }
}

/// Number of pieces of the preamble.
pub const PREAMBLE_LINES: usize = 24;

/// The pieces of the preamble, one by one.
pub open spec fn preamble_lines() -> spec_fn(int) -> Seq<char> {
    |i: int| preamble_line(i)
}

/// The preamble that loads the packages of the report.
pub open spec fn preamble_text() -> Seq<char> {
    concat_n(preamble_lines(), PREAMBLE_LINES as nat)
}

/// Returns the `i`-th piece of the preamble.
fn preamble_line_text(i: usize) -> (r: &'static str)
    requires
        i < PREAMBLE_LINES,
    ensures
        r@ == preamble_line(i as int),
{
    if i == 0 {
        ",a4paper]{article}\n"
    } else if i == 1 {
        "\\usepackage{enumitem}\n"
    } else if i == 2 {
        "\\usepackage{booktabs}\n"
    } else if i == 3 {
        "\\usepackage{nicematrix}\n"
    } else if i == 4 {
        "\\usepackage{amsmath,amssymb}\n"
    } else if i == 5 {
        "\\usepackage{bm}\n"
    } else if i == 6 {
        "\\usepackage{siunitx}\n"
    } else if i == 7 {
        "\\usepackage{xcolor}"
    } else if i == 8 {
        " % Required for defining custom colors\n"
    } else if i == 9 {
        "\\definecolor{DocBlue}{RGB}{30, 100, 200} % A clean, professional blue\n"
    } else if i == 10 {
        "\\usepackage[labelfont=bf]{caption}\n"
    } else if i == 11 {
        "\\usepackage[\n"
    } else if i == 12 {
        "   colorlinks=true,    % Turns off the default boxes, turns on colored text\n"
    } else if i == 13 {
        "   urlcolor=DocBlue,   % Colors url and href links\n"
    } else if i == 14 {
        "   linkcolor=DocBlue,  % Colors internal links (sections, equations)\n"
    } else if i == 15 {
        "   citecolor=DocBlue,  % Colors bibliography citations\n"
    } else if i == 16 {
        "   breaklinks=true     % Allows long URLs to wrap nicely across lines\n"
    } else if i == 17 {
        "]{hyperref}\n"
    } else if i == 18 {
        "\\usepackage{paralist}\n"
    } else if i == 19 {
        "   \\let\\itemize\\compactitem\n"
    } else if i == 20 {
        "   \\let\\enditemize\\endcompactitem\n"
    } else if i == 21 {
        "   \\pltopsep=0.5em\n"
    } else if i == 22 {
        "   \\plitemsep=1pt\n"
    } else {
        "   \\plparsep=1pt\n"
    }
}

/// Appends `preamble_text()`.
fn push_preamble(doc: &mut String)
    ensures
        final(doc)@ == old(doc)@ + preamble_text(),
{
    let ghost start = doc@;
    let mut i: usize = 0;
    while i < PREAMBLE_LINES
        invariant
            i <= PREAMBLE_LINES,
            doc@ == start + concat_n(preamble_lines(), i as nat),
        decreases PREAMBLE_LINES - i,
    {
        doc.append(preamble_line_text(i));
        proof {
            assert(concat_n(preamble_lines(), (i + 1) as nat) == concat_n(preamble_lines(), i as nat)
                + preamble_line(i as int));
        }
        i = i + 1;
    }
}

/// The page geometry, the title and the author, which come after the packages.
pub open spec fn title_block(narrow_margins: bool) -> Seq<char> {
    geometry_text(narrow_margins) + "\\title{"@ + report_title() + "}\n"@ + "\\author{"@ + report_author()
        + "}\n"@
}

/// Everything before `\\begin{document}`: the class, the packages, the page
/// geometry, the title and the author.
pub open spec fn document_head(narrow_margins: bool, small_font: bool) -> Seq<char> {
    "\\documentclass["@ + font_size_text(small_font) + preamble_text() + title_block(narrow_margins)
}

/// The whole document with `body` as its content.
pub open spec fn document_text(body: Seq<char>, narrow_margins: bool, small_font: bool) -> Seq<char> {
    document_head(narrow_margins, small_font) + "\\begin{document}\n"@ + "\\maketitle\n"@ + "\n"@ + body
        + "\n"@ + "\\end{document}"@
}

/// Writes the full LaTeX document (an A4 article with title and author) that
/// holds `buffer` as its content.
pub fn latex_document(buffer: &str, narrow_margins: bool, small_font: bool) -> (r: String)
    ensures
        r@ == document_text(buffer@, narrow_margins, small_font),
{
    let mut doc = owned("\\documentclass[");
    if small_font {
        doc.append("10pt");
    } else {
        doc.append("12pt");
    }
    push_preamble(&mut doc);
    let ghost packages = doc@;
    if narrow_margins {
        doc.append("\\usepackage[top=1cm,bottom=2cm,left=1cm,right=1cm]{geometry}\n");
    }
    doc.append("\\title{");
    doc.append("Performance benchmarks using the Rust Scientific Library (Russell)");
    doc.append("}\n");
    doc.append("\\author{");
    doc.append("Dr Dorival Pedroso");
    doc.append("}\n");
    assert(doc@ =~= packages + title_block(narrow_margins));
    doc.append("\\begin{document}\n");
    doc.append("\\maketitle\n");
    doc.append("\n");
    doc.append(buffer);
    doc.append("\n");
    doc.append("\\end{document}");
    doc
}

/// The document loads, before `\\begin{document}`, the packages that the
/// performance tables need (booktabs, nicematrix, siunitx, xcolor, hyperref),
/// and the report comes right after `\\begin{document}` and the title, with
/// `\\end{document}` at the very end.
pub proof fn lemma_document_loads_table_packages(body: Seq<char>, narrow_margins: bool, small_font: bool)
    ensures
        document_text(body, narrow_margins, small_font) == document_head(narrow_margins, small_font)
            + "\\begin{document}\n"@ + "\\maketitle\n"@ + "\n"@ + body + "\n"@ + "\\end{document}"@,
        contains_text(document_head(narrow_margins, small_font), "\\usepackage{booktabs}\n"@),
        contains_text(document_head(narrow_margins, small_font), "\\usepackage{nicematrix}\n"@),
        contains_text(document_head(narrow_margins, small_font), "\\usepackage{siunitx}\n"@),
        contains_text(document_head(narrow_margins, small_font), "\\usepackage{xcolor}"@),
        contains_text(document_head(narrow_margins, small_font), "]{hyperref}\n"@),
{
    let start = "\\documentclass["@ + font_size_text(small_font);
    let rest = title_block(narrow_margins);
    let f = preamble_lines();
    assert(f(2) == "\\usepackage{booktabs}\n"@);
    assert(f(3) == "\\usepackage{nicematrix}\n"@);
    assert(f(6) == "\\usepackage{siunitx}\n"@);
    assert(f(7) == "\\usepackage{xcolor}"@);
    assert(f(17) == "]{hyperref}\n"@);
    assert forall|k: int| 0 <= k < PREAMBLE_LINES implies contains_text(
        document_head(narrow_margins, small_font),
        #[trigger] f(k),
    ) by {
        lemma_concat_n_contains(f, PREAMBLE_LINES as nat, k);
        lemma_contains_text_left(start, preamble_text(), f(k));
        lemma_contains_text_right(start + preamble_text(), f(k), rest);
    }
}

} // verus!
