use benchmark_russell::text::{
    escape_latex_text, escape_underscores_text, short_matrix_name, to_decimal, to_grouped_decimal, trim_text,
};

#[test]
fn grouped_decimals() {
    assert_eq!(to_grouped_decimal(0), "0");
    assert_eq!(to_grouped_decimal(999), "999");
    assert_eq!(to_grouped_decimal(1000), "1,000");
    assert_eq!(to_grouped_decimal(1234567), "1,234,567");
    assert_eq!(to_grouped_decimal(133562188), "133,562,188");
    assert_eq!(to_grouped_decimal(u64::MAX), "18,446,744,073,709,551,615");
    // dropping the separators gives the digits back
    for n in [0u64, 7, 12, 100, 4096, 1711464, 987654321012] {
        assert_eq!(to_grouped_decimal(n).replace(",", ""), to_decimal(n as u128));
    }
}

#[test]
fn decimals() {
    assert_eq!(to_decimal(0), "0");
    assert_eq!(to_decimal(42), "42");
    assert_eq!(to_decimal(u128::MAX), u128::MAX.to_string());
}

#[test]
fn escaping() {
    assert_eq!(escape_underscores_text("Goodwin_040"), "Goodwin\\_040");
    assert_eq!(escape_underscores_text("a&b"), "a&b");
    assert_eq!(escape_latex_text("a_b & c % d # e"), "a\\_b \\& c \\% d \\# e");
    // escaping loses nothing
    let s = "x_&%#y\\_";
    let e = escape_latex_text(s);
    assert_eq!(e, "x\\_\\&\\%\\#y\\\\_");
}

#[test]
fn trimming() {
    assert_eq!(trim_text("  abc \n"), "abc");
    assert_eq!(trim_text("abc"), "abc");
    assert_eq!(trim_text(" \t\r\n"), "");
    assert_eq!(trim_text(""), "");
    assert_eq!(trim_text("\u{2003}a b\u{2029}"), "a b");
    assert_eq!(trim_text(&trim_text(" x ")), "x");
}

#[test]
fn short_names() {
    assert_eq!(short_matrix_name("pres-cylin-3d-tet10-fine-nu499"), "pres-cylinNI");
    assert_eq!(short_matrix_name("pres-cylin-3d-tet10-fine"), "pres-cylin");
    assert_eq!(short_matrix_name("dielFilterV2real"), "dielFilterV2");
    assert_eq!(short_matrix_name("fp"), "fp");
}

fn unescape(s: &str) -> String {
    let chars: Vec<char> = s.chars().collect();
    let mut out = String::new();
    let mut i = 0;
    while i < chars.len() {
        if chars[i] == '\\' && i + 1 < chars.len() && "_&%#".contains(chars[i + 1]) {
            out.push(chars[i + 1]);
            i += 2;
        } else {
            out.push(chars[i]);
            i += 1;
        }
    }
    out
}

#[test]
fn escaping_roundtrip() {
    for s in ["", "plain", "Navier-Stokes & 100% #1_a", "__&&", "x\\y_"] {
        assert_eq!(unescape(&escape_latex_text(s)), s);
    }
}
