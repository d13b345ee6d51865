//! Text primitives with exact specifications: decimal rendering of integers,
//! digit grouping, escaping and trimming.

use crate::sequences::{concat_n, count_char, lemma_count_char_concat};
use vstd::prelude::*;

verus! {

/// The character of a decimal digit `d < 10`.
pub open spec fn digit_char(d: nat) -> char {
    if d == 0 { '0' }
    else if d == 1 { '1' }
    else if d == 2 { '2' }
    else if d == 3 { '3' }
    else if d == 4 { '4' }
    else if d == 5 { '5' }
    else if d == 6 { '6' }
    else if d == 7 { '7' }
    else if d == 8 { '8' }
    else { '9' }
}

/// Decimal rendering of a natural number, without leading zeros ("0" for zero).
pub open spec fn decimal(n: nat) -> Seq<char>
    decreases n,
{
    if n < 10 {
        seq![digit_char(n)]
    } else {
        decimal(n / 10).push(digit_char(n % 10))
    }
}

fn digit_to_char(d: u128) -> (c: char)
    requires
        d < 10,
    ensures
        c == digit_char(d as nat),
{
    if d == 0 { '0' }
    else if d == 1 { '1' }
    else if d == 2 { '2' }
    else if d == 3 { '3' }
    else if d == 4 { '4' }
    else if d == 5 { '5' }
    else if d == 6 { '6' }
    else if d == 7 { '7' }
    else if d == 8 { '8' }
    else { '9' }
}

/// Appends the decimal rendering of `n` to `buf`.
pub fn push_decimal(buf: &mut String, n: u128)
    ensures
        final(buf)@ == old(buf)@ + decimal(n as nat),
    decreases n,
{
    if n < 10 {
        buf.push(digit_to_char(n));
    } else {
        push_decimal(buf, n / 10);
        buf.push(digit_to_char(n % 10));
    }
}

/// Returns the decimal rendering of `n`.
pub fn to_decimal(n: u128) -> (s: String)
    ensures
        s@ == decimal(n as nat),
{
    let mut s = String::new();
    push_decimal(&mut s, n);
    s
}


/// Copies `s` into a fresh `String`.
pub fn owned(s: &str) -> (r: String)
    ensures
        r@ == s@,
{
    let mut r = String::new();
    for c in it: s.chars()
        invariant
            r@ == it.seq().take(it.index() as int),
    {
        r.push(c);
    }
    r
}


/// Powers of ten.
pub open spec fn pow10(k: nat) -> nat
    decreases k,
{
    if k == 0 { 1 } else { 10 * pow10((k - 1) as nat) }
}

/// An ASCII decimal digit.
pub open spec fn is_digit_char(c: char) -> bool {
    48 <= (c as u32) <= 57
}

/// Every character is an ASCII decimal digit.
pub open spec fn all_digits(s: Seq<char>) -> bool {
    forall|i: int| 0 <= i < s.len() ==> #[trigger] is_digit_char(s[i])
}

/// `t` occurs in `s` as a block of consecutive characters.
pub open spec fn contains_text(s: Seq<char>, t: Seq<char>) -> bool {
    exists|k: int| 0 <= k && k + t.len() <= s.len() && #[trigger] s.subrange(k, k + t.len()) == t
}

/// A text occurs at the end of a text that ends with it.
pub proof fn lemma_contains_text_end(a: Seq<char>, t: Seq<char>)
    ensures
        contains_text(a + t, t),
{
    assert((a + t).subrange(a.len() as int, (a.len() + t.len()) as int) =~= t);
}

/// Text added after a contained block keeps it contained.
pub proof fn lemma_contains_text_right(s: Seq<char>, t: Seq<char>, b: Seq<char>)
    requires
        contains_text(s, t),
    ensures
        contains_text(s + b, t),
{
    let k = choose|k: int| 0 <= k && k + t.len() <= s.len() && #[trigger] s.subrange(k, k + t.len()) == t;
    assert((s + b).subrange(k, k + t.len()) =~= s.subrange(k, k + t.len()));
}

/// Text added before a contained block keeps it contained.
pub proof fn lemma_contains_text_left(a: Seq<char>, s: Seq<char>, t: Seq<char>)
    requires
        contains_text(s, t),
    ensures
        contains_text(a + s, t),
{
    let k = choose|k: int| 0 <= k && k + t.len() <= s.len() && #[trigger] s.subrange(k, k + t.len()) == t;
    assert((a + s).subrange(a.len() + k, a.len() + k + t.len()) =~= s.subrange(k, k + t.len()));
}

/// A concatenation contains each of its pieces.
pub proof fn lemma_concat_n_contains(f: spec_fn(int) -> Seq<char>, n: nat, k: int)
    requires
        0 <= k < n,
    ensures
        contains_text(concat_n(f, n), f(k)),
    decreases n,
{
    if k == n - 1 {
        lemma_contains_text_end(concat_n(f, (n - 1) as nat), f(k));
    } else {
        lemma_concat_n_contains(f, (n - 1) as nat, k);
        lemma_contains_text_right(concat_n(f, (n - 1) as nat), f(k), f(n - 1));
    }
}

/// A character of a rendered duration: a decimal digit, the decimal point, or
/// a letter of the units `h`, `m`, `s`, `ms`, `µs` and `ns`.
pub open spec fn is_duration_char(c: char) -> bool {
    is_digit_char(c) || c == '.' || c == 'h' || c == 'm' || c == 's' || c == 'n' || c == 'µ'
}

/// Every character is one of a rendered duration.
pub open spec fn duration_chars(s: Seq<char>) -> bool {
    forall|i: int| 0 <= i < s.len() ==> #[trigger] is_duration_char(s[i])
}

/// A rendered duration holds no character outside its alphabet.
pub proof fn lemma_count_duration(s: Seq<char>, c: char)
    requires
        duration_chars(s),
        !is_duration_char(c),
    ensures
        count_char(s, c) == 0,
    decreases s.len(),
{
    if s.len() > 0 {
        assert(is_duration_char(s[s.len() - 1]));
        assert(duration_chars(s.drop_last())) by {
            assert forall|i: int| 0 <= i < s.drop_last().len() implies #[trigger] is_duration_char(
                s.drop_last()[i],
            ) by {
                assert(s.drop_last()[i] == s[i]);
            }
        }
        lemma_count_duration(s.drop_last(), c);
    }
}

/// A decimal rendering is made of digits only and is never empty.
pub proof fn lemma_decimal_digits(n: nat)
    ensures
        all_digits(decimal(n)),
        decimal(n).len() >= 1,
    decreases n,
{
    if n >= 10 {
        lemma_decimal_digits(n / 10);
        let d = decimal(n / 10);
        assert(decimal(n) == d.push(digit_char(n % 10)));
        assert forall|i: int| 0 <= i < decimal(n).len() implies #[trigger] is_digit_char(
            decimal(n)[i],
        ) by {
            if i < d.len() {
                assert(decimal(n)[i] == d[i]);
            }
        }
    }
}

/// A number below `10^k` (with `k >= 1`) has at most `k` decimal digits.
pub proof fn lemma_decimal_len(n: nat, k: nat)
    requires
        k >= 1,
        n < pow10(k),
    ensures
        decimal(n).len() <= k,
    decreases n,
{
    if n >= 10 {
        let k1 = (k - 1) as nat;
        assert(pow10(k) == 10 * pow10(k1));
        if k1 == 0 {
            assert(pow10(k1) == 1);
        }
        assert(n / 10 < pow10(k1)) by (nonlinear_arith)
            requires
                n < 10 * pow10(k1),
        ;
        lemma_decimal_len(n / 10, k1);
    }
}

/// Every `u64` has at most twenty decimal digits.
pub proof fn lemma_decimal_len_u64(n: u64)
    ensures
        decimal(n as nat).len() <= 20,
{
    reveal_with_fuel(pow10, 21);
    assert(pow10(20) == 100000000000000000000nat);
    lemma_decimal_len(n as nat, 20);
}

/// Inserts a comma before every complete group of three digits counted from
/// the right, as in `1234567` -> `1,234,567`.
pub open spec fn group_thousands(s: Seq<char>) -> Seq<char>
    decreases s.len(),
{
    if s.len() <= 3 {
        s
    } else {
        group_thousands(s.subrange(0, s.len() - 3)) + seq![','] + s.subrange(s.len() - 3, s.len() as int)
    }
}

/// Drops every comma.
pub open spec fn remove_commas(s: Seq<char>) -> Seq<char>
    decreases s.len(),
{
    if s.len() == 0 {
        s
    } else if s.last() == ',' {
        remove_commas(s.drop_last())
    } else {
        remove_commas(s.drop_last()).push(s.last())
    }
}

/// Dropping commas distributes over concatenation.
pub proof fn lemma_remove_commas_concat(a: Seq<char>, b: Seq<char>)
    ensures
        remove_commas(a + b) == remove_commas(a) + remove_commas(b),
    decreases b.len(),
{
    if b.len() == 0 {
        assert(a + b =~= a);
    } else {
        lemma_remove_commas_concat(a, b.drop_last());
        assert((a + b).drop_last() =~= a + b.drop_last());
        assert((a + b).last() == b.last());
    }
}

/// Text without commas is left alone when commas are dropped.
pub proof fn lemma_remove_commas_none(s: Seq<char>)
    requires
        forall|i: int| 0 <= i < s.len() ==> s[i] != ',',
    ensures
        remove_commas(s) == s,
    decreases s.len(),
{
    if s.len() > 0 {
        lemma_remove_commas_none(s.drop_last());
        assert(s.drop_last().push(s.last()) =~= s);
    }
}

/// Grouping digits loses nothing: dropping the separators gives the digits back.
pub proof fn lemma_group_thousands_roundtrip(s: Seq<char>)
    requires
        forall|i: int| 0 <= i < s.len() ==> s[i] != ',',
    ensures
        remove_commas(group_thousands(s)) == s,
    decreases s.len(),
{
    if s.len() <= 3 {
        lemma_remove_commas_none(s);
    } else {
        let hi = s.subrange(0, s.len() - 3);
        let lo = s.subrange(s.len() - 3, s.len() as int);
        lemma_group_thousands_roundtrip(hi);
        lemma_remove_commas_concat(group_thousands(hi) + seq![','], lo);
        lemma_remove_commas_concat(group_thousands(hi), seq![',']);
        assert(remove_commas(seq![',']) =~= Seq::<char>::empty()) by {
            let c: Seq<char> = seq![','];
            assert(c.len() == 1 && c.last() == ',');
            assert(c.drop_last() =~= Seq::<char>::empty());
            assert(remove_commas(Seq::<char>::empty()) =~= Seq::<char>::empty());
        }
        lemma_remove_commas_none(lo);
        assert(hi + lo =~= s);
    }
}

/// Renders `n` in decimal with a comma between groups of three digits.
pub fn to_grouped_decimal(n: u64) -> (s: String)
    ensures
        s@ == group_thousands(decimal(n as nat)),
{
    let digits = to_decimal(n as u128);
    proof {
        lemma_decimal_digits(n as nat);
        lemma_decimal_len_u64(n);
    }
    crate::external::regex_replace_all("\\B(?=(\\d{3})+(?!\\d))", digits.as_str(), ",")
}


/// Compares two texts character by character.
pub fn text_eq(a: &str, b: &str) -> (r: bool)
    ensures
        r == (a@ == b@),
{
    owned(a) == owned(b)
}


/// The name under which a matrix appears in tables: long names are abbreviated.
pub open spec fn matrix_short_name(m: Seq<char>) -> Seq<char> {
    if m == "pres-cylin-3d-tet10-fine-nu499"@ {
        "pres-cylinNI"@
    } else if m == "pres-cylin-3d-tet10-fine"@ {
        "pres-cylin"@
    } else if m == "dielFilterV2real"@ {
        "dielFilterV2"@
    } else {
        m
    }
}

/// Returns the name under which a matrix appears in tables.
pub fn short_matrix_name(m: &str) -> (r: String)
    ensures
        r@ == matrix_short_name(m@),
{
    if text_eq(m, "pres-cylin-3d-tet10-fine-nu499") {
        owned("pres-cylinNI")
    } else if text_eq(m, "pres-cylin-3d-tet10-fine") {
        owned("pres-cylin")
    } else if text_eq(m, "dielFilterV2real") {
        owned("dielFilterV2")
    } else {
        owned(m)
    }
}

/// The symmetry column: `No`, `Yes*` when positive definite, `Yes` otherwise.
pub open spec fn symmetry_text(symmetric: Seq<char>, positive_definite: bool) -> Seq<char> {
    if symmetric == "No"@ {
        "No"@
    } else if positive_definite {
        "Yes*"@
    } else {
        "Yes"@
    }
}

/// Returns the symmetry column.
pub fn symmetry_label(symmetric: &str, positive_definite: bool) -> (r: &'static str)
    ensures
        r@ == symmetry_text(symmetric@, positive_definite),
{
    if text_eq(symmetric, "No") {
        "No"
    } else if positive_definite {
        "Yes*"
    } else {
        "Yes"
    }
}


/// Escapes every underscore as `\_`.
pub open spec fn escape_underscores(s: Seq<char>) -> Seq<char>
    decreases s.len(),
{
    if s.len() == 0 {
        s
    } else {
        escape_underscores(s.drop_last()) + if s.last() == '_' {
            seq!['\\', '_']
        } else {
            seq![s.last()]
        }
    }
}

/// Escapes the characters that LaTeX reads as commands in running text:
/// `_`, `&`, `%` and `#` get a backslash in front.
pub open spec fn escape_latex(s: Seq<char>) -> Seq<char>
    decreases s.len(),
{
    if s.len() == 0 {
        s
    } else {
        escape_latex(s.drop_last()) + if is_latex_special(s.last()) {
            seq!['\\', s.last()]
        } else {
            seq![s.last()]
        }
    }
}

/// The characters that `escape_latex` escapes.
pub open spec fn is_latex_special(c: char) -> bool {
    c == '_' || c == '&' || c == '%' || c == '#'
}

/// Returns `s` with every underscore escaped as `\_`.
pub fn escape_underscores_text(s: &str) -> (r: String)
    ensures
        r@ == escape_underscores(s@),
{
    let mut r = String::new();
    for c in it: s.chars()
        invariant
            r@ == escape_underscores(it.seq().take(it.index() as int)),
            it.seq() == s@,
            it.index() <= it.seq().len(),
    {
        let ghost pre = it.seq().take(it.index() as int);
        if c == '_' {
            r.push('\\');
        }
        r.push(c);
        proof {
            let now = it.seq().take(it.index() + 1);
            assert(now.drop_last() =~= pre);
        }
    }
    assert(s@.take(s@.len() as int) =~= s@);
    r
}

/// Returns `s` with `_`, `&`, `%` and `#` escaped for LaTeX.
pub fn escape_latex_text(s: &str) -> (r: String)
    ensures
        r@ == escape_latex(s@),
{
    let mut r = String::new();
    for c in it: s.chars()
        invariant
            r@ == escape_latex(it.seq().take(it.index() as int)),
            it.seq() == s@,
            it.index() <= it.seq().len(),
    {
        let ghost pre = it.seq().take(it.index() as int);
        if c == '_' || c == '&' || c == '%' || c == '#' {
            r.push('\\');
        }
        r.push(c);
        proof {
            let now = it.seq().take(it.index() + 1);
            assert(now.drop_last() =~= pre);
        }
    }
    assert(s@.take(s@.len() as int) =~= s@);
    r
}


/// Unicode `White_Space` characters, as `char::is_whitespace` documents them.
pub open spec fn is_white_space(c: char) -> bool {
    let u = c as u32;
    ||| 9 <= u <= 13
    ||| u == 32
    ||| u == 0x85
    ||| u == 0xA0
    ||| u == 0x1680
    ||| 0x2000 <= u <= 0x200A
    ||| u == 0x2028
    ||| u == 0x2029
    ||| u == 0x202F
    ||| u == 0x205F
    ||| u == 0x3000
}

/// Drops leading white space.
pub open spec fn trim_start(s: Seq<char>) -> Seq<char>
    decreases s.len(),
{
    if s.len() > 0 && is_white_space(s[0]) {
        trim_start(s.drop_first())
    } else {
        s
    }
}

/// Drops trailing white space.
pub open spec fn trim_end(s: Seq<char>) -> Seq<char>
    decreases s.len(),
{
    if s.len() > 0 && is_white_space(s.last()) {
        trim_end(s.drop_last())
    } else {
        s
    }
}

/// Drops leading and trailing white space.
pub open spec fn trim(s: Seq<char>) -> Seq<char> {
    trim_end(trim_start(s))
}

fn white_space(c: char) -> (b: bool)
    ensures
        b == is_white_space(c),
{
    let u = c as u32;
    (9 <= u && u <= 13) || u == 32 || u == 0x85 || u == 0xA0 || u == 0x1680 || (0x2000 <= u && u
        <= 0x200A) || u == 0x2028 || u == 0x2029 || u == 0x202F || u == 0x205F || u == 0x3000
}

/// Returns `s` without leading and trailing white space.
pub fn trim_text(s: &str) -> (r: String)
    ensures
        r@ == trim(s@),
{
    let mut v: Vec<char> = Vec::new();
    for c in it: s.chars()
        invariant
            v@ == it.seq().take(it.index() as int),
            it.seq() == s@,
            it.index() <= it.seq().len(),
    {
        v.push(c);
    }
    assert(v@ =~= s@);
    let n = v.len();
    let mut lo: usize = 0;
    while lo < n && white_space(v[lo])
        invariant
            lo <= n,
            n == v@.len(),
            v@ == s@,
            trim_start(s@) == trim_start(s@.skip(lo as int)),
        decreases n - lo,
    {
        assert(s@.skip(lo as int).drop_first() =~= s@.skip(lo + 1));
        lo = lo + 1;
    }
    let ghost t = s@.skip(lo as int);
    assert(trim_start(s@) == t) by {
        if lo == n {
            assert(t.len() == 0);
        }
    }
    let mut hi: usize = n;
    assert(t.take(n - lo) =~= t);
    while hi > lo && white_space(v[hi - 1])
        invariant
            lo <= hi <= n,
            n == v@.len(),
            v@ == s@,
            t == s@.skip(lo as int),
            trim_end(t) == trim_end(t.take(hi - lo)),
        decreases hi,
    {
        assert(t.take(hi - lo).drop_last() =~= t.take(hi - 1 - lo));
        hi = hi - 1;
    }
    let mut r = String::new();
    let mut k: usize = lo;
    while k < hi
        invariant
            lo <= k <= hi <= n,
            n == v@.len(),
            r@ == v@.subrange(lo as int, k as int),
        decreases hi - k,
    {
        r.push(v[k]);
        assert(v@.subrange(lo as int, k + 1) =~= v@.subrange(lo as int, k as int).push(v@[k as int]));
        k = k + 1;
    }
    assert(r@ =~= t.take(hi - lo));
    r
}


/// Reading a grouped number without its commas gives its decimal digits back.
pub proof fn lemma_grouped_decimal_roundtrip(n: nat)
    ensures
        remove_commas(group_thousands(decimal(n))) == decimal(n),
{
    lemma_decimal_digits(n);
    let d = decimal(n);
    assert forall|i: int| 0 <= i < d.len() implies d[i] != ',' by {
        assert(is_digit_char(d[i]));
    }
    lemma_group_thousands_roundtrip(d);
}

/// Removes the backslash in front of every escaped special character.
pub open spec fn unescape_latex(s: Seq<char>) -> Seq<char>
    decreases s.len(),
{
    if s.len() == 0 {
        s
    } else if s.len() >= 2 && is_latex_special(s.last()) && s[s.len() - 2] == '\\' {
        unescape_latex(s.subrange(0, s.len() - 2)).push(s.last())
    } else {
        unescape_latex(s.drop_last()).push(s.last())
    }
}

/// Escaping loses nothing: unescaping gives the text back.
pub proof fn lemma_escape_latex_roundtrip(s: Seq<char>)
    ensures
        unescape_latex(escape_latex(s)) == s,
    decreases s.len(),
{
    if s.len() > 0 {
        lemma_escape_latex_roundtrip(s.drop_last());
        let p = escape_latex(s.drop_last());
        let e = escape_latex(s);
        let c = s.last();
        if is_latex_special(c) {
            assert(e == p + seq!['\\', c]);
            assert(e.subrange(0, e.len() - 2) =~= p);
        } else {
            assert(e == p + seq![c]);
            assert(e.drop_last() =~= p);
        }
        assert(s.drop_last().push(c) =~= s);
    }
}

/// Every escaped special character is preceded by a backslash, so that LaTeX
/// prints it literally.
pub proof fn lemma_escape_latex_guarded(s: Seq<char>)
    ensures
        forall|i: int|
            0 <= i < escape_latex(s).len() && is_latex_special(#[trigger] escape_latex(s)[i]) ==> i > 0
                && escape_latex(s)[i - 1] == '\\',
    decreases s.len(),
{
    if s.len() > 0 {
        lemma_escape_latex_guarded(s.drop_last());
        let p = escape_latex(s.drop_last());
        let e = escape_latex(s);
        assert forall|i: int| 0 <= i < e.len() && is_latex_special(#[trigger] e[i]) implies i > 0
            && e[i - 1] == '\\' by {
            if i < p.len() {
                assert(e[i] == p[i]);
                assert(e[i - 1] == p[i - 1]);
            }
        }
    }
}

proof fn lemma_trim_start_fixed(s: Seq<char>)
    ensures
        trim_start(s).len() == 0 || !is_white_space(trim_start(s)[0]),
    decreases s.len(),
{
    if s.len() > 0 && is_white_space(s[0]) {
        lemma_trim_start_fixed(s.drop_first());
    }
}

proof fn lemma_trim_end_fixed(s: Seq<char>)
    ensures
        trim_end(s).len() == 0 || !is_white_space(trim_end(s).last()),
        trim_end(s).len() <= s.len(),
        forall|i: int| 0 <= i < trim_end(s).len() ==> trim_end(s)[i] == s[i],
    decreases s.len(),
{
    if s.len() > 0 && is_white_space(s.last()) {
        lemma_trim_end_fixed(s.drop_last());
        assert forall|i: int| 0 <= i < trim_end(s).len() implies trim_end(s)[i] == s[i] by {
            assert(s.drop_last()[i] == s[i]);
        }
    }
}

/// Trimmed text neither starts nor ends with white space, and trimming it
/// again changes nothing.
pub proof fn lemma_trim_idempotent(s: Seq<char>)
    ensures
        trim(s).len() == 0 || (!is_white_space(trim(s)[0]) && !is_white_space(trim(s).last())),
        trim(trim(s)) == trim(s),
{
    let t = trim_start(s);
    let u = trim_end(t);
    lemma_trim_start_fixed(s);
    lemma_trim_end_fixed(t);
    if u.len() > 0 {
        assert(u[0] == t[0]);
    }
    assert(trim_start(u) == u);
    lemma_trim_end_fixed(u);
    assert(trim_end(u) == u);
}


/// Escaping adds only backslashes.
pub proof fn lemma_count_escapes(s: Seq<char>, c: char)
    requires
        c != '\\',
    ensures
        count_char(escape_underscores(s), c) == count_char(s, c),
        count_char(escape_latex(s), c) == count_char(s, c),
    decreases s.len(),
{
    if s.len() > 0 {
        lemma_count_escapes(s.drop_last(), c);
        let l = s.last();
        let one: Seq<char> = seq![l];
        let two: Seq<char> = seq!['\\', l];
        assert(one.drop_last() =~= Seq::<char>::empty());
        assert(two.drop_last() =~= seq!['\\']);
        assert(seq!['\\'].drop_last() =~= Seq::<char>::empty());
        assert(count_char(Seq::<char>::empty(), c) == 0);
        assert(count_char(seq!['\\'], c) == 0);
        assert(count_char(one, c) == count_char(two, c));
        let tail_u = if l == '_' { two } else { one };
        let tail_l = if is_latex_special(l) { two } else { one };
        lemma_count_char_concat(escape_underscores(s.drop_last()), tail_u, c);
        lemma_count_char_concat(escape_latex(s.drop_last()), tail_l, c);
    }
}

/// Grouping adds only commas.
pub proof fn lemma_count_group_thousands(s: Seq<char>, c: char)
    requires
        c != ',',
    ensures
        count_char(group_thousands(s), c) == count_char(s, c),
    decreases s.len(),
{
    if s.len() > 3 {
        let hi = s.subrange(0, s.len() - 3);
        let lo = s.subrange(s.len() - 3, s.len() as int);
        lemma_count_group_thousands(hi, c);
        lemma_count_char_concat(group_thousands(hi) + seq![','], lo, c);
        lemma_count_char_concat(group_thousands(hi), seq![','], c);
        lemma_count_char_concat(hi, lo, c);
        assert(hi + lo =~= s);
        let comma: Seq<char> = seq![','];
        assert(comma.drop_last() =~= Seq::<char>::empty());
        assert(comma.last() == ',');
        assert(count_char(Seq::<char>::empty(), c) == 0);
        assert(count_char(comma, c) == 0);
    }
}

/// A number's decimal rendering holds no character but digits.
pub proof fn lemma_count_decimal(n: nat, c: char)
    requires
        !is_digit_char(c),
    ensures
        count_char(decimal(n), c) == 0,
        count_char(group_thousands(decimal(n)), c) == 0 || c == ',',
{
    lemma_decimal_digits(n);
    lemma_count_digits(decimal(n), c);
    if c != ',' {
        lemma_count_group_thousands(decimal(n), c);
    }
}

proof fn lemma_count_digits(s: Seq<char>, c: char)
    requires
        all_digits(s),
        !is_digit_char(c),
    ensures
        count_char(s, c) == 0,
    decreases s.len(),
{
    if s.len() > 0 {
        assert(is_digit_char(s[s.len() - 1]));
        assert(all_digits(s.drop_last())) by {
            assert forall|i: int| 0 <= i < s.drop_last().len() implies #[trigger] is_digit_char(s.drop_last()[i]) by {
                assert(s.drop_last()[i] == s[i]);
            }
        }
        lemma_count_digits(s.drop_last(), c);
    }
}

} // verus!
