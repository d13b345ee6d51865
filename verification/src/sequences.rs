//! Generic sequence helpers: repeated concatenation and last occurrence.

use vstd::prelude::*;

verus! {

/// The concatenation `f(0) + f(1) + ... + f(n - 1)`.
pub open spec fn concat_n(f: spec_fn(int) -> Seq<char>, n: nat) -> Seq<char>
    decreases n,
{
    if n == 0 {
        Seq::empty()
    } else {
        concat_n(f, (n - 1) as nat) + f(n - 1)
    }
}

/// Pieces that agree give the same concatenation.
pub proof fn lemma_concat_n_ext(f: spec_fn(int) -> Seq<char>, g: spec_fn(int) -> Seq<char>, n: nat)
    requires
        forall|k: int| 0 <= k < n ==> #[trigger] f(k) == g(k),
    ensures
        concat_n(f, n) == concat_n(g, n),
    decreases n,
{
    if n > 0 {
        lemma_concat_n_ext(f, g, (n - 1) as nat);
    }
}

/// A concatenation of `n + m` pieces is that of the first `n` followed by that
/// of the last `m`.
pub proof fn lemma_concat_n_split(f: spec_fn(int) -> Seq<char>, n: nat, m: nat)
    ensures
        concat_n(f, n + m) == concat_n(f, n) + concat_n(|k: int| f(n + k), m),
    decreases m,
{
    let g = |k: int| f(n + k);
    if m == 0 {
        assert(concat_n(f, n) + concat_n(g, 0) =~= concat_n(f, n));
    } else {
        lemma_concat_n_split(f, n, (m - 1) as nat);
        assert(concat_n(f, (n + m) as nat) == concat_n(f, (n + m - 1) as nat) + f(n + m - 1));
        assert(concat_n(g, m) == concat_n(g, (m - 1) as nat) + g(m - 1));
        assert(g(m - 1) == f(n + m - 1));
        assert(concat_n(f, n) + concat_n(g, m) =~= concat_n(f, n) + concat_n(g, (m - 1) as nat) + f(n + m - 1));
    }
}

/// The index of the last occurrence of `x` in `s`, or `-1` when there is none.
pub open spec fn last_index_of<T>(s: Seq<T>, x: T) -> int
    decreases s.len(),
{
    if s.len() == 0 {
        -1
    } else if s.last() == x {
        s.len() - 1
    } else {
        last_index_of(s.drop_last(), x)
    }
}

/// `last_index_of` finds the last occurrence, and finds none only when `x` is absent.
pub proof fn lemma_last_index_of<T>(s: Seq<T>, x: T)
    ensures
        -1 <= last_index_of(s, x) < s.len(),
        last_index_of(s, x) >= 0 ==> s[last_index_of(s, x)] == x,
        forall|k: int| last_index_of(s, x) < k < s.len() ==> s[k] != x,
        last_index_of(s, x) == -1 <==> !s.contains(x),
    decreases s.len(),
{
    if s.len() > 0 {
        lemma_last_index_of(s.drop_last(), x);
        if s.last() != x {
            assert forall|k: int| last_index_of(s, x) < k < s.len() implies s[k] != x by {
                if k < s.len() - 1 {
                    assert(s[k] == s.drop_last()[k]);
                }
            }
            if s.contains(x) {
                let k = choose|k: int| 0 <= k < s.len() && s[k] == x;
                assert(s.drop_last()[k] == x);
            }
        }
    }
}

/// An index that holds `x` with no `x` after it is the last occurrence.
pub proof fn lemma_last_index_of_unique<T>(s: Seq<T>, x: T, i: int)
    requires
        0 <= i < s.len(),
        s[i] == x,
        forall|k: int| i < k < s.len() ==> s[k] != x,
    ensures
        last_index_of(s, x) == i,
{
    lemma_last_index_of(s, x);
    let r = last_index_of(s, x);
    if r < i {
        assert(s[i] != x);
    }
}


/// How many times `c` occurs in `s`.
pub open spec fn count_char(s: Seq<char>, c: char) -> nat
    decreases s.len(),
{
    if s.len() == 0 {
        0
    } else {
        count_char(s.drop_last(), c) + if s.last() == c { 1nat } else { 0nat }
    }
}

/// Occurrences add up over a concatenation.
pub proof fn lemma_count_char_concat(a: Seq<char>, b: Seq<char>, c: char)
    ensures
        count_char(a + b, c) == count_char(a, c) + count_char(b, c),
    decreases b.len(),
{
    if b.len() == 0 {
        assert(a + b =~= a);
    } else {
        lemma_count_char_concat(a, b.drop_last(), c);
        assert((a + b).drop_last() =~= a + b.drop_last());
    }
}

/// Concatenations of pieces with equal counts have equal counts.
pub proof fn lemma_count_char_concat_n(
    f: spec_fn(int) -> Seq<char>,
    g: spec_fn(int) -> Seq<char>,
    n: nat,
    c: char,
)
    requires
        forall|j: int| 0 <= j < n ==> count_char(#[trigger] f(j), c) == count_char(g(j), c),
    ensures
        count_char(concat_n(f, n), c) == count_char(concat_n(g, n), c),
    decreases n,
{
    if n > 0 {
        lemma_count_char_concat_n(f, g, (n - 1) as nat, c);
        lemma_count_char_concat(concat_n(f, (n - 1) as nat), f(n - 1), c);
        lemma_count_char_concat(concat_n(g, (n - 1) as nat), g(n - 1), c);
    }
}


/// A concatenation of `n` pieces that each hold `k` occurrences holds `n * k`.
pub proof fn lemma_count_char_concat_n_uniform(f: spec_fn(int) -> Seq<char>, n: nat, c: char, k: nat)
    requires
        forall|j: int| 0 <= j < n ==> count_char(#[trigger] f(j), c) == k,
    ensures
        count_char(concat_n(f, n), c) == n * k,
    decreases n,
{
    if n == 0 {
        assert(concat_n(f, n) =~= Seq::<char>::empty());
        assert(n * k == 0) by (nonlinear_arith)
            requires
                n == 0,
        ;
    } else {
        let m = (n - 1) as nat;
        lemma_count_char_concat_n_uniform(f, m, c, k);
        assert(concat_n(f, n) == concat_n(f, m) + f(m as int));
        lemma_count_char_concat(concat_n(f, m), f(m as int), c);
        assert(count_char(f(m as int), c) == k);
        assert(m * k + k == n * k) by (nonlinear_arith)
            requires
                m + 1 == n,
        ;
    }
}

} // verus!
