//! Metadata of the matrices of the SuiteSparse Matrix Collection.

use crate::sequences::{last_index_of, lemma_last_index_of, lemma_last_index_of_unique};
use crate::text::text_eq;
use vstd::prelude::*;

verus! {

/// Holds metadata about a matrix from the SuiteSparse Matrix Collection.
pub struct MatrixInfo {
    /// Matrix name (e.g. `"bwm2000"`)
    pub name: String,
    /// Group / collection name (e.g. `"Bai"`)
    pub group: String,
    /// Number of rows
    pub num_rows: u64,
    /// Number of columns
    pub num_cols: u64,
    /// Number of numerically nonzero entries
    pub nonzeros: u64,
    /// Number of pattern entries (includes explicit zeros)
    pub pattern_entries: u64,
    /// Problem kind / domain (e.g. `"Computational Fluid Dynamics Problem"`)
    pub kind: String,
    /// Whether the matrix is symmetric (`"Yes"` or `"No"`)
    pub symmetric: String,
    /// Whether the matrix is positive-definite (`"yes"`, `"no"`, or absent)
    pub positive_definite: Option<String>,
    /// Element type (`"real"`, `"complex"`, `"integer"`, or `"binary"`)
    pub data_type: String,
    /// Human-readable description of the matrix (may be absent)
    pub description: Option<String>,
}

/// The names of a list of records.
pub open spec fn record_names(records: Seq<MatrixInfo>) -> Seq<Seq<char>> {
    records.map_values(|r: MatrixInfo| r.name@)
}

/// The record that a list yields for `name` when later records replace earlier
/// ones with the same name.
pub open spec fn last_record(records: Seq<MatrixInfo>, name: Seq<char>) -> Option<MatrixInfo> {
    let k = last_index_of(record_names(records), name);
    if k >= 0 {
        Some(records[k])
    } else {
        None
    }
}

/// Metadata of all matrices, at most one record per name.
pub struct MatricesInfo {
    all: Vec<MatrixInfo>,
}

impl MatricesInfo {
    #[verifier::type_invariant]
    spec fn unique_names(self) -> bool {
        forall|a: int, b: int|
            0 <= a < b < self.all.len() ==> #[trigger] self.all[a].name@ != #[trigger] self.all[b].name@
    }

    /// The record of the matrix called `name`, if any.
    pub closed spec fn lookup(self, name: Seq<char>) -> Option<MatrixInfo> {
        last_record(self.all@, name)
    }

    /// The number of matrices held.
    pub closed spec fn size(self) -> nat {
        self.all@.len()
    }

    /// Gathers the records, one per name: a later record replaces an earlier one
    /// with the same name.
    pub fn new(records: Vec<MatrixInfo>) -> (r: Self)
        ensures
            forall|name: Seq<char>| #[trigger] r.lookup(name) == last_record(records@, name),
    {
        let ghost orig = records@;
        let ghost orig_names = record_names(orig);
        let mut records = records;
        let mut kept: Vec<MatrixInfo> = Vec::new();
        proof {
            assert forall|name: Seq<char>| #[trigger] last_record(kept@, name) == if last_index_of(
                orig_names,
                name,
            ) >= records@.len() {
                Some(orig[last_index_of(orig_names, name)])
            } else {
                None
            } by {
                lemma_last_index_of(orig_names, name);
                assert(record_names(kept@).len() == 0);
            }
        }
        while records.len() > 0
            invariant
                orig_names == record_names(orig),
                records@ == orig.take(records@.len() as int),
                records@.len() <= orig.len(),
                forall|a: int, b: int|
                    0 <= a < b < kept@.len() ==> #[trigger] kept@[a].name@ != #[trigger] kept@[b].name@,
                forall|name: Seq<char>| #[trigger] last_record(kept@, name) == if last_index_of(
                    orig_names,
                    name,
                ) >= records@.len() {
                    Some(orig[last_index_of(orig_names, name)])
                } else {
                    None
                },
            decreases records@.len(),
        {
            let ghost n = records@.len();
            let x = records.pop().unwrap();
            proof {
                assert(records@ =~= orig.take(n - 1));
                assert(x == orig[n - 1]);
                assert(orig_names[n - 1] == x.name@);
            }
            let mut present = false;
            let mut k: usize = 0;
            while k < kept.len()
                invariant
                    k <= kept@.len(),
                    present == exists|a: int| 0 <= a < k && #[trigger] kept@[a].name@ == x.name@,
                decreases kept@.len() - k,
            {
                if text_eq(kept[k].name.as_str(), x.name.as_str()) {
                    present = true;
                }
                k = k + 1;
            }
            proof {
                let kn = record_names(kept@);
                lemma_last_index_of(kn, x.name@);
                lemma_last_index_of(orig_names, x.name@);
                if present {
                    let a = choose|a: int| 0 <= a < kept@.len() && #[trigger] kept@[a].name@ == x.name@;
                    assert(kn[a] == x.name@);
                }
                assert forall|name: Seq<char>| #[trigger] last_record(kept@, name) == if last_index_of(
                    orig_names,
                    name,
                ) >= n - 1 {
                    Some(orig[last_index_of(orig_names, name)])
                } else {
                    None
                } || name == x.name@ by {
                    if name != x.name@ {
                        lemma_last_index_of(orig_names, name);
                        assert(orig_names[n - 1] != name);
                    }
                }
            }
            if !present {
                let ghost before = kept@;
                kept.push(x);
                proof {
                    let kn0 = record_names(before);
                    let kn1 = record_names(kept@);
                    assert(kn1 =~= kn0.push(x.name@));
                    assert(kn1.drop_last() =~= kn0);
                    assert forall|name: Seq<char>| #[trigger] last_record(kept@, name) == if last_index_of(
                        orig_names,
                        name,
                    ) >= n - 1 {
                        Some(orig[last_index_of(orig_names, name)])
                    } else {
                        None
                    } by {
                        lemma_last_index_of(orig_names, name);
                        if name == x.name@ {
                            lemma_last_index_of_unique(orig_names, name, n - 1);
                        } else {
                            lemma_last_index_of(kn0, name);
                            assert(kn1.last() == x.name@);
                            assert(last_index_of(kn1, name) == last_index_of(kn0, name));
                            assert(last_record(kept@, name) == last_record(before, name));
                        }
                    }
                }
            } else {
                proof {
                    lemma_last_index_of(orig_names, x.name@);
                }
            }
        }
        proof {
            let kn = record_names(kept@);
            assert(kn.no_duplicates()) by {
                assert forall|a: int, b: int| 0 <= a < kn.len() && 0 <= b < kn.len() && a != b implies kn[a] != kn[b] by {
                    if a < b {
                        assert(kept@[a].name@ != kept@[b].name@);
                    } else {
                        assert(kept@[b].name@ != kept@[a].name@);
                    }
                }
            }
            kn.unique_seq_to_set();
            assert(kn.to_set() =~= orig_names.to_set()) by {
                assert forall|name: Seq<char>| kn.to_set().contains(name) <==> orig_names.to_set().contains(name) by {
                    lemma_last_index_of(kn, name);
                    lemma_last_index_of(orig_names, name);
                    assert(last_record(kept@, name) == if last_index_of(orig_names, name) >= 0 {
                        Some(orig[last_index_of(orig_names, name)])
                    } else {
                        None
                    });
                }
            }
        }
        MatricesInfo { all: kept }
    }

    /// Returns the record of the matrix called `name`, if any.
    pub fn get(&self, name: &str) -> (r: Option<&MatrixInfo>)
        ensures
            match r {
                Some(m) => self.lookup(name@) == Some(*m),
                None => self.lookup(name@) is None,
            },
    {
        proof {
            use_type_invariant(self);
        }
        let ghost names = record_names(self.all@);
        let mut k: usize = 0;
        while k < self.all.len()
            invariant
                k <= self.all@.len(),
                names == record_names(self.all@),
                forall|a: int, b: int|
                    0 <= a < b < self.all@.len() ==> #[trigger] self.all@[a].name@ != #[trigger] self.all@[b].name@,
                forall|a: int| 0 <= a < k ==> #[trigger] names[a] != name@,
            decreases self.all@.len() - k,
        {
            if text_eq(self.all[k].name.as_str(), name) {
                proof {
                    assert forall|b: int| k < b < names.len() implies names[b] != name@ by {
                        assert(self.all@[k as int].name@ != self.all@[b].name@);
                    }
                    lemma_last_index_of_unique(names, name@, k as int);
                }
                return Some(&self.all[k]);
            }
            k = k + 1;
        }
        proof {
            lemma_last_index_of(names, name@);
            if names.contains(name@) {
                let a = choose|a: int| 0 <= a < names.len() && names[a] == name@;
                assert(names[a] != name@);
            }
        }
        None
    }

    /// Returns the records, one per name, in no particular order.
    pub fn all(&self) -> (r: &Vec<MatrixInfo>)
        ensures
            r@.len() == self.size(),
            forall|i: int| 0 <= i < r@.len() ==> self.lookup(#[trigger] r@[i].name@) == Some(r@[i]),
            forall|name: Seq<char>| #[trigger] self.lookup(name) is Some ==> r@.contains(self.lookup(name)->0),
    {
        proof {
            use_type_invariant(self);
            assert forall|name: Seq<char>| #[trigger] self.lookup(name) is Some implies self.all@.contains(self.lookup(name)->0) by {
                lemma_last_index_of(record_names(self.all@), name);
            }
            assert forall|i: int| 0 <= i < self.all@.len() implies self.lookup(#[trigger] self.all@[i].name@)
                == Some(self.all@[i]) by {
                let names = record_names(self.all@);
                assert forall|b: int| i < b < names.len() implies names[b] != names[i] by {
                    assert(self.all@[i].name@ != self.all@[b].name@);
                }
                lemma_last_index_of_unique(names, names[i], i);
            }
        }
        &self.all
    }

    /// The number of matrices held.
    pub fn len(&self) -> (n: usize)
        ensures
            n == self.size(),
    {
        self.all.len()
    }

    /// Whether no matrix is held.
    pub fn is_empty(&self) -> (b: bool)
        ensures
            b == (self.size() == 0),
    {
        self.all.len() == 0
    }
}

} // verus!
