//! A plain model of configuration documents.
//!
//! Manifests, registry listings and the tool configuration are all tables of
//! keyed values.  [`DocValue`] holds such a document as plain data; the
//! codec module moves it across the textual document format, and the parsers
//! of the crate read it.  Tables keep their entries in order; a lookup
//! returns the first entry with the key.

use vstd::prelude::*;
use crate::strutil::str_eq;

verus! {

/// Spec-level document node: strings are character sequences.
pub enum DocV {
    Str(Seq<char>),
    Int(i64),
    Bool(bool),
    Arr(Seq<DocV>),
    Table(Seq<(Seq<char>, DocV)>),
}

/// One node of a document: a scalar, an array, or a table of keyed nodes.
#[derive(Debug)]
pub enum DocValue {
    Str(String),
    Int(i64),
    Bool(bool),
    Arr(Vec<DocValue>),
    Table(Vec<(String, DocValue)>),
}

/// The spec value of a document node.
pub open spec fn dv(d: DocValue) -> DocV
    decreases d, 1int,
{
    match d {
        DocValue::Str(s) => DocV::Str(s@),
        DocValue::Int(i) => DocV::Int(i),
        DocValue::Bool(b) => DocV::Bool(b),
        DocValue::Arr(v) => {
            proof {
                assert(decreases_to!(d => d->Arr_0));
                assert(decreases_to!(d->Arr_0 => (d->Arr_0)@));
            }
            DocV::Arr(arr_view(v@))
        },
        DocValue::Table(t) => {
            proof {
                assert(decreases_to!(d => d->Table_0));
                assert(decreases_to!(d->Table_0 => (d->Table_0)@));
            }
            DocV::Table(ents_view(t@))
        },
    }
}

/// The spec value of a sequence of nodes, element by element.
pub open spec fn arr_view(v: Seq<DocValue>) -> Seq<DocV>
    decreases v, 0int,
{
    if v.len() == 0 {
        Seq::empty()
    } else {
        arr_view(v.drop_last()).push(dv(v.last()))
    }
}

/// The spec value of a table's entries, entry by entry.
pub open spec fn ents_view(t: Seq<(String, DocValue)>) -> Seq<(Seq<char>, DocV)>
    decreases t, 0int,
{
    if t.len() == 0 {
        Seq::empty()
    } else {
        ents_view(t.drop_last()).push((t.last().0@, dv(t.last().1)))
    }
}

/// `arr_view` maps the sequence pointwise.
pub proof fn lemma_arr_view(v: Seq<DocValue>)
    ensures
        arr_view(v).len() == v.len(),
        forall|i: int| 0 <= i < v.len() ==> arr_view(v)[i] == dv(v[i]),
    decreases v.len(),
{
    if v.len() > 0 {
        lemma_arr_view(v.drop_last());
    }
}

/// `ents_view` maps the entries pointwise.
pub proof fn lemma_ents_view(t: Seq<(String, DocValue)>)
    ensures
        ents_view(t).len() == t.len(),
        forall|i: int| 0 <= i < t.len() ==> ents_view(t)[i] == (t[i].0@, dv(t[i].1)),
    decreases t.len(),
{
    if t.len() > 0 {
        lemma_ents_view(t.drop_last());
    }
}

impl View for DocValue {
    type V = DocV;

    open spec fn view(&self) -> DocV {
        dv(*self)
    }
}

/// First-match lookup among the entries of a table, starting at `i`.
pub open spec fn tbl_get_from(t: Seq<(Seq<char>, DocV)>, k: Seq<char>, i: int) -> Option<DocV>
    decreases t.len() - i,
{
    if i < 0 || i >= t.len() {
        None
    } else if t[i].0 == k {
        Some(t[i].1)
    } else {
        tbl_get_from(t, k, i + 1)
    }
}

/// First-match lookup among the entries of a table.
pub open spec fn tbl_get(t: Seq<(Seq<char>, DocV)>, k: Seq<char>) -> Option<DocV> {
    tbl_get_from(t, k, 0)
}

/// A lookup that skips entries with other keys finds the same entry.
pub proof fn lemma_tbl_get_skip(t: Seq<(Seq<char>, DocV)>, k: Seq<char>, i: int)
    requires
        0 <= i <= t.len(),
        forall|j: int| 0 <= j < i ==> t[j].0 != k,
    ensures
        tbl_get(t, k) == tbl_get_from(t, k, i),
    decreases i,
{
    if i > 0 {
        lemma_tbl_get_skip(t, k, i - 1);
    }
}

impl DocValue {
    /// A deep copy of the node.
    pub fn clone_value(&self) -> (r: DocValue)
        ensures
            r@ == self@,
        decreases *self,
    {
        match self {
            DocValue::Str(s) => DocValue::Str(s.clone()),
            DocValue::Int(i) => DocValue::Int(*i),
            DocValue::Bool(b) => DocValue::Bool(*b),
            DocValue::Arr(v) => {
                let n = v.len();
                let mut out: Vec<DocValue> = Vec::new();
                let mut i: usize = 0;
                proof {
                    lemma_arr_view(v@);
                }
                while i < n
                    invariant
                        n == v@.len(),
                        i <= n,
                        out@.len() == i,
                        *self is Arr && (*self)->Arr_0 == *v,
                        forall|j: int| 0 <= j < i ==> dv(out@[j]) == dv(v@[j]),
                    decreases n - i,
                {
                    proof {
                        assert(decreases_to!(*self => (*self)->Arr_0));
                        assert(decreases_to!((*self)->Arr_0 => ((*self)->Arr_0)@));
                        assert(decreases_to!(v@ => v@[i as int]));
                    }
                    out.push(v[i].clone_value());
                    i = i + 1;
                }
                proof {
                    lemma_arr_view(out@);
                    assert(arr_view(out@) =~= arr_view(v@));
                }
                DocValue::Arr(out)
            },
            DocValue::Table(t) => {
                let n = t.len();
                let mut out: Vec<(String, DocValue)> = Vec::new();
                let mut i: usize = 0;
                proof {
                    lemma_ents_view(t@);
                }
                while i < n
                    invariant
                        n == t@.len(),
                        i <= n,
                        out@.len() == i,
                        *self is Table && (*self)->Table_0 == *t,
                        forall|j: int| 0 <= j < i ==> out@[j].0@ == t@[j].0@ && dv(out@[j].1) == dv(t@[j].1),
                    decreases n - i,
                {
                    proof {
                        assert(decreases_to!(*self => (*self)->Table_0));
                        assert(decreases_to!((*self)->Table_0 => ((*self)->Table_0)@));
                        assert(decreases_to!(t@ => t@[i as int]));
                        assert(decreases_to!(t@[i as int] => t@[i as int].1));
                    }
                    out.push((t[i].0.clone(), t[i].1.clone_value()));
                    i = i + 1;
                }
                proof {
                    lemma_ents_view(out@);
                    assert(ents_view(out@) =~= ents_view(t@));
                }
                DocValue::Table(out)
            },
        }
    }
}

/// First-match lookup of a key among table entries.
pub fn table_get<'a>(t: &'a Vec<(String, DocValue)>, k: &str) -> (r: Option<&'a DocValue>)
    ensures
        match r {
            Some(v) => tbl_get(ents_view(t@), k@) == Some(v@),
            None => tbl_get(ents_view(t@), k@) is None,
        },
{
    let ghost ev = ents_view(t@);
    proof {
        lemma_ents_view(t@);
    }
    let n = t.len();
    let mut i: usize = 0;
    while i < n
        invariant
            n == t@.len(),
            i <= n,
            ev == ents_view(t@),
            ev.len() == n,
            forall|j: int| 0 <= j < n ==> ev[j] == (t@[j].0@, dv(t@[j].1)),
            tbl_get(ev, k@) == tbl_get_from(ev, k@, i as int),
        decreases n - i,
    {
        if str_eq(t[i].0.as_str(), k) {
            assert(ev[i as int].0 == k@);
            return Some(&t[i].1);
        }
        assert(ev[i as int].0 != k@);
        i = i + 1;
    }
    None
}

} // verus!
