//! The value model: BSON-like documents as plain data.
//!
//! A `Document` is an ordered list of key/value entries, as the wire format
//! keeps them; a `Bson` is one value. Specifications speak about the
//! mathematical view of a value (`SpecBson`, `SpecDoc`), in which strings are
//! sequences of characters and vectors are sequences.

use vstd::prelude::*;

verus! {

/// A server logical timestamp: seconds since the epoch plus an ordinal that
/// distinguishes operations within one second.
#[derive(Clone, Copy, Debug, PartialEq, Eq, Structural)]
pub struct Timestamp {
    pub t: u32,
    pub i: u32,
}

/// Mathematical view of a `Bson` value.
pub enum SpecBson {
    FloatingPoint(u64),
    String(Seq<char>),
    Array(Seq<SpecBson>),
    Document(Seq<(Seq<char>, SpecBson)>),
    Boolean(bool),
    Null,
    RegExp(Seq<char>, Seq<char>),
    JavaScriptCode(Seq<char>),
    JavaScriptCodeWithScope(Seq<char>, Seq<(Seq<char>, SpecBson)>),
    I32(i32),
    I64(i64),
    TimeStamp(Timestamp),
    Binary(u8, Seq<u8>),
    ObjectId(Seq<u8>),
    UtcDatetime(i64),
    Symbol(Seq<char>),
}

/// Mathematical view of a `Document`: its entries in order, keys viewed as
/// character sequences.
pub type SpecDoc = Seq<(Seq<char>, SpecBson)>;

/// One BSON value. A floating-point number is carried as its IEEE-754 bit
/// pattern, a datetime as milliseconds since the epoch.
#[derive(Debug, PartialEq)]
pub enum Bson {
    FloatingPoint(u64),
    String(String),
    Array(Vec<Bson>),
    Document(Document),
    Boolean(bool),
    Null,
    RegExp(String, String),
    JavaScriptCode(String),
    JavaScriptCodeWithScope(String, Document),
    I32(i32),
    I64(i64),
    TimeStamp(Timestamp),
    Binary(u8, Vec<u8>),
    ObjectId([u8; 12]),
    UtcDatetime(i64),
    Symbol(String),
}

/// An ordered document: entries keep their insertion order, as the wire
/// format transmits them.
#[derive(Debug, PartialEq)]
pub struct Document {
    pub entries: Vec<(String, Bson)>,
}

impl View for Bson {
    type V = SpecBson;

    open spec fn view(&self) -> SpecBson
        decreases self,
    {
        match self {
            Bson::FloatingPoint(bits) => SpecBson::FloatingPoint(*bits),
            Bson::String(s) => SpecBson::String(s@),
            Bson::Array(els) => SpecBson::Array(view_values(els@)),
            Bson::Document(d) => SpecBson::Document(view_entries(d.entries@)),
            Bson::Boolean(b) => SpecBson::Boolean(*b),
            Bson::Null => SpecBson::Null,
            Bson::RegExp(pat, opts) => SpecBson::RegExp(pat@, opts@),
            Bson::JavaScriptCode(js) => SpecBson::JavaScriptCode(js@),
            Bson::JavaScriptCodeWithScope(js, d) => SpecBson::JavaScriptCodeWithScope(
                js@,
                view_entries(d.entries@),
            ),
            Bson::I32(n) => SpecBson::I32(*n),
            Bson::I64(n) => SpecBson::I64(*n),
            Bson::TimeStamp(ts) => SpecBson::TimeStamp(*ts),
            Bson::Binary(subtype, data) => SpecBson::Binary(*subtype, data@),
            Bson::ObjectId(id) => SpecBson::ObjectId(id@),
            Bson::UtcDatetime(ms) => SpecBson::UtcDatetime(*ms),
            Bson::Symbol(s) => SpecBson::Symbol(s@),
        }
    }
}

/// View of a sequence of values, element by element.
pub open spec fn view_values(s: Seq<Bson>) -> Seq<SpecBson>
    decreases s,
{
    if s.len() == 0 {
        Seq::empty()
    } else {
        seq![s[0]@] + view_values(s.drop_first())
    }
}

/// View of a document's entries, in order.
pub open spec fn view_entries(s: Seq<(String, Bson)>) -> SpecDoc
    decreases s,
{
    if s.len() == 0 {
        Seq::empty()
    } else {
        seq![(s[0].0@, s[0].1@)] + view_entries(s.drop_first())
    }
}

impl View for Document {
    type V = SpecDoc;

    open spec fn view(&self) -> SpecDoc {
        view_entries(self.entries@)
    }
}

/// The value stored under the first entry whose key is `k`, if any.
pub open spec fn lookup(d: SpecDoc, k: Seq<char>) -> Option<SpecBson>
    decreases d.len(),
{
    if d.len() == 0 {
        None
    } else if d[0].0 == k {
        Some(d[0].1)
    } else {
        lookup(d.drop_first(), k)
    }
}

/// An optional document, viewed.
pub open spec fn view_opt_doc(o: Option<Document>) -> Option<SpecDoc> {
    match o {
        Some(d) => Some(d@),
        None => None,
    }
}

/// The documents in `s`, viewed one by one.
pub open spec fn view_docs(s: Seq<Document>) -> Seq<SpecDoc> {
    s.map_values(|d: Document| d@)
}

/// Whether the document has an entry under the key `k`.
pub open spec fn has_key(d: SpecDoc, k: Seq<char>) -> bool {
    lookup(d, k) is Some
}

/// Store `v` under `k`: replace the value in place if the key is present,
/// append a new entry otherwise.
pub open spec fn put(d: SpecDoc, k: Seq<char>, v: SpecBson) -> SpecDoc
    decreases d.len(),
{
    if d.len() == 0 {
        seq![(k, v)]
    } else if d[0].0 == k {
        seq![(k, v)] + d.drop_first()
    } else {
        seq![d[0]] + put(d.drop_first(), k, v)
    }
}

/// Drop the entry under `k`, if any.
pub open spec fn del(d: SpecDoc, k: Seq<char>) -> SpecDoc
    decreases d.len(),
{
    if d.len() == 0 {
        d
    } else if d[0].0 == k {
        d.drop_first()
    } else {
        seq![d[0]] + del(d.drop_first(), k)
    }
}

/// The position of the first entry whose key is `k`; the length if there is
/// none.
pub open spec fn key_index(d: SpecDoc, k: Seq<char>) -> int
    decreases d.len(),
{
    if d.len() == 0 {
        0
    } else if d[0].0 == k {
        0
    } else {
        1 + key_index(d.drop_first(), k)
    }
}

/// The entries viewed one by one: `view_entries` is pointwise.
pub proof fn lemma_view_entries(s: Seq<(String, Bson)>)
    ensures
        view_entries(s).len() == s.len(),
        forall|i: int| 0 <= i < s.len() ==> view_entries(s)[i] == (s[i].0@, s[i].1@),
    decreases s.len(),
{
    if s.len() > 0 {
        lemma_view_entries(s.drop_first());
        let h = seq![(s[0].0@, s[0].1@)];
        let t = view_entries(s.drop_first());
        assert(view_entries(s) == h + t);
        assert(h.len() == 1);
        assert((h + t).len() == 1 + t.len());
        assert forall|i: int| 0 <= i < s.len() implies view_entries(s)[i] == (
            s[i].0@,
            s[i].1@,
        ) by {
            if i > 0 {
                assert((h + t)[i] == t[i - 1]);
                assert(s.drop_first()[i - 1] == s[i]);
            } else {
                assert((h + t)[0] == h[0]);
            }
        }
    }
}

/// The values viewed one by one: `view_values` is pointwise.
pub proof fn lemma_view_values(s: Seq<Bson>)
    ensures
        view_values(s).len() == s.len(),
        forall|i: int| 0 <= i < s.len() ==> view_values(s)[i] == s[i]@,
    decreases s.len(),
{
    if s.len() > 0 {
        lemma_view_values(s.drop_first());
        let h = seq![s[0]@];
        let t = view_values(s.drop_first());
        assert(view_values(s) == h + t);
        assert(h.len() == 1);
        assert((h + t).len() == 1 + t.len());
        assert forall|i: int| 0 <= i < s.len() implies view_values(s)[i] == s[i]@ by {
            if i > 0 {
                assert((h + t)[i] == t[i - 1]);
                assert(s.drop_first()[i - 1] == s[i]);
            } else {
                assert((h + t)[0] == h[0]);
            }
        }
    }
}

/// How `key_index` locates the first matching entry, and how `lookup`, `put`
/// and `del` read off it.
pub proof fn lemma_key_index(d: SpecDoc, k: Seq<char>, v: SpecBson)
    ensures
        0 <= key_index(d, k) <= d.len(),
        forall|j: int| 0 <= j < key_index(d, k) ==> d[j].0 != k,
        key_index(d, k) < d.len() ==> d[key_index(d, k)].0 == k,
        forall|j: int| 0 <= j < d.len() && d[j].0 == k ==> key_index(d, k) <= j,
        lookup(d, k) == if key_index(d, k) < d.len() {
            Some(d[key_index(d, k)].1)
        } else {
            None::<SpecBson>
        },
        put(d, k, v) =~= if key_index(d, k) < d.len() {
            d.update(key_index(d, k), (k, v))
        } else {
            d.push((k, v))
        },
        del(d, k) =~= if key_index(d, k) < d.len() {
            d.remove(key_index(d, k))
        } else {
            d
        },
    decreases d.len(),
{
    if d.len() > 0 && d[0].0 != k {
        let dd = d.drop_first();
        lemma_key_index(dd, k, v);
        let ki = key_index(d, k);
        assert(ki == 1 + key_index(dd, k));
        assert forall|j: int| 0 <= j < ki implies d[j].0 != k by {
            if j > 0 {
                assert(dd[j - 1] == d[j]);
            }
        }
        assert forall|j: int| 0 <= j < d.len() && d[j].0 == k implies ki <= j by {
            if j > 0 {
                assert(dd[j - 1] == d[j]);
            }
        }
        assert(lookup(d, k) == lookup(dd, k));
        if ki < d.len() {
            assert(dd[ki - 1] == d[ki]);
        }
        let h = seq![d[0]];
        assert(put(d, k, v) == h + put(dd, k, v));
        assert(h.len() == 1);
        if key_index(dd, k) < dd.len() {
            assert(put(d, k, v) =~= d.update(ki, (k, v))) by {
                assert((h + put(dd, k, v)).len() == 1 + put(dd, k, v).len());
                assert forall|j: int| 0 <= j < d.len() implies (h + put(dd, k, v))[j]
                    == d.update(ki, (k, v))[j] by {
                    if j > 0 {
                        assert((h + put(dd, k, v))[j] == put(dd, k, v)[j - 1]);
                        assert(put(dd, k, v)[j - 1] == dd.update(ki - 1, (k, v))[j - 1]);
                        if j != ki {
                            assert(dd.update(ki - 1, (k, v))[j - 1] == dd[j - 1]);
                            assert(dd[j - 1] == d[j]);
                        }
                    }
                }
            }
        } else {
            assert(put(d, k, v) =~= d.push((k, v))) by {
                assert((h + put(dd, k, v)).len() == 1 + put(dd, k, v).len());
                assert forall|j: int| 0 <= j < d.len() + 1 implies (h + put(dd, k, v))[j]
                    == d.push((k, v))[j] by {
                    if j > 0 {
                        assert((h + put(dd, k, v))[j] == put(dd, k, v)[j - 1]);
                        assert(put(dd, k, v)[j - 1] == dd.push((k, v))[j - 1]);
                        if j < d.len() {
                            assert(dd.push((k, v))[j - 1] == dd[j - 1]);
                            assert(dd[j - 1] == d[j]);
                        }
                    }
                }
            }
        }
        assert(del(d, k) == h + del(dd, k));
        if key_index(dd, k) < dd.len() {
            assert(del(d, k) =~= d.remove(ki)) by {
                assert((h + del(dd, k)).len() == 1 + del(dd, k).len());
                assert forall|j: int| 0 <= j < d.len() - 1 implies (h + del(dd, k))[j]
                    == d.remove(ki)[j] by {
                    if j > 0 {
                        assert((h + del(dd, k))[j] == del(dd, k)[j - 1]);
                        assert(del(dd, k)[j - 1] == dd.remove(ki - 1)[j - 1]);
                        if j < ki {
                            assert(dd.remove(ki - 1)[j - 1] == dd[j - 1]);
                            assert(dd[j - 1] == d[j]);
                        } else {
                            assert(dd.remove(ki - 1)[j - 1] == dd[j]);
                            assert(dd[j] == d[j + 1]);
                        }
                    }
                }
            }
        } else {
            assert(del(d, k) =~= d) by {
                assert((h + del(dd, k)).len() == 1 + del(dd, k).len());
                assert forall|j: int| 0 <= j < d.len() implies (h + del(dd, k))[j] == d[j] by {
                    if j > 0 {
                        assert((h + del(dd, k))[j] == del(dd, k)[j - 1]);
                        assert(del(dd, k)[j - 1] == dd[j - 1]);
                        assert(dd[j - 1] == d[j]);
                    }
                }
            }
        }
    }
}

/// Whether no two entries share a key.
pub open spec fn keys_unique(d: SpecDoc) -> bool {
    forall|i: int, j: int| 0 <= i < j < d.len() ==> d[i].0 != d[j].0
}

/// A single entry in front of a tail, decomposed.
pub proof fn lemma_cons(h: (Seq<char>, SpecBson), t: SpecDoc)
    ensures
        (seq![h] + t).len() == t.len() + 1,
        (seq![h] + t)[0] == h,
        (seq![h] + t).drop_first() =~= t,
{
    let s = seq![h] + t;
    assert(s.len() == 1 + t.len());
    assert(s[0] == h);
    assert forall|i: int| 0 <= i < t.len() implies s.drop_first()[i] == t[i] by {
        assert(s[i + 1] == t[i]);
    }
}

/// What `lookup` finds after a `put`.
pub proof fn lemma_lookup_put(d: SpecDoc, k: Seq<char>, v: SpecBson, k2: Seq<char>)
    ensures
        lookup(put(d, k, v), k2) == if k2 == k {
            Some(v)
        } else {
            lookup(d, k2)
        },
    decreases d.len(),
{
    if d.len() == 0 {
        let s = put(d, k, v);
        assert(s == seq![(k, v)]);
        assert(s[0] == (k, v));
        assert(s.drop_first() =~= Seq::<(Seq<char>, SpecBson)>::empty());
        if k2 != k {
            assert(lookup(s, k2) == lookup(s.drop_first(), k2));
        }
    } else if d[0].0 == k {
        let dd = d.drop_first();
        lemma_cons((k, v), dd);
        let s = seq![(k, v)] + dd;
        assert(put(d, k, v) == s);
        if k2 != k {
            assert(lookup(s, k2) == lookup(dd, k2));
            assert(lookup(d, k2) == lookup(dd, k2));
        }
    } else {
        let dd = d.drop_first();
        lemma_lookup_put(dd, k, v, k2);
        lemma_cons(d[0], put(dd, k, v));
        let s = seq![d[0]] + put(dd, k, v);
        assert(put(d, k, v) == s);
        assert(s[0] == d[0]);
        if k2 == d[0].0 {
            assert(lookup(s, k2) == Some(d[0].1));
            assert(lookup(d, k2) == Some(d[0].1));
        } else {
            assert(lookup(s, k2) == lookup(put(dd, k, v), k2));
            assert(lookup(d, k2) == lookup(dd, k2));
        }
    }
}

/// A document in which no entry bears the key `k` has nothing under `k`.
pub proof fn lemma_lookup_absent(d: SpecDoc, k: Seq<char>)
    requires
        forall|j: int| 0 <= j < d.len() ==> d[j].0 != k,
    ensures
        lookup(d, k) is None,
{
    lemma_key_index(d, k, SpecBson::Null);
}

/// `put` keeps keys unique.
pub proof fn lemma_put_unique(d: SpecDoc, k: Seq<char>, v: SpecBson)
    requires
        keys_unique(d),
    ensures
        keys_unique(put(d, k, v)),
{
    lemma_key_index(d, k, v);
    let ki = key_index(d, k);
    let s = put(d, k, v);
    if ki < d.len() {
        assert(s =~= d.update(ki, (k, v)));
        assert forall|i: int, j: int| 0 <= i < j < s.len() implies s[i].0 != s[j].0 by {
            assert(d[ki].0 == k);
            assert(s[i].0 == d[i].0);
            assert(s[j].0 == d[j].0);
        }
    } else {
        assert(s =~= d.push((k, v)));
        assert forall|i: int, j: int| 0 <= i < j < s.len() implies s[i].0 != s[j].0 by {
            if j == d.len() {
                assert(s[j].0 == k);
                assert(s[i].0 == d[i].0);
            } else {
                assert(s[i].0 == d[i].0);
                assert(s[j].0 == d[j].0);
            }
        }
    }
}

/// Removing the entry at `i` does not change what is found under any other
/// entry's key.
pub proof fn lemma_lookup_remove(d: SpecDoc, i: int, k2: Seq<char>)
    requires
        0 <= i < d.len(),
        d[i].0 != k2,
    ensures
        lookup(d.remove(i), k2) == lookup(d, k2),
    decreases d.len(),
{
    let dd = d.drop_first();
    if i == 0 {
        assert(d.remove(0) =~= dd);
    } else {
        lemma_lookup_remove(dd, i - 1, k2);
        assert(dd[i - 1] == d[i]);
        let r = d.remove(i);
        assert(r[0] == d[0]);
        assert(r.len() > 0);
        assert(r.drop_first() =~= dd.remove(i - 1)) by {
            assert forall|j: int| 0 <= j < dd.remove(i - 1).len() implies r.drop_first()[j]
                == dd.remove(i - 1)[j] by {
                if j + 1 < i {
                    assert(r[j + 1] == d[j + 1]);
                    assert(dd.remove(i - 1)[j] == dd[j]);
                    assert(dd[j] == d[j + 1]);
                } else {
                    assert(r[j + 1] == d[j + 2]);
                    assert(dd.remove(i - 1)[j] == dd[j + 1]);
                    assert(dd[j + 1] == d[j + 2]);
                }
            }
        }
        if d[0].0 == k2 {
            assert(lookup(r, k2) == Some(r[0].1));
            assert(lookup(d, k2) == Some(d[0].1));
        } else {
            assert(lookup(r, k2) == lookup(r.drop_first(), k2));
            assert(lookup(d, k2) == lookup(dd, k2));
        }
    }
}

/// What `lookup` finds after a `del`, when keys are unique; and that `del`
/// keeps them unique.
pub proof fn lemma_lookup_del(d: SpecDoc, k: Seq<char>, k2: Seq<char>)
    requires
        keys_unique(d),
    ensures
        keys_unique(del(d, k)),
        lookup(del(d, k), k2) == if k2 == k {
            None::<SpecBson>
        } else {
            lookup(d, k2)
        },
{
    lemma_key_index(d, k, SpecBson::Null);
    let ki = key_index(d, k);
    let s = del(d, k);
    if ki < d.len() {
        assert(s =~= d.remove(ki));
        assert forall|i: int, j: int| 0 <= i < j < s.len() implies s[i].0 != s[j].0 by {
            if j < ki {
                assert(s[i] == d[i] && s[j] == d[j]);
            } else if i < ki {
                assert(s[i] == d[i] && s[j] == d[j + 1]);
            } else {
                assert(s[i] == d[i + 1] && s[j] == d[j + 1]);
            }
        }
        if k2 == k {
            assert forall|j: int| 0 <= j < s.len() implies s[j].0 != k by {
                if j < ki {
                    assert(s[j] == d[j]);
                } else {
                    assert(s[j] == d[j + 1]);
                    assert(d[ki].0 == k);
                }
            }
            lemma_lookup_absent(s, k);
        } else {
            lemma_lookup_remove(d, ki, k2);
        }
    } else {
        assert(s =~= d);
        if k2 == k {
            lemma_lookup_absent(d, k);
        }
    }
}

impl Document {
    /// An empty document.
    pub fn new() -> (r: Document)
        ensures
            r@ == Seq::<(Seq<char>, SpecBson)>::empty(),
    {
        Document { entries: Vec::new() }
    }

    /// The number of entries.
    pub fn len(&self) -> (n: usize)
        ensures
            n == self@.len(),
    {
        proof {
            lemma_view_entries(self.entries@);
        }
        self.entries.len()
    }

    /// A borrow of the value stored under `k`, if any.
    pub fn get(&self, k: &String) -> (r: Option<&Bson>)
        ensures
            match r {
                Some(v) => lookup(self@, k@) == Some(v@),
                None => lookup(self@, k@) is None,
            },
    {
        proof {
            lemma_view_entries(self.entries@);
            lemma_key_index(self@, k@, SpecBson::Null);
        }
        let n = self.entries.len();
        let mut i: usize = 0;
        while i < n
            invariant
                n == self.entries.len(),
                i <= n,
                self@.len() == n,
                forall|j: int| 0 <= j < self@.len() ==> self@[j] == (
                    self.entries@[j].0@,
                    self.entries@[j].1@,
                ),
                forall|j: int| 0 <= j < i ==> self@[j].0 != k@,
                lookup(self@, k@) == if key_index(self@, k@) < self@.len() {
                    Some(self@[key_index(self@, k@)].1)
                } else {
                    None::<SpecBson>
                },
                0 <= key_index(self@, k@) <= self@.len(),
                key_index(self@, k@) < self@.len() ==> self@[key_index(self@, k@)].0 == k@,
                forall|j: int| 0 <= j < key_index(self@, k@) ==> self@[j].0 != k@,
                forall|j: int|
                    0 <= j < self@.len() && self@[j].0 == k@ ==> key_index(self@, k@) <= j,
            decreases n - i,
        {
            if self.entries[i].0 == *k {
                assert(self.entries@[i as int].0@ == k@);
                assert(self@[i as int].0 == k@);
                assert(key_index(self@, k@) <= i);
                assert(key_index(self@, k@) >= i);
                return Some(&self.entries[i].1);
            }
            i += 1;
        }
        assert(key_index(self@, k@) >= n);
        None
    }

    /// Whether an entry is stored under `k`.
    pub fn contains_key(&self, k: &String) -> (r: bool)
        ensures
            r == has_key(self@, k@),
    {
        match self.get(k) {
            Some(_) => true,
            None => false,
        }
    }

    /// Store `v` under `k`: replace in place when the key is present, append
    /// otherwise.
    pub fn insert(&mut self, k: String, v: Bson)
        ensures
            final(self)@ == put(old(self)@, k@, v@),
    {
        proof {
            lemma_view_entries(self.entries@);
            lemma_key_index(self@, k@, v@);
        }
        let ghost d0 = self@;
        let n = self.entries.len();
        let mut i: usize = 0;
        while i < n
            invariant
                self == old(self),
                d0 == self@,
                n == self.entries.len(),
                i <= n,
                self@.len() == n,
                forall|j: int| 0 <= j < self@.len() ==> self@[j] == (
                    self.entries@[j].0@,
                    self.entries@[j].1@,
                ),
                forall|j: int| 0 <= j < i ==> self@[j].0 != k@,
                0 <= key_index(d0, k@) <= d0.len(),
                key_index(d0, k@) < d0.len() ==> d0[key_index(d0, k@)].0 == k@,
                forall|j: int| 0 <= j < key_index(d0, k@) ==> d0[j].0 != k@,
                forall|j: int| 0 <= j < d0.len() && d0[j].0 == k@ ==> key_index(d0, k@) <= j,
                put(d0, k@, v@) =~= if key_index(d0, k@) < d0.len() {
                    d0.update(key_index(d0, k@), (k@, v@))
                } else {
                    d0.push((k@, v@))
                },
            decreases n - i,
        {
            if self.entries[i].0 == k {
                assert(self.entries@[i as int].0@ == k@);
                assert(d0[i as int].0 == k@);
                assert(key_index(d0, k@) <= i);
                assert(key_index(d0, k@) >= i);
                self.entries[i] = (k, v);
                proof {
                    lemma_view_entries(self.entries@);
                    assert(final(self)@ =~= d0.update(i as int, (k@, v@)));
                }
                return;
            }
            i += 1;
        }
        assert(key_index(d0, k@) >= n);
        self.entries.push((k, v));
        proof {
            lemma_view_entries(self.entries@);
            assert(final(self)@ =~= d0.push((k@, v@)));
        }
    }

    /// Drop the entry stored under `k`, if any.
    pub fn remove(&mut self, k: &String)
        ensures
            final(self)@ == del(old(self)@, k@),
    {
        proof {
            lemma_view_entries(self.entries@);
            lemma_key_index(self@, k@, SpecBson::Null);
        }
        let ghost d0 = self@;
        let n = self.entries.len();
        let mut i: usize = 0;
        while i < n
            invariant
                self == old(self),
                d0 == self@,
                n == self.entries.len(),
                i <= n,
                self@.len() == n,
                forall|j: int| 0 <= j < self@.len() ==> self@[j] == (
                    self.entries@[j].0@,
                    self.entries@[j].1@,
                ),
                forall|j: int| 0 <= j < i ==> self@[j].0 != k@,
                0 <= key_index(d0, k@) <= d0.len(),
                key_index(d0, k@) < d0.len() ==> d0[key_index(d0, k@)].0 == k@,
                forall|j: int| 0 <= j < key_index(d0, k@) ==> d0[j].0 != k@,
                forall|j: int| 0 <= j < d0.len() && d0[j].0 == k@ ==> key_index(d0, k@) <= j,
                del(d0, k@) =~= if key_index(d0, k@) < d0.len() {
                    d0.remove(key_index(d0, k@))
                } else {
                    d0
                },
            decreases n - i,
        {
            if self.entries[i].0 == *k {
                assert(self.entries@[i as int].0@ == k@);
                assert(d0[i as int].0 == k@);
                assert(key_index(d0, k@) <= i);
                assert(key_index(d0, k@) >= i);
                self.entries.remove(i);
                proof {
                    lemma_view_entries(self.entries@);
                    assert(final(self)@ =~= d0.remove(i as int));
                }
                return;
            }
            i += 1;
        }
        assert(key_index(d0, k@) >= n);
        assert(self@ =~= del(d0, k@));
    }
}

/// A value and its view always have the same variant.
pub proof fn lemma_view_shape(b: Bson)
    ensures
        (b is FloatingPoint) == (b@ is FloatingPoint),
        (b is String) == (b@ is String),
        (b is Array) == (b@ is Array),
        (b is Document) == (b@ is Document),
        (b is Boolean) == (b@ is Boolean),
        (b is Null) == (b@ is Null),
        (b is RegExp) == (b@ is RegExp),
        (b is JavaScriptCode) == (b@ is JavaScriptCode),
        (b is JavaScriptCodeWithScope) == (b@ is JavaScriptCodeWithScope),
        (b is I32) == (b@ is I32),
        (b is I64) == (b@ is I64),
        (b is TimeStamp) == (b@ is TimeStamp),
        (b is Binary) == (b@ is Binary),
        (b is ObjectId) == (b@ is ObjectId),
        (b is UtcDatetime) == (b@ is UtcDatetime),
        (b is Symbol) == (b@ is Symbol),
{
    match b {
        Bson::FloatingPoint(_) => {},
        Bson::String(_) => {},
        Bson::Array(_) => {},
        Bson::Document(_) => {},
        Bson::Boolean(_) => {},
        Bson::Null => {},
        Bson::RegExp(_, _) => {},
        Bson::JavaScriptCode(_) => {},
        Bson::JavaScriptCodeWithScope(_, _) => {},
        Bson::I32(_) => {},
        Bson::I64(_) => {},
        Bson::TimeStamp(_) => {},
        Bson::Binary(_, _) => {},
        Bson::ObjectId(_) => {},
        Bson::UtcDatetime(_) => {},
        Bson::Symbol(_) => {},
    }
}

impl Bson {
    /// A structurally equal copy: unlike a derived clone, the contract states
    /// that the copy has the same view.
    pub fn deep_clone(&self) -> (r: Bson)
        ensures
            r@ == self@,
        decreases self,
    {
        match self {
            Bson::FloatingPoint(bits) => Bson::FloatingPoint(*bits),
            Bson::String(s) => Bson::String(s.clone()),
            Bson::Array(els) => {
                let n = els.len();
                let mut out: Vec<Bson> = Vec::new();
                let mut i: usize = 0;
                proof {
                    lemma_view_values(els@);
                }
                while i < n
                    invariant
                        *self == Bson::Array(*els),
                        n == els.len(),
                        i <= n,
                        out@.len() == i,
                        forall|j: int| 0 <= j < i ==> out@[j]@ == els@[j]@,
                    decreases n - i,
                {
                    proof {
                        assert(*self == Bson::Array(*els));
                        assert(decreases_to!(*self => (*self)->Array_0));
                        assert((*self)->Array_0 == *els);
                        assert(decreases_to!(*els => els@));
                        assert(decreases_to!(els@ => els@[i as int]));
                    }
                    let c = els[i].deep_clone();
                    out.push(c);
                    i += 1;
                }
                proof {
                    lemma_view_values(out@);
                    lemma_view_values(els@);
                    assert(view_values(out@) =~= view_values(els@));
                }
                Bson::Array(out)
            },
            Bson::Document(d) => Bson::Document(d.deep_clone()),
            Bson::Boolean(b) => Bson::Boolean(*b),
            Bson::Null => Bson::Null,
            Bson::RegExp(pat, opts) => Bson::RegExp(pat.clone(), opts.clone()),
            Bson::JavaScriptCode(js) => Bson::JavaScriptCode(js.clone()),
            Bson::JavaScriptCodeWithScope(js, d) => Bson::JavaScriptCodeWithScope(
                js.clone(),
                d.deep_clone(),
            ),
            Bson::I32(n) => Bson::I32(*n),
            Bson::I64(n) => Bson::I64(*n),
            Bson::TimeStamp(ts) => Bson::TimeStamp(*ts),
            Bson::Binary(subtype, data) => {
                let copy = data.clone();
                proof {
                    assert(copy@ =~= data@);
                }
                Bson::Binary(*subtype, copy)
            },
            Bson::ObjectId(id) => Bson::ObjectId(*id),
            Bson::UtcDatetime(ms) => Bson::UtcDatetime(*ms),
            Bson::Symbol(s) => Bson::Symbol(s.clone()),
        }
    }
}

impl Document {
    /// A structurally equal copy: the contract states that the copy has the
    /// same view.
    pub fn deep_clone(&self) -> (r: Document)
        ensures
            r@ == self@,
        decreases self,
    {
        let n = self.entries.len();
        let mut out: Vec<(String, Bson)> = Vec::new();
        let mut i: usize = 0;
        while i < n
            invariant
                n == self.entries.len(),
                i <= n,
                out@.len() == i,
                forall|j: int| #![all_triggers] 0 <= j < i ==> out@[j].0@ == self.entries@[j].0@
                    && out@[j].1@ == self.entries@[j].1@,
            decreases n - i,
        {
            proof {
                assert(decreases_to!(*self => self.entries));
                assert(decreases_to!(self.entries => self.entries@));
                assert(decreases_to!(self.entries@ => self.entries@[i as int]));
            }
            let key = self.entries[i].0.clone();
            let val = self.entries[i].1.deep_clone();
            out.push((key, val));
            i += 1;
        }
        proof {
            lemma_view_entries(out@);
            lemma_view_entries(self.entries@);
            assert(view_entries(out@) =~= view_entries(self.entries@));
        }
        Document { entries: out }
    }
}

} // verus!

