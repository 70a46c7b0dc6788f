//! Named request parameters kept in key order, and the query strings built
//! from them.

use vstd::prelude::*;
use crate::text::{key_lt, key_less, text_eq, owned, lemma_key_lt_total, lemma_key_lt_transitive,
    lemma_key_lt_irreflexive, lemma_key_lt_asymmetric};

verus! {

/// A parameter as characters: its key and its value.
pub type ParamView = (Seq<char>, Seq<char>);

/// Keys strictly increase along the sequence (so each key occurs once).
#[verifier::opaque]
pub open spec fn sorted_keys(s: Seq<ParamView>) -> bool {
    forall|i: int, j: int| 0 <= i < j < s.len() ==> key_lt(#[trigger] s[i].0, #[trigger] s[j].0)
}

/// `s` with `key` set to `value`: an existing entry of that key has its value
/// replaced; otherwise the pair goes before the first larger key.
#[verifier::opaque]
pub open spec fn inserted(s: Seq<ParamView>, key: Seq<char>, value: Seq<char>) -> Seq<ParamView>
    decreases s.len(),
{
    if s.len() == 0 {
        seq![(key, value)]
    } else if s[0].0 == key {
        seq![(key, value)] + s.drop_first()
    } else if key_lt(key, s[0].0) {
        seq![(key, value)] + s
    } else {
        seq![s[0]] + inserted(s.drop_first(), key, value)
    }
}

/// `key=value`.
pub open spec fn pair_text(p: ParamView) -> Seq<char> {
    p.0 + "="@ + p.1
}

/// The pairs of `s` in order, each as `key=value`, joined by `&`.
pub open spec fn query_of(s: Seq<ParamView>) -> Seq<char>
    decreases s.len(),
{
    if s.len() == 0 {
        Seq::empty()
    } else if s.len() == 1 {
        pair_text(s[0])
    } else {
        query_of(s.drop_last()) + "&"@ + pair_text(s.last())
    }
}

/// Decimal digits of `n`, most significant first, without leading zeros.
pub open spec fn decimal(n: nat) -> Seq<char>
    decreases n,
{
    if n < 10 {
        seq![digit_char(n)]
    } else {
        decimal(n / 10).push(digit_char(n % 10))
    }
}

pub open spec fn digit_char(d: nat) -> char {
    if d == 0 { '0' } else if d == 1 { '1' } else if d == 2 { '2' } else if d == 3 { '3' }
    else if d == 4 { '4' } else if d == 5 { '5' } else if d == 6 { '6' } else if d == 7 { '7' }
    else if d == 8 { '8' } else { '9' }
}

/// The digit `d` as text.
fn digit_text(d: u64) -> (r: &'static str)
    requires
        d < 10,
    ensures
        r@ == seq![digit_char(d as nat)],
{
    proof {
        reveal_strlit("0");
        reveal_strlit("1");
        reveal_strlit("2");
        reveal_strlit("3");
        reveal_strlit("4");
        reveal_strlit("5");
        reveal_strlit("6");
        reveal_strlit("7");
        reveal_strlit("8");
        reveal_strlit("9");
    }
    match d {
        0 => "0",
        1 => "1",
        2 => "2",
        3 => "3",
        4 => "4",
        5 => "5",
        6 => "6",
        7 => "7",
        8 => "8",
        _ => "9",
    }
}

/// `n` in decimal digits.
pub fn u64_text(n: u64) -> (r: String)
    ensures
        r@ == decimal(n as nat),
    decreases n,
{
    if n < 10 {
        owned(digit_text(n))
    } else {
        let mut r = u64_text(n / 10);
        r.append(digit_text(n % 10));
        assert(r@ =~= decimal(n as nat));
        r
    }
}

/// The parameters with the timestamp and, when it is positive, the receive
/// window that a signed request carries.
pub open spec fn signed_entries(s: Seq<ParamView>, recv_window: u64, timestamp: u64) -> Seq<ParamView> {
    let with_window = if recv_window > 0 {
        inserted(s, "recvWindow"@, decimal(recv_window as nat))
    } else {
        s
    };
    inserted(with_window, "timestamp"@, decimal(timestamp as nat))
}

/// The query string of a signed request with parameters `s`.
pub open spec fn signed_query(s: Seq<ParamView>, recv_window: u64, timestamp: u64) -> Seq<char> {
    query_of(signed_entries(s, recv_window, timestamp))
}

/// `s` with `key` set to `value` when there is a value.
pub open spec fn put(s: Seq<ParamView>, key: Seq<char>, value: Option<Seq<char>>) -> Seq<ParamView> {
    match value {
        Some(v) => inserted(s, key, v),
        None => s,
    }
}

/// The single parameter `symbol`.
pub open spec fn symbol_entries(symbol: Seq<char>) -> Seq<ParamView> {
    inserted(Seq::empty(), "symbol"@, symbol)
}

pub proof fn lemma_inserted_sorted(s: Seq<ParamView>, key: Seq<char>, value: Seq<char>)
    requires
        sorted_keys(s),
    ensures
        sorted_keys(inserted(s, key, value)),
        forall|j: int| 0 <= j < inserted(s, key, value).len() ==>
            (#[trigger] inserted(s, key, value)[j]).0 == key || exists|i: int| 0 <= i < s.len() && s[i].0 == inserted(s, key, value)[j].0,
    decreases s.len(),
{
    reveal(inserted);
    reveal(sorted_keys);
    let r = inserted(s, key, value);
    if s.len() == 0 {
    } else if s[0].0 == key {
        assert forall|i: int, j: int| 0 <= i < j < r.len() implies key_lt(#[trigger] r[i].0, #[trigger] r[j].0) by {
            assert(s[i].0 == r[i].0 && s[j].0 == r[j].0);
        }
        assert forall|j: int| 0 <= j < r.len() implies (#[trigger] r[j]).0 == key || exists|i: int| 0 <= i < s.len() && s[i].0 == r[j].0 by {
            assert(s[j].0 == r[j].0);
        }
    } else if key_lt(key, s[0].0) {
        assert forall|i: int, j: int| 0 <= i < j < r.len() implies key_lt(#[trigger] r[i].0, #[trigger] r[j].0) by {
            if i == 0 {
                if j > 1 {
                    assert(key_lt(s[0].0, s[j - 1].0));
                    lemma_key_lt_transitive(key, s[0].0, s[j - 1].0);
                }
            } else {
                assert(key_lt(s[i - 1].0, s[j - 1].0));
            }
        }
        assert forall|j: int| 0 <= j < r.len() implies (#[trigger] r[j]).0 == key || exists|i: int| 0 <= i < s.len() && s[i].0 == r[j].0 by {
            if j > 0 {
                assert(s[j - 1].0 == r[j].0);
            }
        }
    } else {
        let t = s.drop_first();
        assert(sorted_keys(t)) by {
            assert forall|i: int, j: int| 0 <= i < j < t.len() implies key_lt(#[trigger] t[i].0, #[trigger] t[j].0) by {
                assert(key_lt(s[i + 1].0, s[j + 1].0));
            }
        }
        lemma_inserted_sorted(t, key, value);
        let rt = inserted(t, key, value);
        lemma_key_lt_total(key, s[0].0);
        assert forall|i: int, j: int| 0 <= i < j < r.len() implies key_lt(#[trigger] r[i].0, #[trigger] r[j].0) by {
            if i == 0 {
                assert(r[j] == rt[j - 1]);
                if rt[j - 1].0 == key {
                } else {
                    let m = choose|m: int| 0 <= m < t.len() && t[m].0 == rt[j - 1].0;
                    assert(key_lt(s[0].0, s[m + 1].0));
                }
            } else {
                assert(r[i] == rt[i - 1] && r[j] == rt[j - 1]);
            }
        }
        assert forall|j: int| 0 <= j < r.len() implies (#[trigger] r[j]).0 == key || exists|i: int| 0 <= i < s.len() && s[i].0 == r[j].0 by {
            if j == 0 {
                assert(s[0].0 == r[0].0);
            } else {
                assert(r[j] == rt[j - 1]);
                if rt[j - 1].0 != key {
                    let m = choose|m: int| 0 <= m < t.len() && t[m].0 == rt[j - 1].0;
                    assert(s[m + 1].0 == r[j].0);
                }
            }
        }
    }
}

/// `inserted` at a position `i` where every earlier key is smaller than `key`
/// and the key at `i`, if any, is not.
proof fn lemma_inserted_at(s: Seq<ParamView>, key: Seq<char>, value: Seq<char>, i: int)
    requires
        0 <= i <= s.len(),
        forall|j: int| 0 <= j < i ==> key_lt(#[trigger] s[j].0, key),
        i < s.len() ==> !key_lt(s[i].0, key),
    ensures
        i < s.len() && s[i].0 == key ==> inserted(s, key, value) == s.update(i, (key, value)),
        !(i < s.len() && s[i].0 == key) ==> inserted(s, key, value) == s.insert(i, (key, value)),
    decreases i,
{
    reveal(inserted);
    if i == 0 {
        if s.len() > 0 {
            lemma_key_lt_total(key, s[0].0);
            if s[0].0 == key {
                assert(seq![(key, value)] + s.drop_first() =~= s.update(0, (key, value)));
            } else {
                assert(seq![(key, value)] + s =~= s.insert(0, (key, value)));
            }
        } else {
            assert(seq![(key, value)] =~= s.insert(0, (key, value)));
        }
    } else {
        assert(key_lt(s[0].0, key));
        lemma_key_lt_asymmetric(s[0].0, key);
        lemma_key_lt_irreflexive(key);
        let t = s.drop_first();
        assert forall|j: int| 0 <= j < i - 1 implies key_lt(#[trigger] t[j].0, key) by {
            assert(key_lt(s[j + 1].0, key));
        }
        lemma_inserted_at(t, key, value, i - 1);
        if i < s.len() && s[i].0 == key {
            assert(seq![s[0]] + t.update(i - 1, (key, value)) =~= s.update(i, (key, value)));
        } else {
            assert(seq![s[0]] + t.insert(i - 1, (key, value)) =~= s.insert(i, (key, value)));
        }
    }
}

/// Setting two different keys gives the same parameters in either order, so
/// the query string depends only on which keys are set to which values, never
/// on the order in which they were set.
pub proof fn lemma_insert_commutes(
    s: Seq<ParamView>,
    k1: Seq<char>,
    v1: Seq<char>,
    k2: Seq<char>,
    v2: Seq<char>,
)
    requires
        k1 != k2,
    ensures
        inserted(inserted(s, k1, v1), k2, v2) == inserted(inserted(s, k2, v2), k1, v1),
    decreases s.len(),
{
    reveal(inserted);
    lemma_key_lt_total(k1, k2);
    lemma_key_lt_irreflexive(k1);
    lemma_key_lt_irreflexive(k2);
    if key_lt(k1, k2) {
        lemma_key_lt_asymmetric(k1, k2);
    } else {
        lemma_key_lt_asymmetric(k2, k1);
    }
    if s.len() == 0 {
        assert(seq![(k1, v1)].drop_first() =~= Seq::<ParamView>::empty());
        assert(seq![(k2, v2)].drop_first() =~= Seq::<ParamView>::empty());
        assert(s =~= Seq::<ParamView>::empty());
        assert(inserted(Seq::<ParamView>::empty(), k1, v1) == seq![(k1, v1)]);
        assert(inserted(Seq::<ParamView>::empty(), k2, v2) == seq![(k2, v2)]);
        if key_lt(k1, k2) {
            assert(inserted(inserted(s, k1, v1), k2, v2) =~= seq![(k1, v1), (k2, v2)]);
            assert(inserted(inserted(s, k2, v2), k1, v1) =~= seq![(k1, v1), (k2, v2)]);
        } else {
            assert(inserted(inserted(s, k1, v1), k2, v2) =~= seq![(k2, v2), (k1, v1)]);
            assert(inserted(inserted(s, k2, v2), k1, v1) =~= seq![(k2, v2), (k1, v1)]);
        }
    } else {
        let h = s[0];
        let t = s.drop_first();
        lemma_key_lt_total(k1, h.0);
        lemma_key_lt_total(k2, h.0);
        if key_lt(k1, h.0) {
            lemma_key_lt_asymmetric(k1, h.0);
        }
        if key_lt(h.0, k1) {
            lemma_key_lt_asymmetric(h.0, k1);
        }
        if key_lt(k2, h.0) {
            lemma_key_lt_asymmetric(k2, h.0);
        }
        if key_lt(h.0, k2) {
            lemma_key_lt_asymmetric(h.0, k2);
        }
        if key_lt(k1, k2) && key_lt(k2, h.0) {
            lemma_key_lt_transitive(k1, k2, h.0);
        }
        if key_lt(k2, k1) && key_lt(k1, h.0) {
            lemma_key_lt_transitive(k2, k1, h.0);
        }
        lemma_insert_commutes(t, k1, v1, k2, v2);
        let a = inserted(inserted(s, k1, v1), k2, v2);
        let b = inserted(inserted(s, k2, v2), k1, v1);
        let s1 = inserted(s, k1, v1);
        let s2 = inserted(s, k2, v2);
        if h.0 == k1 {
            assert(s1 =~= seq![(k1, v1)] + t);
            assert(s1.drop_first() =~= t);
            if key_lt(k2, k1) {
                assert(a =~= seq![(k2, v2)] + s1);
                assert(b =~= seq![(k2, v2)] + inserted(s2.drop_first(), k1, v1));
                assert(s2 =~= seq![(k2, v2)] + s);
                assert(b =~= seq![(k2, v2)] + (seq![(k1, v1)] + t));
            } else {
                assert(s2 =~= seq![h] + inserted(t, k2, v2));
                assert(s2.drop_first() =~= inserted(t, k2, v2));
                assert(a =~= seq![(k1, v1)] + inserted(t, k2, v2));
                assert(b =~= seq![(k1, v1)] + inserted(t, k2, v2));
            }
        } else if h.0 == k2 {
            assert(s2 =~= seq![(k2, v2)] + t);
            assert(s2.drop_first() =~= t);
            assert(s1.drop_first() =~= inserted(t, k1, v1) || key_lt(k1, h.0));
            if key_lt(k1, k2) {
                assert(s1 =~= seq![(k1, v1)] + s);
                assert(s1.drop_first() =~= s);
                assert(a =~= seq![(k1, v1)] + inserted(s, k2, v2));
                assert(inserted(s, k2, v2) =~= seq![(k2, v2)] + t);
                assert(b =~= seq![(k1, v1)] + s2);
            } else {
                assert(s1 =~= seq![h] + inserted(t, k1, v1));
                assert(a =~= seq![(k2, v2)] + inserted(t, k1, v1));
                assert(b =~= seq![(k2, v2)] + inserted(t, k1, v1));
            }
        } else if key_lt(k1, h.0) && key_lt(k2, h.0) {
            assert(s1 =~= seq![(k1, v1)] + s);
            assert(s2 =~= seq![(k2, v2)] + s);
            assert(s1.drop_first() =~= s);
            assert(s2.drop_first() =~= s);
            if key_lt(k1, k2) {
                assert(inserted(s, k2, v2) =~= seq![(k2, v2)] + s);
                assert(a =~= seq![(k1, v1)] + (seq![(k2, v2)] + s));
                assert(b =~= seq![(k1, v1)] + (seq![(k2, v2)] + s));
            } else {
                assert(inserted(s, k1, v1) =~= seq![(k1, v1)] + s);
                assert(a =~= seq![(k2, v2)] + (seq![(k1, v1)] + s));
                assert(b =~= seq![(k2, v2)] + (seq![(k1, v1)] + s));
            }
        } else if key_lt(k1, h.0) {
            assert(s1 =~= seq![(k1, v1)] + s);
            assert(s1.drop_first() =~= s);
            assert(s2 =~= seq![h] + inserted(t, k2, v2));
            assert(s2.drop_first() =~= inserted(t, k2, v2));
            assert(a =~= seq![(k1, v1)] + s2);
            assert(b =~= seq![(k1, v1)] + s2);
        } else if key_lt(k2, h.0) {
            assert(s2 =~= seq![(k2, v2)] + s);
            assert(s2.drop_first() =~= s);
            assert(s1 =~= seq![h] + inserted(t, k1, v1));
            assert(s1.drop_first() =~= inserted(t, k1, v1));
            assert(a =~= seq![(k2, v2)] + s1);
            assert(b =~= seq![(k2, v2)] + s1);
        } else {
            assert(s1 =~= seq![h] + inserted(t, k1, v1));
            assert(s2 =~= seq![h] + inserted(t, k2, v2));
            assert(s1.drop_first() =~= inserted(t, k1, v1));
            assert(s2.drop_first() =~= inserted(t, k2, v2));
            assert(a =~= seq![h] + inserted(inserted(t, k1, v1), k2, v2));
            assert(b =~= seq![h] + inserted(inserted(t, k2, v2), k1, v1));
        }
    }
}

/// Named request parameters, ordered by key, each key once.
pub struct Parameters {
    entries: Vec<(String, String)>,
}

impl View for Parameters {
    type V = Seq<ParamView>;

    closed spec fn view(&self) -> Seq<ParamView> {
        self.entries@.map_values(|p: (String, String)| (p.0@, p.1@))
    }
}

impl Parameters {
    pub open spec fn wf(&self) -> bool {
        sorted_keys(self@)
    }

    /// No parameters.
    pub fn new() -> (r: Parameters)
        ensures
            r@ == Seq::<ParamView>::empty(),
            r.wf(),
    {
        let r = Parameters { entries: Vec::new() };
        reveal(sorted_keys);
        assert(r@ =~= Seq::<ParamView>::empty());
        r
    }

    /// The number of parameters.
    pub fn len(&self) -> (r: usize)
        ensures
            r == self@.len(),
    {
        self.entries.len()
    }

    /// Sets `key` to `value`, keeping the keys in order.
    pub fn insert(&mut self, key: &str, value: &str)
        requires
            old(self).wf(),
        ensures
            final(self)@ == inserted(old(self)@, key@, value@),
            final(self).wf(),
    {
        let ghost s = self@;
        let n = self.entries.len();
        let mut i: usize = 0;
        while i < n && key_less(self.entries[i].0.as_str(), key)
            invariant
                n == self.entries.len(),
                self@ == s,
                i <= n,
                forall|j: int| 0 <= j < i ==> key_lt(#[trigger] s[j].0, key@),
            decreases n - i,
        {
            i = i + 1;
        }
        proof {
            lemma_inserted_at(s, key@, value@, i as int);
            lemma_inserted_sorted(s, key@, value@);
        }
        if i < n && text_eq(self.entries[i].0.as_str(), key) {
            self.entries.set(i, (owned(key), owned(value)));
            assert(self@ =~= s.update(i as int, (key@, value@)));
        } else {
            self.entries.insert(i, (owned(key), owned(value)));
            assert(self@ =~= s.insert(i as int, (key@, value@)));
        }
    }

    /// The query string: each pair as `key=value` in key order, joined by `&`.
    pub fn build_request(&self) -> (r: String)
        ensures
            r@ == query_of(self@),
    {
        let n = self.entries.len();
        let mut r = String::new();
        let mut i: usize = 0;
        while i < n
            invariant
                n == self@.len(),
                i <= n,
                r@ == query_of(self@.take(i as int)),
            decreases n - i,
        {
            let ghost t = self@.take(i + 1);
            assert(t.drop_last() =~= self@.take(i as int));
            assert(t.last() == self@[i as int]);
            if i > 0 {
                r.append("&");
            }
            r.append(self.entries[i].0.as_str());
            r.append("=");
            r.append(self.entries[i].1.as_str());
            proof {
                if i == 0 {
                    assert(self@.take(0) =~= Seq::<ParamView>::empty());
                }
            }
            assert(r@ =~= query_of(t));
            i = i + 1;
        }
        assert(self@.take(n as int) =~= self@);
        r
    }

    /// The parameters holding only `symbol`.
    pub fn with_symbol(symbol: &str) -> (r: Parameters)
        ensures
            r@ == symbol_entries(symbol@),
            r.wf(),
    {
        let mut p = Parameters::new();
        p.insert("symbol", symbol);
        p
    }

    /// The query string of a signed request sent at `timestamp`: the
    /// parameters with `recvWindow` (only when `recv_window` is positive) and
    /// `timestamp` added.
    pub fn build_signed_request(self, recv_window: u64, timestamp: u64) -> (r: String)
        requires
            self.wf(),
        ensures
            r@ == query_of(signed_entries(self@, recv_window, timestamp)),
    {
        let mut p = self;
        if recv_window > 0 {
            let w = u64_text(recv_window);
            p.insert("recvWindow", w.as_str());
        }
        let t = u64_text(timestamp);
        p.insert("timestamp", t.as_str());
        p.build_request()
    }
}

} // verus!
