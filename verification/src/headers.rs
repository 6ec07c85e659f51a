//! The request headers a tracking hit records: one text value per header
//! name, the last value winning, names in ascending order.
use vstd::prelude::*;
use crate::text::{chars_of, text_eq};

verus! {

/// The text `String::from_utf8_lossy` makes of a byte string.
pub uninterp spec fn lossy_text(bytes: Seq<u8>) -> Seq<char>;

/// Calls `String::from_utf8_lossy`. Claimed: the result is a function of the
/// bytes alone, and for valid UTF-8 it is the decoded text. How invalid
/// sequences are replaced by U+FFFD is left unsaid.
#[verifier::external_body]
pub(crate) fn utf8_lossy(bytes: &[u8]) -> (res: String)
    ensures
        res@ == lossy_text(bytes@),
        vstd::utf8::valid_utf8(bytes@) ==> res@ == vstd::utf8::decode_utf8(bytes@),
{
    String::from_utf8_lossy(bytes).into_owned()
}

/// The order of `String`s: lexicographic by character (the same as by UTF-8 byte).
pub open spec fn text_lt(a: Seq<char>, b: Seq<char>) -> bool
    decreases a.len(),
{
    if a.len() == 0 {
        b.len() > 0
    } else if b.len() == 0 {
        false
    } else if a[0] != b[0] {
        a[0] < b[0]
    } else {
        text_lt(a.skip(1), b.skip(1))
    }
}

pub proof fn lemma_text_lt_irreflexive(a: Seq<char>)
    ensures
        !text_lt(a, a),
    decreases a.len(),
{
    if a.len() > 0 {
        lemma_text_lt_irreflexive(a.skip(1));
    }
}

pub proof fn lemma_text_lt_total(a: Seq<char>, b: Seq<char>)
    ensures
        a != b ==> text_lt(a, b) || text_lt(b, a),
        !(text_lt(a, b) && text_lt(b, a)),
    decreases a.len(),
{
    if a.len() > 0 && b.len() > 0 {
        lemma_text_lt_total(a.skip(1), b.skip(1));
        if a[0] == b[0] && a != b {
            assert(a.skip(1) != b.skip(1)) by {
                if a.skip(1) == b.skip(1) {
                    assert(a =~= seq![a[0]] + a.skip(1));
                    assert(b =~= seq![b[0]] + b.skip(1));
                }
            }
        }
    } else if a.len() == 0 && b.len() == 0 {
        assert(a =~= b);
    }
}

pub proof fn lemma_text_lt_transitive(a: Seq<char>, b: Seq<char>, c: Seq<char>)
    requires
        text_lt(a, b),
        text_lt(b, c),
    ensures
        text_lt(a, c),
    decreases a.len(),
{
    if a.len() > 0 && b.len() > 0 && c.len() > 0 {
        if a[0] == b[0] && b[0] == c[0] {
            lemma_text_lt_transitive(a.skip(1), b.skip(1), c.skip(1));
        }
    }
}

/// Compares two texts by `text_lt`.
pub fn text_less(a: &Vec<char>, b: &Vec<char>) -> (res: bool)
    ensures
        res == text_lt(a@, b@),
{
    let mut i: usize = 0;
    assert(a@.skip(0) =~= a@);
    assert(b@.skip(0) =~= b@);
    while i < a.len() && i < b.len()
        invariant
            i <= a.len(),
            i <= b.len(),
            text_lt(a@, b@) == text_lt(a@.skip(i as int), b@.skip(i as int)),
        decreases a.len() - i,
    {
        if a[i] != b[i] {
            return a[i] < b[i];
        }
        assert(a@.skip(i as int).skip(1) =~= a@.skip(i + 1));
        assert(b@.skip(i as int).skip(1) =~= b@.skip(i + 1));
        i = i + 1;
    }
    i == a.len() && i < b.len()
}

/// Name and value pairs as texts.
pub open spec fn entries_view(e: Seq<(String, String)>) -> Seq<(Seq<char>, Seq<char>)> {
    e.map_values(|p: (String, String)| (p.0@, p.1@))
}

/// The map a run of insertions leaves: for each name, its last value.
pub open spec fn collected(pairs: Seq<(Seq<char>, Seq<char>)>) -> Map<Seq<char>, Seq<char>>
    decreases pairs.len(),
{
    if pairs.len() == 0 {
        Map::empty()
    } else {
        collected(pairs.drop_last()).insert(pairs.last().0, pairs.last().1)
    }
}

/// Names strictly ascend, so no name occurs twice.
pub open spec fn names_ascending(e: Seq<(Seq<char>, Seq<char>)>) -> bool {
    forall|i: int, j: int| 0 <= i < j < e.len() ==> text_lt(#[trigger] e[i].0, #[trigger] e[j].0)
}

/// The list holds exactly the entries of the map.
pub open spec fn lists_map(e: Seq<(Seq<char>, Seq<char>)>, m: Map<Seq<char>, Seq<char>>) -> bool {
    &&& forall|i: int| 0 <= i < e.len() ==> #[trigger] m.contains_key(e[i].0) && m[e[i].0] == e[i].1
    &&& forall|k: Seq<char>| #[trigger] m.contains_key(k) ==> exists|i: int| 0 <= i < e.len() && e[i].0 == k
}

/// Sets `name` to `value` in an ascending list of entries.
fn insert_entry(entries: &mut Vec<(String, String)>, name: String, value: String)
    requires
        names_ascending(entries_view(old(entries)@)),
    ensures
        names_ascending(entries_view(final(entries)@)),
        forall|m: Map<Seq<char>, Seq<char>>| lists_map(entries_view(old(entries)@), m) ==> lists_map(
            entries_view(final(entries)@),
            m.insert(name@, value@),
        ),
{
    let ghost old_e = entries_view(entries@);
    let key = chars_of(name.as_str());
    let mut p: usize = 0;
    loop
        invariant
            p <= entries.len(),
            entries_view(entries@) == old_e,
            old_e.len() == entries.len(),
            key@ == name@,
            forall|j: int| 0 <= j < p ==> text_lt(#[trigger] old_e[j].0, name@),
        ensures
            p <= entries.len(),
            forall|j: int| 0 <= j < p ==> text_lt(#[trigger] old_e[j].0, name@),
            p < entries.len() ==> !text_lt(old_e[p as int].0, name@),
        decreases entries.len() - p,
    {
        if p >= entries.len() {
            break;
        }
        let here = chars_of(entries[p].0.as_str());
        if !text_less(&here, &key) {
            break;
        }
        p = p + 1;
    }
    let same = p < entries.len() && text_eq(entries[p].0.as_str(), name.as_str());
    let ghost nk = name@;
    let ghost nv = value@;
    if same {
        entries.set(p, (name, value));
        let ghost e = entries_view(entries@);
        assert(e =~= old_e.update(p as int, (nk, nv)));
        assert forall|i: int, j: int| 0 <= i < j < e.len() implies text_lt(
            #[trigger] e[i].0,
            #[trigger] e[j].0,
        ) by {
            assert(old_e[i].0 == e[i].0 || i == p);
            assert(old_e[j].0 == e[j].0 || j == p);
            assert(old_e[p as int].0 == nk);
        }
        assert forall|m: Map<Seq<char>, Seq<char>>| lists_map(old_e, m) implies lists_map(
            e,
            m.insert(nk, nv),
        ) by {
            let m2 = m.insert(nk, nv);
            assert forall|i: int| 0 <= i < e.len() implies #[trigger] m2.contains_key(e[i].0)
                && m2[e[i].0] == e[i].1 by {
                if i != p {
                    assert(old_e[i] == e[i]);
                    assert(m.contains_key(old_e[i].0));
                    if i < p {
                        assert(text_lt(old_e[i].0, nk));
                    } else {
                        assert(text_lt(old_e[p as int].0, old_e[i].0));
                    }
                    lemma_text_lt_irreflexive(nk);
                }
            }
            assert forall|k: Seq<char>| #[trigger] m2.contains_key(k) implies exists|i: int|
                0 <= i < e.len() && e[i].0 == k by {
                if k == nk {
                    assert(e[p as int].0 == k);
                } else {
                    assert(m.contains_key(k));
                    let i = choose|i: int| 0 <= i < old_e.len() && old_e[i].0 == k;
                    assert(e[i].0 == k);
                }
            }
        }
    } else {
        proof {
            if p < old_e.len() {
                lemma_text_lt_total(old_e[p as int].0, nk);
            }
        }
        entries.insert(p, (name, value));
        let ghost e = entries_view(entries@);
        assert(e =~= old_e.insert(p as int, (nk, nv)));
        assert forall|i: int, j: int| 0 <= i < j < e.len() implies text_lt(
            #[trigger] e[i].0,
            #[trigger] e[j].0,
        ) by {
            if j < p {
                assert(e[i] == old_e[i] && e[j] == old_e[j]);
            } else if j == p {
                assert(e[i] == old_e[i]);
            } else if i == p {
                assert(e[j] == old_e[j - 1]);
                if j - 1 > p {
                    lemma_text_lt_transitive(nk, old_e[p as int].0, old_e[j - 1].0);
                }
            } else if i < p {
                assert(e[i] == old_e[i] && e[j] == old_e[j - 1]);
            } else {
                assert(e[i] == old_e[i - 1] && e[j] == old_e[j - 1]);
            }
        }
        assert forall|m: Map<Seq<char>, Seq<char>>| lists_map(old_e, m) implies lists_map(
            e,
            m.insert(nk, nv),
        ) by {
            let m2 = m.insert(nk, nv);
            assert forall|i: int| 0 <= i < e.len() implies #[trigger] m2.contains_key(e[i].0)
                && m2[e[i].0] == e[i].1 by {
                if i != p {
                    let oi = if i < p {
                        i
                    } else {
                        i - 1
                    };
                    assert(e[i] == old_e[oi]);
                    assert(m.contains_key(old_e[oi].0));
                    if oi < p {
                        assert(text_lt(old_e[oi].0, nk));
                        lemma_text_lt_irreflexive(nk);
                    } else {
                        if oi > p {
                            lemma_text_lt_transitive(nk, old_e[p as int].0, old_e[oi].0);
                        }
                        lemma_text_lt_irreflexive(nk);
                    }
                }
            }
            assert forall|k: Seq<char>| #[trigger] m2.contains_key(k) implies exists|i: int|
                0 <= i < e.len() && e[i].0 == k by {
                if k == nk {
                    assert(e[p as int].0 == k);
                } else {
                    assert(m.contains_key(k));
                    let i = choose|i: int| 0 <= i < old_e.len() && old_e[i].0 == k;
                    if i < p {
                        assert(e[i].0 == k);
                    } else {
                        assert(e[i + 1].0 == k);
                    }
                }
            }
        }
    }
}

/// The headers of a request, each value read as lossy UTF-8.
pub open spec fn header_texts(headers: Seq<(String, Vec<u8>)>) -> Seq<(Seq<char>, Seq<char>)> {
    headers.map_values(|h: (String, Vec<u8>)| (h.0@, lossy_text(h.1@)))
}

/// Collects request headers into one value per name, as inserting them in
/// order into a sorted map does: names ascend, and a repeated name keeps its
/// last value.
pub fn extract_headers(headers: Vec<(String, Vec<u8>)>) -> (res: Vec<(String, String)>)
    ensures
        names_ascending(entries_view(res@)),
        lists_map(entries_view(res@), collected(header_texts(headers@))),
{
    let ghost hv = header_texts(headers@);
    let mut out: Vec<(String, String)> = Vec::new();
    let mut i: usize = 0;
    assert(hv.take(0) =~= Seq::<(Seq<char>, Seq<char>)>::empty());
    assert(entries_view(out@) =~= Seq::<(Seq<char>, Seq<char>)>::empty());
    while i < headers.len()
        invariant
            i <= headers.len(),
            hv == header_texts(headers@),
            hv.len() == headers.len(),
            names_ascending(entries_view(out@)),
            lists_map(entries_view(out@), collected(hv.take(i as int))),
        decreases headers.len() - i,
    {
        let name = headers[i].0.clone();
        let value = utf8_lossy(headers[i].1.as_slice());
        assert(hv[i as int] == (name@, value@));
        insert_entry(&mut out, name, value);
        assert(hv.take(i + 1).drop_last() =~= hv.take(i as int));
        i = i + 1;
    }
    assert(hv.take(headers.len() as int) =~= hv);
    out
}

} // verus!
