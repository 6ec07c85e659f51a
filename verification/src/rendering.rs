//! What rendering a template amounts to: which templates it leaves alone,
//! and when the order of the values does not matter.
use vstd::prelude::*;
use crate::headers::collected;
use crate::mail::{placeholder, rendered};
use crate::text::{occurs_at, replaced};

verus! {

/// `pat` occurs somewhere in `s`.
pub open spec fn occurs_in(s: Seq<char>, pat: Seq<char>) -> bool {
    exists|i: int| occurs_at(s, pat, i)
}

proof fn lemma_occurs_shift(s: Seq<char>, pat: Seq<char>, j: int)
    requires
        s.len() > 0,
        0 <= j,
    ensures
        occurs_at(s.skip(1), pat, j) == occurs_at(s, pat, j + 1),
{
    if j + pat.len() <= s.len() - 1 {
        assert(s.skip(1).subrange(j, j + pat.len()) =~= s.subrange(j + 1, j + 1 + pat.len()));
    }
}

/// A text in which the pattern never occurs is left as it is by a replacement.
pub proof fn lemma_replace_absent(t: Seq<char>, pat: Seq<char>, value: Seq<char>)
    requires
        !occurs_in(t, pat),
    ensures
        replaced(t, pat, value) == t,
    decreases t.len(),
{
    if t.len() > 0 && pat.len() > 0 {
        assert(!occurs_at(t, pat, 0));
        let rest = t.skip(1);
        assert forall|i: int| !occurs_at(rest, pat, i) by {
            if i >= 0 {
                lemma_occurs_shift(t, pat, i);
            }
        }
        lemma_replace_absent(rest, pat, value);
        assert(seq![t[0]] + rest =~= t);
    }
}

/// No pair's `{{key}}` occurs in the template.
pub open spec fn holds_no_placeholder_of(t: Seq<char>, vars: Seq<(Seq<char>, Seq<char>)>) -> bool {
    forall|i: int| 0 <= i < vars.len() ==> !occurs_in(t, placeholder(#[trigger] vars[i].0))
}

/// Law: a template in which none of the keys' placeholders occurs is sent
/// exactly as written, whatever values are supplied.
pub proof fn law_template_without_placeholders_unchanged(
    t: Seq<char>,
    vars: Seq<(Seq<char>, Seq<char>)>,
)
    requires
        holds_no_placeholder_of(t, vars),
    ensures
        rendered(t, vars) == t,
    decreases vars.len(),
{
    if vars.len() > 0 {
        let init = vars.drop_last();
        assert forall|i: int| 0 <= i < init.len() implies !occurs_in(
            t,
            placeholder(#[trigger] init[i].0),
        ) by {
            assert(init[i] == vars[i]);
        }
        law_template_without_placeholders_unchanged(t, init);
        assert(!occurs_in(t, placeholder(vars[vars.len() - 1].0)));
        lemma_replace_absent(t, placeholder(vars.last().0), vars.last().1);
    }
}

/// A brace, `{` or `}`.
pub open spec fn is_brace(c: char) -> bool {
    c == '{' || c == '}'
}

/// A text without braces.
pub open spec fn brace_free(s: Seq<char>) -> bool {
    forall|i: int| 0 <= i < s.len() ==> !is_brace(#[trigger] s[i])
}

/// Every brace of the template belongs to a placeholder `{{x}}` whose name
/// `x` holds no brace.
pub open spec fn template_wf(t: Seq<char>) -> bool
    decreases t.len(),
{
    if t.len() == 0 {
        true
    } else if !is_brace(t[0]) {
        template_wf(t.skip(1))
    } else if exists|x: Seq<char>| brace_free(x) && occurs_at(t, placeholder(x), 0) {
        let x = choose|x: Seq<char>| brace_free(x) && occurs_at(t, placeholder(x), 0);
        template_wf(t.skip((x.len() + 4) as int))
    } else {
        false
    }
}

/// One pass over the template: each placeholder `{{k}}` with `k` in the map
/// becomes the map's value for `k`; everything else stays as it is.
pub open spec fn substituted(t: Seq<char>, m: Map<Seq<char>, Seq<char>>) -> Seq<char>
    decreases t.len(),
{
    if t.len() == 0 {
        t
    } else if exists|k: Seq<char>| m.contains_key(k) && occurs_at(t, placeholder(k), 0) {
        let k = choose|k: Seq<char>| m.contains_key(k) && occurs_at(t, placeholder(k), 0);
        m[k] + substituted(t.skip((k.len() + 4) as int), m)
    } else {
        seq![t[0]] + substituted(t.skip(1), m)
    }
}

/// `{{` starts at position `j`.
pub open spec fn double_brace_at(s: Seq<char>, j: int) -> bool {
    0 <= j && j + 1 < s.len() && s[j] == '{' && s[j + 1] == '{'
}

proof fn lemma_placeholder_starts_double_brace(s: Seq<char>, k: Seq<char>, j: int)
    requires
        occurs_at(s, placeholder(k), j),
    ensures
        double_brace_at(s, j),
{
    let p = placeholder(k);
    assert(s.subrange(j, j + p.len())[0] == s[j]);
    assert(s.subrange(j, j + p.len())[1] == s[j + 1]);
}

proof fn lemma_placeholder_unique(t: Seq<char>, x: Seq<char>, y: Seq<char>)
    requires
        brace_free(x),
        brace_free(y),
        occurs_at(t, placeholder(x), 0),
        occurs_at(t, placeholder(y), 0),
    ensures
        x == y,
{
    let px = placeholder(x);
    let py = placeholder(y);
    assert forall|j: int| 0 <= j < px.len() implies t[j] == #[trigger] px[j] by {
        assert(t.subrange(0, px.len() as int)[j] == t[j]);
    }
    assert forall|j: int| 0 <= j < py.len() implies t[j] == #[trigger] py[j] by {
        assert(t.subrange(0, py.len() as int)[j] == t[j]);
    }
    if x.len() < y.len() {
        assert(px[(x.len() + 2) as int] == '}');
        assert(py[(x.len() + 2) as int] == y[x.len() as int]);
    } else if y.len() < x.len() {
        assert(py[(y.len() + 2) as int] == '}');
        assert(px[(y.len() + 2) as int] == x[y.len() as int]);
    } else {
        assert forall|i: int| 0 <= i < x.len() implies x[i] == y[i] by {
            assert(px[i + 2] == x[i]);
            assert(py[i + 2] == y[i]);
        }
        assert(x =~= y);
    }
}

/// Inside `{{x}}`, past its first character, no `{{` starts.
proof fn lemma_no_double_brace_inside(x: Seq<char>, rest: Seq<char>, j: int)
    requires
        brace_free(x),
        1 <= j < x.len() + 4,
    ensures
        !double_brace_at(placeholder(x) + rest, j),
{
    let s = placeholder(x) + rest;
    let p = placeholder(x);
    assert(s[j] == p[j]);
    if j == 1 {
        assert(s[j + 1] == p[j + 1]);
        if x.len() > 0 {
            assert(p[2] == x[0]);
        }
    } else if j < x.len() + 2 {
        assert(p[j] == x[j - 2]);
    }
}

proof fn lemma_replace_prefix(u: Seq<char>, b: Seq<char>, k: Seq<char>, v: Seq<char>)
    requires
        forall|j: int| 0 <= j < u.len() ==> !double_brace_at(u + b, j),
    ensures
        replaced(u + b, placeholder(k), v) == u + replaced(b, placeholder(k), v),
    decreases u.len(),
{
    if u.len() > 0 {
        let s = u + b;
        let p = placeholder(k);
        if occurs_at(s, p, 0) {
            lemma_placeholder_starts_double_brace(s, k, 0);
        }
        assert(s.skip(1) =~= u.skip(1) + b);
        assert forall|j: int| 0 <= j < u.skip(1).len() implies !double_brace_at(u.skip(1) + b, j) by {
            assert(!double_brace_at(s, j + 1));
        }
        lemma_replace_prefix(u.skip(1), b, k, v);
        assert(seq![s[0]] + (u.skip(1) + replaced(b, p, v)) =~= u + replaced(b, p, v));
    } else {
        assert(u + b =~= b);
        assert(u + replaced(b, placeholder(k), v) =~= replaced(b, placeholder(k), v));
    }
}

proof fn lemma_substitute_prefix(u: Seq<char>, b: Seq<char>, m: Map<Seq<char>, Seq<char>>)
    requires
        forall|j: int| 0 <= j < u.len() ==> !double_brace_at(u + b, j),
    ensures
        substituted(u + b, m) == u + substituted(b, m),
    decreases u.len(),
{
    if u.len() > 0 {
        let s = u + b;
        if exists|k: Seq<char>| m.contains_key(k) && occurs_at(s, placeholder(k), 0) {
            let k = choose|k: Seq<char>| m.contains_key(k) && occurs_at(s, placeholder(k), 0);
            lemma_placeholder_starts_double_brace(s, k, 0);
        }
        assert(s.skip(1) =~= u.skip(1) + b);
        assert forall|j: int| 0 <= j < u.skip(1).len() implies !double_brace_at(u.skip(1) + b, j) by {
            assert(!double_brace_at(s, j + 1));
        }
        lemma_substitute_prefix(u.skip(1), b, m);
        assert(seq![s[0]] + (u.skip(1) + substituted(b, m)) =~= u + substituted(b, m));
    } else {
        assert(u + b =~= b);
        assert(u + substituted(b, m) =~= substituted(b, m));
    }
}

/// A brace-free text holds no `{{`.
proof fn lemma_brace_free_no_double_brace(a: Seq<char>, b: Seq<char>)
    requires
        brace_free(a),
    ensures
        forall|j: int| 0 <= j < a.len() ==> !double_brace_at(a + b, j),
{
    assert forall|j: int| 0 <= j < a.len() implies !double_brace_at(a + b, j) by {
        assert((a + b)[j] == a[j]);
    }
}

/// A placeholder whose name is not in the map passes through a substitution unchanged.
proof fn lemma_substitute_unknown(x: Seq<char>, rest: Seq<char>, m: Map<Seq<char>, Seq<char>>)
    requires
        brace_free(x),
        !m.contains_key(x),
        forall|k: Seq<char>| #[trigger] m.contains_key(k) ==> brace_free(k),
    ensures
        substituted(placeholder(x) + rest, m) == placeholder(x) + substituted(rest, m),
{
    let p = placeholder(x);
    let t = p + rest;
    assert(t.subrange(0, p.len() as int) =~= p);
    assert(occurs_at(t, p, 0));
    if exists|k: Seq<char>| m.contains_key(k) && occurs_at(t, placeholder(k), 0) {
        let k = choose|k: Seq<char>| m.contains_key(k) && occurs_at(t, placeholder(k), 0);
        lemma_placeholder_unique(t, x, k);
    }
    let u = p.skip(1);
    assert(t.skip(1) =~= u + rest);
    assert forall|j: int| 0 <= j < u.len() implies !double_brace_at(u + rest, j) by {
        lemma_no_double_brace_inside(x, rest, j + 1);
        if double_brace_at(u + rest, j) {
            assert((u + rest)[j] == t[j + 1]);
            assert((u + rest)[j + 1] == t[j + 2]);
        }
    }
    lemma_substitute_prefix(u, rest, m);
    assert(seq![t[0]] + (u + substituted(rest, m)) =~= p + substituted(rest, m));
}

/// Replacing one more key after a substitution is the substitution with that key added.
proof fn lemma_replace_after_substitute(
    t: Seq<char>,
    m: Map<Seq<char>, Seq<char>>,
    k: Seq<char>,
    v: Seq<char>,
)
    requires
        template_wf(t),
        forall|kk: Seq<char>| #[trigger] m.contains_key(kk) ==> brace_free(kk) && brace_free(m[kk]),
        brace_free(k),
        brace_free(v),
        !m.contains_key(k),
    ensures
        replaced(substituted(t, m), placeholder(k), v) == substituted(t, m.insert(k, v)),
    decreases t.len(),
{
    let m2 = m.insert(k, v);
    let pk = placeholder(k);
    assert forall|kk: Seq<char>| #[trigger] m2.contains_key(kk) implies brace_free(kk) && brace_free(
        m2[kk],
    ) by {
        if kk != k {
            assert(m.contains_key(kk));
        }
    }
    if t.len() == 0 {
    } else if !is_brace(t[0]) {
        let rest = t.skip(1);
        if exists|kk: Seq<char>| m.contains_key(kk) && occurs_at(t, placeholder(kk), 0) {
            let kk = choose|kk: Seq<char>| m.contains_key(kk) && occurs_at(t, placeholder(kk), 0);
            lemma_placeholder_starts_double_brace(t, kk, 0);
        }
        if exists|kk: Seq<char>| m2.contains_key(kk) && occurs_at(t, placeholder(kk), 0) {
            let kk = choose|kk: Seq<char>| m2.contains_key(kk) && occurs_at(t, placeholder(kk), 0);
            lemma_placeholder_starts_double_brace(t, kk, 0);
        }
        lemma_replace_after_substitute(rest, m, k, v);
        lemma_replace_prefix(seq![t[0]], substituted(rest, m), k, v);
    } else {
        let x = choose|x: Seq<char>| brace_free(x) && occurs_at(t, placeholder(x), 0);
        let px = placeholder(x);
        let rest = t.skip((x.len() + 4) as int);
        assert(t.subrange(0, px.len() as int) == px);
        assert(t =~= px + rest);
        lemma_replace_after_substitute(rest, m, k, v);
        let s_rest = substituted(rest, m);
        if m.contains_key(x) {
            let kk = choose|kk: Seq<char>| m.contains_key(kk) && occurs_at(t, placeholder(kk), 0);
            lemma_placeholder_unique(t, x, kk);
            assert(m2.contains_key(x) && occurs_at(t, placeholder(x), 0));
            let kk2 = choose|kk: Seq<char>| m2.contains_key(kk) && occurs_at(t, placeholder(kk), 0);
            lemma_placeholder_unique(t, x, kk2);
            assert(substituted(t, m) == m[x] + s_rest);
            assert(substituted(t, m2) == m2[x] + substituted(rest, m2));
            lemma_brace_free_no_double_brace(m[x], s_rest);
            lemma_replace_prefix(m[x], s_rest, k, v);
        } else {
            lemma_substitute_unknown(x, rest, m);
            let s = px + s_rest;
            assert(s.subrange(0, px.len() as int) =~= px);
            if x == k {
                assert(occurs_at(s, pk, 0));
                assert(s.skip(pk.len() as int) =~= s_rest);
                assert(replaced(s, pk, v) == v + replaced(s_rest, pk, v));
                assert(m2.contains_key(x) && occurs_at(t, placeholder(x), 0));
                let kk2 = choose|kk: Seq<char>| m2.contains_key(kk) && occurs_at(t, placeholder(kk), 0);
                lemma_placeholder_unique(t, x, kk2);
                assert(substituted(t, m2) == m2[x] + substituted(rest, m2));
            } else {
                assert(occurs_at(s, px, 0));
                if occurs_at(s, pk, 0) {
                    lemma_placeholder_unique(s, x, k);
                }
                let u = px.skip(1);
                assert(s.skip(1) =~= u + s_rest);
                assert forall|j: int| 0 <= j < u.len() implies !double_brace_at(u + s_rest, j) by {
                    lemma_no_double_brace_inside(x, s_rest, j + 1);
                    if double_brace_at(u + s_rest, j) {
                        assert((u + s_rest)[j] == s[j + 1]);
                        assert((u + s_rest)[j + 1] == s[j + 2]);
                    }
                }
                lemma_replace_prefix(u, s_rest, k, v);
                assert(seq![s[0]] + (u + replaced(s_rest, pk, v)) =~= px + replaced(s_rest, pk, v));
                lemma_substitute_unknown(x, rest, m2);
            }
        }
    }
}

proof fn lemma_substitute_empty(t: Seq<char>)
    ensures
        substituted(t, Map::<Seq<char>, Seq<char>>::empty()) == t,
    decreases t.len(),
{
    if t.len() > 0 {
        lemma_substitute_empty(t.skip(1));
        assert(seq![t[0]] + t.skip(1) =~= t);
    }
}

/// Every entry of the collected map comes from some pair.
proof fn lemma_collected_from_pairs(pairs: Seq<(Seq<char>, Seq<char>)>, k: Seq<char>)
    requires
        collected(pairs).contains_key(k),
    ensures
        exists|i: int| 0 <= i < pairs.len() && pairs[i].0 == k && pairs[i].1 == collected(pairs)[k],
    decreases pairs.len(),
{
    let init = pairs.drop_last();
    if pairs.last().0 == k {
        assert(pairs[pairs.len() - 1].0 == k);
    } else {
        lemma_collected_from_pairs(init, k);
        let i = choose|i: int| 0 <= i < init.len() && init[i].0 == k && init[i].1 == collected(init)[k];
        assert(pairs[i] == init[i]);
    }
}

/// Keys and values hold no braces, and no key occurs twice.
pub open spec fn plain_distinct_pairs(vars: Seq<(Seq<char>, Seq<char>)>) -> bool {
    &&& forall|i: int| 0 <= i < vars.len() ==> brace_free(#[trigger] vars[i].0) && brace_free(vars[i].1)
    &&& forall|i: int, j: int| 0 <= i < j < vars.len() ==> #[trigger] vars[i].0 != #[trigger] vars[j].0
}

/// Law: when every brace of the template belongs to a placeholder with a
/// brace-free name, and the keys and values hold no braces and no key occurs
/// twice, rendering replaces in one pass each `{{k}}` by the value of `k` and
/// leaves other placeholders alone; the order of the pairs does not matter.
pub proof fn law_render_is_one_pass(t: Seq<char>, vars: Seq<(Seq<char>, Seq<char>)>)
    requires
        template_wf(t),
        plain_distinct_pairs(vars),
    ensures
        rendered(t, vars) == substituted(t, collected(vars)),
    decreases vars.len(),
{
    if vars.len() == 0 {
        lemma_substitute_empty(t);
    } else {
        let init = vars.drop_last();
        let (k, v) = vars.last();
        assert(plain_distinct_pairs(init)) by {
            assert forall|i: int| 0 <= i < init.len() implies brace_free(#[trigger] init[i].0)
                && brace_free(init[i].1) by {
                assert(init[i] == vars[i]);
            }
            assert forall|i: int, j: int| 0 <= i < j < init.len() implies #[trigger] init[i].0
                != #[trigger] init[j].0 by {
                assert(init[i] == vars[i] && init[j] == vars[j]);
            }
        }
        law_render_is_one_pass(t, init);
        let m = collected(init);
        assert forall|kk: Seq<char>| #[trigger] m.contains_key(kk) implies brace_free(kk)
            && brace_free(m[kk]) by {
            lemma_collected_from_pairs(init, kk);
            let i = choose|i: int| 0 <= i < init.len() && init[i].0 == kk && init[i].1 == m[kk];
            assert(init[i] == vars[i]);
        }
        if m.contains_key(k) {
            lemma_collected_from_pairs(init, k);
            let i = choose|i: int| 0 <= i < init.len() && init[i].0 == k && init[i].1 == m[k];
            assert(init[i] == vars[i]);
            assert(vars[i].0 != vars[vars.len() - 1].0);
        }
        assert(brace_free(vars[vars.len() - 1].0) && brace_free(vars[vars.len() - 1].1));
        lemma_replace_after_substitute(t, m, k, v);
    }
}

/// Law: under the same conditions, two lists of the same pairs in any order
/// render a template alike.
pub proof fn law_render_order_irrelevant(
    t: Seq<char>,
    a: Seq<(Seq<char>, Seq<char>)>,
    b: Seq<(Seq<char>, Seq<char>)>,
)
    requires
        template_wf(t),
        plain_distinct_pairs(a),
        plain_distinct_pairs(b),
        a.to_set() == b.to_set(),
    ensures
        rendered(t, a) == rendered(t, b),
{
    law_render_is_one_pass(t, a);
    law_render_is_one_pass(t, b);
    lemma_collected_same_pairs(a, b);
}

proof fn lemma_collected_has_pairs(pairs: Seq<(Seq<char>, Seq<char>)>, i: int)
    requires
        plain_distinct_pairs(pairs),
        0 <= i < pairs.len(),
    ensures
        collected(pairs).contains_key(pairs[i].0),
        collected(pairs)[pairs[i].0] == pairs[i].1,
    decreases pairs.len(),
{
    let init = pairs.drop_last();
    if i < pairs.len() - 1 {
        assert(plain_distinct_pairs(init)) by {
            assert forall|a: int, b: int| 0 <= a < b < init.len() implies #[trigger] init[a].0
                != #[trigger] init[b].0 by {
                assert(init[a] == pairs[a] && init[b] == pairs[b]);
            }
            assert forall|a: int| 0 <= a < init.len() implies brace_free(#[trigger] init[a].0)
                && brace_free(init[a].1) by {
                assert(init[a] == pairs[a]);
            }
        }
        lemma_collected_has_pairs(init, i);
        assert(init[i] == pairs[i]);
        assert(pairs[i].0 != pairs[pairs.len() - 1].0);
    }
}

proof fn lemma_collected_same_pairs(a: Seq<(Seq<char>, Seq<char>)>, b: Seq<(Seq<char>, Seq<char>)>)
    requires
        plain_distinct_pairs(a),
        plain_distinct_pairs(b),
        a.to_set() == b.to_set(),
    ensures
        collected(a) == collected(b),
{
    let ma = collected(a);
    let mb = collected(b);
    assert forall|k: Seq<char>| #[trigger] ma.dom().contains(k) implies mb.dom().contains(k) && mb[k] == ma[k] by {
        lemma_collected_from_pairs(a, k);
        let i = choose|i: int| 0 <= i < a.len() && a[i].0 == k && a[i].1 == ma[k];
        assert(a.to_set().contains(a[i]));
        assert(b.to_set().contains(a[i]));
        let j = choose|j: int| 0 <= j < b.len() && b[j] == a[i];
        lemma_collected_has_pairs(b, j);
    }
    assert forall|k: Seq<char>| #[trigger] mb.dom().contains(k) implies ma.dom().contains(k) by {
        lemma_collected_from_pairs(b, k);
        let j = choose|j: int| 0 <= j < b.len() && b[j].0 == k && b[j].1 == mb[k];
        assert(b.to_set().contains(b[j]));
        assert(a.to_set().contains(b[j]));
        let i = choose|i: int| 0 <= i < a.len() && a[i] == b[j];
        lemma_collected_has_pairs(a, i);
    }
    assert(ma.dom() =~= mb.dom());
        assert(ma =~= mb);
}

} // verus!
