//! Ordered maps and sets of names, held as sequences of entries in strictly
//! increasing name order. Putting an entry replaces one of the same name, as
//! inserting into an ordered map does.
use vstd::prelude::*;

verus! {

/// Whether name `a` sorts before name `b`: character by character, and a
/// proper prefix first.
pub open spec fn name_less(a: Seq<char>, b: Seq<char>) -> bool
    decreases a.len(),
{
    if b.len() == 0 {
        false
    } else if a.len() == 0 {
        true
    } else if a[0] != b[0] {
        (a[0] as int) < (b[0] as int)
    } else {
        name_less(a.drop_first(), b.drop_first())
    }
}

/// The number of leading names of `acc` that sort before `x`.
pub open spec fn position(acc: Seq<Seq<char>>, x: Seq<char>) -> int
    decreases acc.len(),
{
    if acc.len() == 0 {
        0
    } else if name_less(acc[0], x) {
        1 + position(acc.drop_first(), x)
    } else {
        0
    }
}

/// `acc` with `x` inserted in order, unless it already holds it.
pub open spec fn add_unique(acc: Seq<Seq<char>>, x: Seq<char>) -> Seq<Seq<char>> {
    if acc.contains(x) {
        acc
    } else {
        acc.insert(position(acc, x), x)
    }
}

/// `acc` with each of `xs` inserted in turn, skipping those already present.
pub open spec fn add_all(acc: Seq<Seq<char>>, xs: Seq<Seq<char>>) -> Seq<Seq<char>>
    decreases xs.len(),
{
    if xs.len() == 0 {
        acc
    } else {
        add_unique(add_all(acc, xs.drop_last()), xs.last())
    }
}

pub fn contains_name(acc: &Vec<String>, t: &String) -> (r: bool)
    ensures
        r == acc.deep_view().contains(t.deep_view()),
{
    let ghost all = acc.deep_view();
    let mut i: usize = 0;
    while i < acc.len()
        invariant
            0 <= i <= acc.len(),
            all == acc.deep_view(),
            forall|k: int| 0 <= k < i ==> all[k] != t.deep_view(),
        decreases acc.len() - i,
    {
        if acc[i] == *t {
            assert(all[i as int] == t.deep_view());
            return true;
        }
        i = i + 1;
    }
    false
}

pub fn name_before(a: &String, b: &String) -> (r: bool)
    ensures
        r == name_less(a@, b@),
{
    let x = a.as_str();
    let y = b.as_str();
    let ghost xs = x@;
    let ghost ys = y@;
    let x_len = x.unicode_len();
    let y_len = y.unicode_len();
    let mut i: usize = 0;
    assert(xs.skip(0) =~= xs);
    assert(ys.skip(0) =~= ys);
    while i < x_len && i < y_len
        invariant
            xs == a@,
            ys == b@,
            xs == x@,
            ys == y@,
            x_len == xs.len(),
            y_len == ys.len(),
            i <= x_len,
            i <= y_len,
            name_less(xs, ys) == name_less(xs.skip(i as int), ys.skip(i as int)),
        decreases x_len - i,
    {
        let c = x.get_char(i);
        let d = y.get_char(i);
        assert(xs.skip(i as int)[0] == c);
        assert(ys.skip(i as int)[0] == d);
        if c != d {
            return (c as u32) < (d as u32);
        }
        assert(xs.skip(i as int).drop_first() =~= xs.skip(i + 1));
        assert(ys.skip(i as int).drop_first() =~= ys.skip(i + 1));
        i = i + 1;
    }
    i < y_len
}

pub fn insert_name(acc: &mut Vec<String>, t: &String)
    ensures
        final(acc).deep_view() == add_unique(old(acc).deep_view(), t.deep_view()),
{
    if !contains_name(acc, t) {
        let ghost before = acc.deep_view();
        let mut i: usize = 0;
        assert(before.skip(0) =~= before);
        while i < acc.len() && name_before(&acc[i], t)
            invariant
                i <= acc.len(),
                before == acc.deep_view(),
                position(before, t.deep_view()) == i + position(before.skip(i as int), t.deep_view()),
            decreases acc.len() - i,
        {
            assert(before.skip(i as int)[0] == before[i as int]);
            assert(before.skip(i as int).drop_first() =~= before.skip(i + 1));
            i = i + 1;
        }
        if i < acc.len() {
            assert(before.skip(i as int)[0] == before[i as int]);
        }
        acc.insert(i, t.clone());
        proof {
            assert(final(acc).deep_view() =~= before.insert(i as int, t.deep_view()));
        }
    }
}

/// The number of leading entries of `acc` whose names sort before `name`.
pub open spec fn entry_position<V>(
    acc: Seq<(Seq<char>, V)>,
    name: Seq<char>,
) -> int
    decreases acc.len(),
{
    if acc.len() == 0 {
        0
    } else if name_less(acc[0].0, name) {
        1 + entry_position(acc.drop_first(), name)
    } else {
        0
    }
}

/// `acc` with the object type `e` put in name order, replacing an object
/// type of the same name.
pub open spec fn with_entry<V>(
    acc: Seq<(Seq<char>, V)>,
    e: (Seq<char>, V),
) -> Seq<(Seq<char>, V)> {
    let p = entry_position(acc, e.0);
    if 0 <= p < acc.len() && acc[p].0 == e.0 {
        acc.update(p, e)
    } else {
        acc.insert(p, e)
    }
}

/// `acc` with each of `es` put in turn.
pub open spec fn with_entries<V>(
    acc: Seq<(Seq<char>, V)>,
    es: Seq<(Seq<char>, V)>,
) -> Seq<(Seq<char>, V)>
    decreases es.len(),
{
    if es.len() == 0 {
        acc
    } else {
        with_entry(with_entries(acc, es.drop_last()), es.last())
    }
}

pub fn put_entry<V: DeepView>(acc: &mut Vec<(String, V)>, name: String, value: V)
    ensures
        final(acc).deep_view() == with_entry(
            old(acc).deep_view(),
            (name@, value.deep_view()),
        ),
{
    let ghost before = acc.deep_view();
    let ghost e = (name@, value.deep_view());
    let mut i: usize = 0;
    assert(before.skip(0) =~= before);
    while i < acc.len() && name_before(&acc[i].0, &name)
        invariant
            i <= acc.len(),
            before == acc.deep_view(),
            entry_position(before, name@) == i + entry_position(before.skip(i as int), name@),
        decreases acc.len() - i,
    {
        assert(before.skip(i as int)[0] == before[i as int]);
        assert(before.skip(i as int).drop_first() =~= before.skip(i + 1));
        i = i + 1;
    }
    if i < acc.len() {
        assert(before.skip(i as int)[0] == before[i as int]);
    }
    if i < acc.len() && acc[i].0 == name {
        acc.set(i, (name, value));
        proof {
            assert(final(acc).deep_view() =~= before.update(i as int, e));
        }
    } else {
        acc.insert(i, (name, value));
        proof {
            assert(final(acc).deep_view() =~= before.insert(i as int, e));
        }
    }
}

pub proof fn lemma_position_bounds(acc: Seq<Seq<char>>, x: Seq<char>)
    ensures
        0 <= position(acc, x) <= acc.len(),
    decreases acc.len(),
{
    if acc.len() > 0 {
        lemma_position_bounds(acc.drop_first(), x);
    }
}

pub proof fn lemma_add_all_no_duplicates(acc: Seq<Seq<char>>, xs: Seq<Seq<char>>)
    requires
        acc.no_duplicates(),
    ensures
        add_all(acc, xs).no_duplicates(),
    decreases xs.len(),
{
    if xs.len() > 0 {
        lemma_add_all_no_duplicates(acc, xs.drop_last());
        let before = add_all(acc, xs.drop_last());
        let x = xs.last();
        if !before.contains(x) {
            let p = position(before, x);
            lemma_position_bounds(before, x);
            let after = before.insert(p, x);
            assert forall|i: int, j: int|
                0 <= i < after.len() && 0 <= j < after.len() && i != j implies after[i]
                != after[j] by {
                let bi = if i < p { i } else { i - 1 };
                let bj = if j < p { j } else { j - 1 };
                if i == p {
                    assert(after[j] == before[bj]);
                } else if j == p {
                    assert(after[i] == before[bi]);
                } else {
                    assert(after[i] == before[bi]);
                    assert(after[j] == before[bj]);
                }
            }
        }
    }
}

/// Names in strictly increasing order.
pub open spec fn names_sorted(s: Seq<Seq<char>>) -> bool {
    forall|i: int, j: int| 0 <= i < j < s.len() ==> name_less(#[trigger] s[i], #[trigger] s[j])
}

pub proof fn lemma_name_less_total(a: Seq<char>, b: Seq<char>)
    requires
        a != b,
        !name_less(a, b),
    ensures
        name_less(b, a),
    decreases a.len(),
{
    if a.len() > 0 && b.len() > 0 && a[0] == b[0] {
        if a.drop_first() == b.drop_first() {
            assert(a =~= seq![a[0]] + a.drop_first());
            assert(b =~= seq![b[0]] + b.drop_first());
        }
        lemma_name_less_total(a.drop_first(), b.drop_first());
    } else if a.len() == 0 && b.len() == 0 {
        assert(a =~= b);
    } else if a.len() > 0 && b.len() > 0 {
        assert((a[0] as int) != (b[0] as int));
    }
}

pub proof fn lemma_name_less_transitive(a: Seq<char>, b: Seq<char>, c: Seq<char>)
    requires
        name_less(a, b),
        name_less(b, c),
    ensures
        name_less(a, c),
    decreases a.len(),
{
    if a.len() > 0 && a[0] == b[0] && b[0] == c[0] {
        lemma_name_less_transitive(a.drop_first(), b.drop_first(), c.drop_first());
    }
}

pub proof fn lemma_before_position(acc: Seq<Seq<char>>, x: Seq<char>, i: int)
    requires
        0 <= i < position(acc, x),
    ensures
        name_less(acc[i], x),
    decreases acc.len(),
{
    lemma_position_bounds(acc, x);
    assert(acc.len() > 0 && name_less(acc[0], x));
    if i > 0 {
        lemma_before_position(acc.drop_first(), x, i - 1);
        assert(acc.drop_first()[i - 1] == acc[i]);
    }
}

pub proof fn lemma_add_all_sorted(acc: Seq<Seq<char>>, xs: Seq<Seq<char>>)
    requires
        names_sorted(acc),
    ensures
        names_sorted(add_all(acc, xs)),
    decreases xs.len(),
{
    if xs.len() > 0 {
        lemma_add_all_sorted(acc, xs.drop_last());
        let before = add_all(acc, xs.drop_last());
        let x = xs.last();
        if !before.contains(x) {
            let p = position(before, x);
            lemma_position_bounds(before, x);
            let after = before.insert(p, x);
            if p < before.len() {
                assert(!name_less(before[p], x)) by {
                    lemma_position_at(before, x);
                }
                assert(before[p] != x);
                lemma_name_less_total(before[p], x);
            }
            assert forall|i: int, j: int| 0 <= i < j < after.len() implies name_less(
                #[trigger] after[i],
                #[trigger] after[j],
            ) by {
                if j < p {
                    assert(name_less(before[i], before[j]));
                } else if j == p {
                    lemma_before_position(before, x, i);
                } else if i < p {
                    lemma_before_position(before, x, i);
                    assert(name_less(before[i], x));
                    if p < j - 1 {
                        assert(name_less(before[p], before[j - 1]));
                        lemma_name_less_transitive(x, before[p], before[j - 1]);
                    }
                    lemma_name_less_transitive(before[i], x, before[j - 1]);
                } else if i == p {
                    if p < j - 1 {
                        assert(name_less(before[p], before[j - 1]));
                        lemma_name_less_transitive(x, before[p], before[j - 1]);
                    }
                } else {
                    assert(name_less(before[i - 1], before[j - 1]));
                }
            }
        }
    }
}

pub proof fn lemma_position_at(acc: Seq<Seq<char>>, x: Seq<char>)
    requires
        position(acc, x) < acc.len(),
    ensures
        !name_less(acc[position(acc, x)], x),
    decreases acc.len(),
{
    lemma_position_bounds(acc, x);
    if acc.len() > 0 && name_less(acc[0], x) {
        lemma_position_bounds(acc.drop_first(), x);
        lemma_position_at(acc.drop_first(), x);
        assert(acc.drop_first()[position(acc.drop_first(), x)] == acc[position(acc, x)]);
    }
}

pub proof fn lemma_entry_position_bounds<V>(
    acc: Seq<(Seq<char>, V)>,
    name: Seq<char>,
)
    ensures
        0 <= entry_position(acc, name) <= acc.len(),
    decreases acc.len(),
{
    if acc.len() > 0 {
        lemma_entry_position_bounds(acc.drop_first(), name);
    }
}

pub proof fn lemma_with_entry_members<V>(
    acc: Seq<(Seq<char>, V)>,
    e: (Seq<char>, V),
    f: (Seq<char>, V),
)
    ensures
        with_entry(acc, e).contains(e),
        acc.contains(f) && f.0 != e.0 ==> with_entry(acc, e).contains(f),
{
    let p = entry_position(acc, e.0);
    lemma_entry_position_bounds(acc, e.0);
    let r = with_entry(acc, e);
    assert(r[p] == e);
    if acc.contains(f) && f.0 != e.0 {
        let k = choose|k: int| 0 <= k < acc.len() && acc[k] == f;
        if 0 <= p < acc.len() && acc[p].0 == e.0 {
            assert(k != p);
            assert(r[k] == f);
        } else if k < p {
            assert(r[k] == f);
        } else {
            assert(r[k + 1] == f);
        }
    }
}

pub proof fn lemma_with_entries_keeps<V>(
    acc: Seq<(Seq<char>, V)>,
    es: Seq<(Seq<char>, V)>,
    f: (Seq<char>, V),
)
    requires
        acc.contains(f),
        forall|k: int| 0 <= k < es.len() ==> es[k].0 != f.0,
    ensures
        with_entries(acc, es).contains(f),
    decreases es.len(),
{
    if es.len() > 0 {
        lemma_with_entries_keeps(acc, es.drop_last(), f);
        lemma_with_entry_members(with_entries(acc, es.drop_last()), es.last(), f);
    }
}

pub proof fn lemma_with_entries_puts<V>(
    acc: Seq<(Seq<char>, V)>,
    es: Seq<(Seq<char>, V)>,
    i: int,
)
    requires
        0 <= i < es.len(),
        forall|k: int| i < k < es.len() ==> es[k].0 != es[i].0,
    ensures
        with_entries(acc, es).contains(es[i]),
    decreases es.len(),
{
    if i == es.len() - 1 {
        lemma_with_entry_members(with_entries(acc, es.drop_last()), es[i], es[i]);
    } else {
        lemma_with_entries_puts(acc, es.drop_last(), i);
        lemma_with_entry_members(with_entries(acc, es.drop_last()), es.last(), es[i]);
    }
}

/// Entries whose names are in strictly increasing order.
pub open spec fn entries_sorted<V>(s: Seq<(Seq<char>, V)>) -> bool {
    forall|i: int, j: int|
        0 <= i < j < s.len() ==> name_less(#[trigger] s[i].0, #[trigger] s[j].0)
}

pub proof fn lemma_before_entry_position<V>(
    acc: Seq<(Seq<char>, V)>,
    name: Seq<char>,
    i: int,
)
    requires
        0 <= i < entry_position(acc, name),
    ensures
        name_less(acc[i].0, name),
    decreases acc.len(),
{
    lemma_entry_position_bounds(acc, name);
    assert(acc.len() > 0 && name_less(acc[0].0, name));
    if i > 0 {
        lemma_before_entry_position(acc.drop_first(), name, i - 1);
        assert(acc.drop_first()[i - 1] == acc[i]);
    }
}

pub proof fn lemma_entry_position_at<V>(
    acc: Seq<(Seq<char>, V)>,
    name: Seq<char>,
)
    requires
        entry_position(acc, name) < acc.len(),
    ensures
        !name_less(acc[entry_position(acc, name)].0, name),
    decreases acc.len(),
{
    lemma_entry_position_bounds(acc, name);
    if acc.len() > 0 && name_less(acc[0].0, name) {
        lemma_entry_position_bounds(acc.drop_first(), name);
        lemma_entry_position_at(acc.drop_first(), name);
        assert(acc.drop_first()[entry_position(acc.drop_first(), name)] == acc[entry_position(
            acc,
            name,
        )]);
    }
}

pub proof fn lemma_with_entries_sorted<V>(
    acc: Seq<(Seq<char>, V)>,
    es: Seq<(Seq<char>, V)>,
)
    requires
        entries_sorted(acc),
    ensures
        entries_sorted(with_entries(acc, es)),
    decreases es.len(),
{
    if es.len() > 0 {
        lemma_with_entries_sorted(acc, es.drop_last());
        let before = with_entries(acc, es.drop_last());
        let e = es.last();
        let p = entry_position(before, e.0);
        lemma_entry_position_bounds(before, e.0);
        let after = with_entry(before, e);
        if 0 <= p < before.len() && before[p].0 == e.0 {
            assert forall|i: int, j: int| 0 <= i < j < after.len() implies name_less(
                #[trigger] after[i].0,
                #[trigger] after[j].0,
            ) by {
                assert(after[i].0 == before[i].0);
                assert(after[j].0 == before[j].0);
            }
        } else {
            if p < before.len() {
                lemma_entry_position_at(before, e.0);
                lemma_name_less_total(before[p].0, e.0);
            }
            assert forall|i: int, j: int| 0 <= i < j < after.len() implies name_less(
                #[trigger] after[i].0,
                #[trigger] after[j].0,
            ) by {
                if j < p {
                    assert(name_less(before[i].0, before[j].0));
                } else if j == p {
                    lemma_before_entry_position(before, e.0, i);
                } else if i < p {
                    lemma_before_entry_position(before, e.0, i);
                    if p < j - 1 {
                        assert(name_less(before[p].0, before[j - 1].0));
                        lemma_name_less_transitive(e.0, before[p].0, before[j - 1].0);
                    }
                    lemma_name_less_transitive(before[i].0, e.0, before[j - 1].0);
                } else if i == p {
                    if p < j - 1 {
                        assert(name_less(before[p].0, before[j - 1].0));
                        lemma_name_less_transitive(e.0, before[p].0, before[j - 1].0);
                    }
                } else {
                    assert(name_less(before[i - 1].0, before[j - 1].0));
                }
            }
        }
    }
}

/// The values of a sequence of entries, in order.
pub open spec fn values<V>(es: Seq<(Seq<char>, V)>) -> Seq<V> {
    es.map_values(|e: (Seq<char>, V)| e.1)
}

/// The values of `entries`, in order.
pub fn values_of<V: DeepView>(entries: Vec<(String, V)>) -> (r: Vec<V>)
    ensures
        r.deep_view() == values(entries.deep_view()),
{
    let ghost all = entries.deep_view();
    let mut rest = entries;
    let mut out: Vec<V> = Vec::new();
    assert(out.deep_view() + values(rest.deep_view()) =~= values(all));
    while rest.len() > 0
        invariant
            out.deep_view() + values(rest.deep_view()) == values(all),
        decreases rest.len(),
    {
        let ghost before_rest = rest.deep_view();
        let ghost before_out = out.deep_view();
        let (_, v) = rest.remove(0);
        out.push(v);
        assert(rest.deep_view() =~= before_rest.drop_first());
        assert(out.deep_view() =~= before_out.push(before_rest[0].1));
        assert(values(before_rest) =~= seq![before_rest[0].1] + values(before_rest.drop_first()));
        assert(out.deep_view() + values(rest.deep_view()) =~= before_out + values(before_rest));
    }
    assert(values(rest.deep_view()) =~= Seq::<V::V>::empty());
    assert(out.deep_view() =~= out.deep_view() + values(rest.deep_view()));
    out
}

/// Some entry of `s` has the name `k`.
pub open spec fn has_key<V>(s: Seq<(Seq<char>, V)>, k: Seq<char>) -> bool {
    exists|i: int| 0 <= i < s.len() && #[trigger] s[i].0 == k
}

proof fn lemma_with_entry_keys<V>(acc: Seq<(Seq<char>, V)>, e: (Seq<char>, V), k: Seq<char>)
    ensures
        has_key(with_entry(acc, e), k) <==> has_key(acc, k) || e.0 == k,
{
    let p = entry_position(acc, e.0);
    lemma_entry_position_bounds(acc, e.0);
    let r = with_entry(acc, e);
    if 0 <= p < acc.len() && acc[p].0 == e.0 {
        assert forall|i: int| 0 <= i < r.len() implies #[trigger] r[i].0 == acc[i].0 by {}
        if has_key(r, k) {
            let i = choose|i: int| 0 <= i < r.len() && #[trigger] r[i].0 == k;
            assert(acc[i].0 == k);
        }
        if has_key(acc, k) {
            let i = choose|i: int| 0 <= i < acc.len() && #[trigger] acc[i].0 == k;
            assert(r[i].0 == k);
        }
        if e.0 == k {
            assert(r[p].0 == k);
        }
    } else {
        if has_key(r, k) {
            let i = choose|i: int| 0 <= i < r.len() && #[trigger] r[i].0 == k;
            if i < p {
                assert(acc[i].0 == k);
            } else if i > p {
                assert(acc[i - 1].0 == k);
            }
        }
        if has_key(acc, k) {
            let i = choose|i: int| 0 <= i < acc.len() && #[trigger] acc[i].0 == k;
            if i < p {
                assert(r[i].0 == k);
            } else {
                assert(r[i + 1].0 == k);
            }
        }
        if e.0 == k {
            assert(r[p].0 == k);
        }
    }
}

/// The names in an ordered insertion are those of the starting entries and
/// those of the inserted ones.
pub proof fn lemma_with_entries_keys<V>(
    acc: Seq<(Seq<char>, V)>,
    es: Seq<(Seq<char>, V)>,
    k: Seq<char>,
)
    ensures
        has_key(with_entries(acc, es), k) <==> has_key(acc, k) || has_key(es, k),
    decreases es.len(),
{
    if es.len() > 0 {
        lemma_with_entries_keys(acc, es.drop_last(), k);
        lemma_with_entry_keys(with_entries(acc, es.drop_last()), es.last(), k);
        if has_key(es, k) {
            let i = choose|i: int| 0 <= i < es.len() && #[trigger] es[i].0 == k;
            if i < es.len() - 1 {
                assert(es.drop_last()[i].0 == k);
            }
        }
        if has_key(es.drop_last(), k) {
            let i = choose|i: int|
                0 <= i < es.drop_last().len() && #[trigger] es.drop_last()[i].0 == k;
            assert(es[i].0 == k);
        }
    }
}

/// The names that ordered set insertion yields are those of the starting set
/// and those inserted.
pub proof fn lemma_add_all_contains(acc: Seq<Seq<char>>, xs: Seq<Seq<char>>, x: Seq<char>)
    ensures
        add_all(acc, xs).contains(x) <==> acc.contains(x) || xs.contains(x),
    decreases xs.len(),
{
    if xs.len() > 0 {
        lemma_add_all_contains(acc, xs.drop_last(), x);
        let before = add_all(acc, xs.drop_last());
        let y = xs.last();
        if !before.contains(y) {
            let p = position(before, y);
            lemma_position_bounds(before, y);
            let r = before.insert(p, y);
            if r.contains(x) {
                let i = choose|i: int| 0 <= i < r.len() && r[i] == x;
                if i < p {
                    assert(before[i] == x);
                } else if i > p {
                    assert(before[i - 1] == x);
                }
            }
            if before.contains(x) {
                let i = choose|i: int| 0 <= i < before.len() && before[i] == x;
                if i < p {
                    assert(r[i] == x);
                } else {
                    assert(r[i + 1] == x);
                }
            }
            assert(r[p] == y);
        }
        if xs.contains(x) {
            let i = choose|i: int| 0 <= i < xs.len() && xs[i] == x;
            if i < xs.len() - 1 {
                assert(xs.drop_last()[i] == x);
            }
        }
        if xs.drop_last().contains(x) {
            let i = choose|i: int| 0 <= i < xs.drop_last().len() && xs.drop_last()[i] == x;
            assert(xs[i] == x);
        }
    }
}

} // verus!
