//! Text order and key maps: the order in which `String`s compare (character
//! by character, by code point, a prefix first), and string maps kept as
//! key/value pairs in strictly ascending key order, built the way a sorted
//! map is built from pairs (a later pair for a key replaces an earlier one).
use vstd::prelude::*;

use crate::text::chars_of;

verus! {

broadcast use vstd::string::group_string_axioms;

/// `a` sorts before `b`: at the first position where they differ `a` has the
/// smaller character, or `a` is a proper prefix of `b`.
pub open spec fn text_lt(a: Seq<char>, b: Seq<char>) -> bool
    decreases a.len(),
{
    if a.len() == 0 {
        b.len() > 0
    } else if b.len() == 0 {
        false
    } else if a[0] != b[0] {
        (a[0] as int) < (b[0] as int)
    } else {
        text_lt(a.drop_first(), b.drop_first())
    }
}

proof fn lemma_split(a: Seq<char>)
    requires
        a.len() > 0,
    ensures
        a == seq![a[0]] + a.drop_first(),
{
    assert(a =~= seq![a[0]] + a.drop_first());
}

/// No text sorts before itself.
pub proof fn lemma_text_lt_irreflexive(a: Seq<char>)
    ensures
        !text_lt(a, a),
    decreases a.len(),
{
    if a.len() > 0 {
        lemma_text_lt_irreflexive(a.drop_first());
    }
}

/// Of two different texts exactly one sorts first.
pub proof fn lemma_text_lt_total(a: Seq<char>, b: Seq<char>)
    ensures
        a != b ==> (text_lt(a, b) || text_lt(b, a)),
        !(text_lt(a, b) && text_lt(b, a)),
    decreases a.len(),
{
    if a.len() > 0 && b.len() > 0 {
        if a[0] == b[0] {
            lemma_text_lt_total(a.drop_first(), b.drop_first());
            if a != b {
                lemma_split(a);
                lemma_split(b);
            }
        } else {
            assert((a[0] as int) != (b[0] as int));
        }
    } else if a.len() == 0 && b.len() == 0 {
        assert(a =~= b);
    }
}

/// The text order is transitive.
pub proof fn lemma_text_lt_transitive(a: Seq<char>, b: Seq<char>, c: Seq<char>)
    requires
        text_lt(a, b),
        text_lt(b, c),
    ensures
        text_lt(a, c),
    decreases a.len(),
{
    if a.len() > 0 && b.len() > 0 && c.len() > 0 {
        if a[0] == b[0] && b[0] == c[0] {
            lemma_text_lt_transitive(a.drop_first(), b.drop_first(), c.drop_first());
        }
    }
}

/// Whether `a` sorts before `b` (as `a < b` compares two strings).
pub fn str_lt(a: &str, b: &str) -> (r: bool)
    ensures
        r == text_lt(a@, b@),
{
    let x = chars_of(a);
    let y = chars_of(b);
    let mut i: usize = 0;
    assert(a@.skip(0) =~= a@ && b@.skip(0) =~= b@);
    while i < x.len() && i < y.len() && x[i] == y[i]
        invariant
            x@ == a@,
            y@ == b@,
            i <= x.len(),
            i <= y.len(),
            text_lt(a@, b@) == text_lt(a@.skip(i as int), b@.skip(i as int)),
        decreases x.len() - i,
    {
        proof {
            let s = a@.skip(i as int);
            let t = b@.skip(i as int);
            assert(s.drop_first() =~= a@.skip(i + 1));
            assert(t.drop_first() =~= b@.skip(i + 1));
        }
        i += 1;
    }
    let ghost s = a@.skip(i as int);
    let ghost t = b@.skip(i as int);
    if i == x.len() {
        assert(s.len() == 0);
        i < y.len()
    } else if i == y.len() {
        assert(t.len() == 0 && s.len() > 0);
        false
    } else {
        assert(s[0] == x@[i as int] && t[0] == y@[i as int]);
        x[i] < y[i]
    }
}

/// The map that pairs stand for: each key with the value of its last pair.
pub open spec fn map_of(s: Seq<(String, String)>) -> Map<Seq<char>, Seq<char>>
    decreases s.len(),
{
    if s.len() == 0 {
        Map::empty()
    } else {
        map_of(s.drop_last()).insert(s.last().0@, s.last().1@)
    }
}

/// The keys of `s` ascend strictly: each key occurs once, in text order.
pub open spec fn key_ordered(s: Seq<(String, String)>) -> bool {
    forall|i: int, j: int| 0 <= i < j < s.len() ==> text_lt(#[trigger] s[i].0@, #[trigger] s[j].0@)
}

/// A key is in the map that pairs stand for exactly when some pair has it.
pub proof fn lemma_map_of_dom(s: Seq<(String, String)>, k: Seq<char>)
    ensures
        map_of(s).dom().contains(k) == (exists|i: int| 0 <= i < s.len() && #[trigger] s[i].0@ == k),
    decreases s.len(),
{
    if s.len() > 0 {
        let p = s.drop_last();
        lemma_map_of_dom(p, k);
        if map_of(s).dom().contains(k) && k != s.last().0@ {
            let i = choose|i: int| 0 <= i < p.len() && #[trigger] p[i].0@ == k;
            assert(s[i].0@ == k);
        }
        if exists|i: int| 0 <= i < s.len() && #[trigger] s[i].0@ == k {
            let i = choose|i: int| 0 <= i < s.len() && #[trigger] s[i].0@ == k;
            if i < s.len() - 1 {
                assert(p[i].0@ == k);
            }
        }
    }
}

proof fn lemma_map_of_value(s: Seq<(String, String)>, i: int)
    requires
        key_ordered(s),
        0 <= i < s.len(),
    ensures
        map_of(s).dom().contains(s[i].0@),
        map_of(s)[s[i].0@] == s[i].1@,
    decreases s.len(),
{
    let p = s.drop_last();
    assert(key_ordered(p)) by {
        assert forall|a: int, b: int| 0 <= a < b < p.len() implies text_lt(
            #[trigger] p[a].0@,
            #[trigger] p[b].0@,
        ) by {
            assert(p[a] == s[a] && p[b] == s[b]);
        }
    }
    if i < s.len() - 1 {
        lemma_map_of_value(p, i);
        lemma_text_lt_irreflexive(s[i].0@);
        assert(text_lt(s[i].0@, s[s.len() - 1].0@));
        assert(s[i].0@ != s.last().0@);
        assert(p[i] == s[i]);
    }
}

proof fn lemma_drop_last_ordered(s: Seq<(String, String)>)
    requires
        key_ordered(s),
        s.len() > 0,
    ensures
        key_ordered(s.drop_last()),
        map_of(s.drop_last()) == map_of(s).remove(s.last().0@),
        !map_of(s.drop_last()).dom().contains(s.last().0@),
{
    let p = s.drop_last();
    assert forall|a: int, b: int| 0 <= a < b < p.len() implies text_lt(
        #[trigger] p[a].0@,
        #[trigger] p[b].0@,
    ) by {
        assert(p[a] == s[a] && p[b] == s[b]);
    }
    let k = s.last().0@;
    lemma_map_of_dom(p, k);
    if map_of(p).dom().contains(k) {
        let i = choose|i: int| 0 <= i < p.len() && #[trigger] p[i].0@ == k;
        assert(text_lt(s[i].0@, s[s.len() - 1].0@));
        lemma_text_lt_irreflexive(k);
    }
    assert(map_of(p) =~= map_of(s).remove(k));
}

/// The largest key of key-ordered pairs is the last one: no key of the map
/// sorts after it.
proof fn lemma_last_is_largest(s: Seq<(String, String)>, k: Seq<char>)
    requires
        key_ordered(s),
        s.len() > 0,
        map_of(s).dom().contains(k),
        k != s.last().0@,
    ensures
        text_lt(k, s.last().0@),
{
    lemma_map_of_dom(s, k);
    let i = choose|i: int| 0 <= i < s.len() && #[trigger] s[i].0@ == k;
    assert(i != s.len() - 1);
    assert(text_lt(s[i].0@, s[s.len() - 1].0@));
}

/// Key-ordered pairs are the map they stand for: two of them that stand for
/// the same map hold the same keys and values in the same places.
pub proof fn law_key_ordered_pairs_are_the_map(a: Seq<(String, String)>, b: Seq<(String, String)>)
    requires
        key_ordered(a),
        key_ordered(b),
        map_of(a) == map_of(b),
    ensures
        a.len() == b.len(),
        forall|i: int| 0 <= i < a.len() ==> #[trigger] a[i].0@ == b[i].0@ && a[i].1@ == b[i].1@,
    decreases a.len(),
{
    if a.len() == 0 || b.len() == 0 {
        if a.len() > 0 {
            lemma_map_of_value(a, 0);
            lemma_map_of_dom(b, a[0].0@);
        }
        if b.len() > 0 {
            lemma_map_of_value(b, 0);
            lemma_map_of_dom(a, b[0].0@);
        }
    } else {
        let ka = a.last().0@;
        let kb = b.last().0@;
        lemma_map_of_value(a, a.len() - 1);
        lemma_map_of_value(b, b.len() - 1);
        if ka != kb {
            lemma_last_is_largest(b, ka);
            lemma_last_is_largest(a, kb);
            lemma_text_lt_total(ka, kb);
        }
        lemma_drop_last_ordered(a);
        lemma_drop_last_ordered(b);
        law_key_ordered_pairs_are_the_map(a.drop_last(), b.drop_last());
        assert forall|i: int| 0 <= i < a.len() implies #[trigger] a[i].0@ == b[i].0@ && a[i].1@
            == b[i].1@ by {
            if i < a.len() - 1 {
                assert(a.drop_last()[i] == a[i] && b.drop_last()[i] == b[i]);
            }
        }
    }
}

/// Whether `m` holds a pair for key `k`, and its index.
fn find_key(m: &Vec<(String, String)>, k: &str) -> (r: (usize, bool))
    requires
        key_ordered(m@),
    ensures
        r.0 <= m@.len(),
        forall|j: int| 0 <= j < r.0 ==> text_lt(#[trigger] m@[j].0@, k@),
        r.1 ==> r.0 < m@.len() && m@[r.0 as int].0@ == k@,
        !r.1 ==> (r.0 < m@.len() ==> text_lt(k@, m@[r.0 as int].0@)),
{
    let mut i: usize = 0;
    while i < m.len() && str_lt(m[i].0.as_str(), k)
        invariant
            i <= m@.len(),
            forall|j: int| 0 <= j < i ==> text_lt(#[trigger] m@[j].0@, k@),
        decreases m.len() - i,
    {
        i += 1;
    }
    if i < m.len() {
        let eq = crate::text::str_eq(m[i].0.as_str(), k);
        proof {
            lemma_text_lt_total(m@[i as int].0@, k@);
        }
        (i, eq)
    } else {
        (i, false)
    }
}

/// Put `k` with value `v` into the key-ordered pairs `m`: replaced in place
/// when `k` is there, inserted at its place in the order when not.
pub fn insert_key(m: &mut Vec<(String, String)>, k: String, v: String)
    requires
        key_ordered(old(m)@),
    ensures
        key_ordered(final(m)@),
        map_of(final(m)@) == map_of(old(m)@).insert(k@, v@),
{
    let ghost before = m@;
    let (i, found) = find_key(m, k.as_str());
    let ghost kv = k@;
    let ghost vv = v@;
    if found {
        m.set(i, (k, v));
    } else {
        m.insert(i, (k, v));
    }
    let ghost after = m@;
    proof {
        // the order holds after the change
        assert forall|a: int, b: int| 0 <= a < b < after.len() implies text_lt(
            #[trigger] after[a].0@,
            #[trigger] after[b].0@,
        ) by {
            if found {
                if a == i {
                    assert(before[a].0@ == kv);
                } else if b == i {
                    assert(before[b].0@ == kv);
                }
                assert(after[a].0@ == before[a].0@ || a == i);
            } else {
                if a < i && b == i {
                } else if a < i && b > i {
                    assert(after[b] == before[b - 1]);
                    if i < before.len() {
                        assert(text_lt(kv, before[i as int].0@));
                        if b - 1 > i {
                            assert(text_lt(before[i as int].0@, before[b - 1].0@));
                            lemma_text_lt_transitive(kv, before[i as int].0@, before[b - 1].0@);
                        }
                        lemma_text_lt_transitive(before[a].0@, kv, before[b - 1].0@);
                    }
                } else if a == i {
                    assert(after[b] == before[b - 1]);
                    if b - 1 > i {
                        assert(text_lt(before[i as int].0@, before[b - 1].0@));
                        lemma_text_lt_transitive(kv, before[i as int].0@, before[b - 1].0@);
                    }
                } else if a > i {
                    assert(after[a] == before[a - 1] && after[b] == before[b - 1]);
                } else {
                    assert(after[a] == before[a] && after[b] == before[b]);
                }
            }
        }
        assert(key_ordered(after));
        // the map is the old one with `k` set to `v`
        assert forall|key: Seq<char>| #[trigger] map_of(after).dom().contains(key) == map_of(
            before,
        ).insert(kv, vv).dom().contains(key) by {
            lemma_map_of_dom(after, key);
            lemma_map_of_dom(before, key);
            if exists|j: int| 0 <= j < after.len() && #[trigger] after[j].0@ == key {
                let j = choose|j: int| 0 <= j < after.len() && #[trigger] after[j].0@ == key;
                if found {
                    if j != i {
                        assert(before[j].0@ == key);
                    }
                } else if j < i {
                    assert(before[j].0@ == key);
                } else if j > i {
                    assert(before[j - 1].0@ == key);
                }
            }
            if exists|j: int| 0 <= j < before.len() && #[trigger] before[j].0@ == key {
                let j = choose|j: int| 0 <= j < before.len() && #[trigger] before[j].0@ == key;
                if found {
                    if j == i {
                        assert(after[j].0@ == kv);
                    } else {
                        assert(after[j].0@ == key);
                    }
                } else if j < i {
                    assert(after[j].0@ == key);
                } else {
                    assert(after[j + 1].0@ == key);
                }
            }
            if key == kv {
                assert(after[i as int].0@ == kv);
            }
        }
        assert forall|key: Seq<char>| #[trigger] map_of(after).dom().contains(key) implies map_of(
            after,
        )[key] == map_of(before).insert(kv, vv)[key] by {
            lemma_map_of_dom(after, key);
            let j = choose|j: int| 0 <= j < after.len() && #[trigger] after[j].0@ == key;
            lemma_map_of_value(after, j);
            if key != kv {
                let b = if found || j < i {
                    j
                } else {
                    j - 1
                };
                assert(before[b] == after[j]);
                lemma_map_of_value(before, b);
            } else {
                lemma_map_of_value(after, i as int);
                assert(after[i as int].1@ == vv);
            }
        }
        assert(map_of(after) =~= map_of(before).insert(kv, vv));
    }
}

/// The key-ordered pairs for `pairs`, as a sorted map is built from them:
/// keys in ascending text order, each once, with the value of its last pair.
pub fn key_map(pairs: Vec<(String, String)>) -> (r: Vec<(String, String)>)
    ensures
        key_ordered(r@),
        map_of(r@) == map_of(pairs@),
{
    let mut r: Vec<(String, String)> = Vec::new();
    let mut i: usize = 0;
    let n = pairs.len();
    while i < n
        invariant
            n == pairs@.len(),
            i <= n,
            key_ordered(r@),
            map_of(r@) == map_of(pairs@.subrange(0, i as int)),
        decreases n - i,
    {
        let k = pairs[i].0.clone();
        let v = pairs[i].1.clone();
        insert_key(&mut r, k, v);
        proof {
            assert(pairs@.subrange(0, i + 1).drop_last() =~= pairs@.subrange(0, i as int));
        }
        i += 1;
    }
    assert(pairs@.subrange(0, n as int) =~= pairs@);
    r
}

} // verus!
