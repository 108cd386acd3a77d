//! Cache keys: the canonical fingerprint of a query.
//!
//! The tags of a query are sorted before they go into its key, so that two
//! queries that differ only in the order of their tags share one key.

use vstd::prelude::*;
use crate::decimal::{decimal, push_decimal};
use crate::text::{chars_of, join, string_of, views};

verus! {

/// The lexicographic order of texts by their characters' code points:
/// whether `a` comes before `b` or is equal to it.
pub open spec fn lex_le(a: Seq<char>, b: Seq<char>) -> bool
    decreases a.len(),
{
    if a.len() == 0 {
        true
    } else if b.len() == 0 {
        false
    } else if a[0] != b[0] {
        (a[0] as int) < (b[0] as int)
    } else {
        lex_le(a.subrange(1, a.len() as int), b.subrange(1, b.len() as int))
    }
}

fn char_lt(x: char, y: char) -> (r: bool)
    ensures
        r == ((x as int) < (y as int)),
{
    (x as u32) < (y as u32)
}

/// Whether `a` comes before `b` in lexicographic order, or is equal to it.
pub fn text_le(a: &Vec<char>, b: &Vec<char>) -> (r: bool)
    ensures
        r == lex_le(a@, b@),
{
    let mut i: usize = 0;
    assert(a@.subrange(0, a.len() as int) == a@);
    assert(b@.subrange(0, b.len() as int) == b@);
    while i < a.len() && i < b.len()
        invariant
            i <= a.len(),
            i <= b.len(),
            lex_le(a@, b@) == lex_le(
                a@.subrange(i as int, a.len() as int),
                b@.subrange(i as int, b.len() as int),
            ),
        decreases a.len() - i,
    {
        let ghost ra = a@.subrange(i as int, a.len() as int);
        let ghost rb = b@.subrange(i as int, b.len() as int);
        assert(ra[0] == a@[i as int]);
        assert(rb[0] == b@[i as int]);
        if a[i] != b[i] {
            return char_lt(a[i], b[i]);
        }
        assert(ra.subrange(1, ra.len() as int) == a@.subrange(i + 1, a.len() as int));
        assert(rb.subrange(1, rb.len() as int) == b@.subrange(i + 1, b.len() as int));
        i += 1;
    }
    i == a.len()
}

/// The sorted list `sorted` with `x` put in its place: behind the last text
/// that does not come after it.
pub open spec fn insert_sorted(sorted: Seq<Seq<char>>, x: Seq<char>) -> Seq<Seq<char>>
    decreases sorted.len(),
{
    if sorted.len() == 0 {
        seq![x]
    } else if lex_le(sorted[sorted.len() - 1], x) {
        sorted.push(x)
    } else {
        insert_sorted(sorted.subrange(0, sorted.len() - 1), x).push(sorted[sorted.len() - 1])
    }
}

/// The texts of `s` in lexicographic order.
pub open spec fn sorted_texts(s: Seq<Seq<char>>) -> Seq<Seq<char>>
    decreases s.len(),
{
    if s.len() == 0 {
        s
    } else {
        insert_sorted(sorted_texts(s.subrange(0, s.len() - 1)), s[s.len() - 1])
    }
}

proof fn lemma_insert_at(sorted: Seq<Seq<char>>, x: Seq<char>, p: int)
    requires
        0 <= p <= sorted.len(),
        p > 0 ==> lex_le(sorted[p - 1], x),
        forall|j: int| p <= j < sorted.len() ==> !lex_le(#[trigger] sorted[j], x),
    ensures
        insert_sorted(sorted, x) == sorted.insert(p, x),
    decreases sorted.len(),
{
    if sorted.len() == 0 {
        assert(seq![x] =~= sorted.insert(p, x));
    } else if p == sorted.len() {
        assert(sorted.push(x) =~= sorted.insert(p, x));
    } else {
        let front = sorted.subrange(0, sorted.len() - 1);
        assert(!lex_le(sorted[sorted.len() - 1], x));
        assert forall|j: int| p <= j < front.len() implies !lex_le(#[trigger] front[j], x) by {
            assert(front[j] == sorted[j]);
        }
        if p > 0 {
            assert(front[p - 1] == sorted[p - 1]);
        }
        lemma_insert_at(front, x, p);
        assert(front.insert(p, x).push(sorted[sorted.len() - 1]) =~= sorted.insert(p, x));
    }
}

/// The characters of every string of `v`.
pub open spec fn char_views(v: Seq<Vec<char>>) -> Seq<Seq<char>> {
    Seq::new(v.len(), |i: int| v[i]@)
}

/// The texts of `tags` in lexicographic order.
pub fn sort_texts(tags: &[String]) -> (r: Vec<Vec<char>>)
    ensures
        char_views(r@) == sorted_texts(views(tags@)),
{
    let ghost all = views(tags@);
    let mut out: Vec<Vec<char>> = Vec::new();
    let mut i: usize = 0;
    assert(char_views(out@) =~= sorted_texts(all.subrange(0, 0)));
    while i < tags.len()
        invariant
            i <= tags@.len(),
            all == views(tags@),
            char_views(out@) == sorted_texts(all.subrange(0, i as int)),
        decreases tags@.len() - i,
    {
        let x = chars_of(tags[i].as_str());
        let ghost before = char_views(out@);
        let mut p: usize = out.len();
        while p > 0 && !text_le(&out[p - 1], &x)
            invariant
                p <= out@.len(),
                before == char_views(out@),
                forall|j: int| p <= j < before.len() ==> !lex_le(#[trigger] before[j], x@),
            decreases p,
        {
            assert(before[p - 1] == out@[p - 1]@);
            p -= 1;
        }
        proof {
            if p > 0 {
                assert(before[p - 1] == out@[p - 1]@);
            }
            lemma_insert_at(before, x@, p as int);
            let next = all.subrange(0, i + 1);
            assert(next.subrange(0, next.len() - 1) == all.subrange(0, i as int));
            assert(next[next.len() - 1] == x@);
        }
        out.insert(p, x);
        assert(char_views(out@) =~= before.insert(p as int, x@));
        i += 1;
    }
    assert(all.subrange(0, tags@.len() as int) == all);
    out
}

/// The key of a query: the client's name, the sorted tags joined by commas,
/// the page size and the page, as
/// `<client>:<tag>,<tag>,...:limit=<limit>:page=<page>`.
pub open spec fn key_of(client: Seq<char>, tags: Seq<Seq<char>>, limit: u32, page: u32) -> Seq<
    char,
> {
    client + ":"@ + join(sorted_texts(tags), ","@) + ":limit="@ + decimal(limit as nat)
        + ":page="@ + decimal(page as nat)
}

/// Generates a cache key from request parameters.
///
/// The key does not depend on the order of the tags.
#[must_use]
pub fn cache_key(client: &str, tags: &[String], limit: u32, page: u32) -> (r: String)
    ensures
        r@ == key_of(client@, views(tags@), limit, page),
{
    let sorted = sort_texts(tags);
    let ghost texts = char_views(sorted@);
    let mut key = String::new();
    key.append(client);
    key.append(":");
    let ghost head = key@;
    let mut i: usize = 0;
    assert(join(texts.subrange(0, 0), ","@) =~= Seq::<char>::empty());
    assert(key@ =~= head + join(texts.subrange(0, 0), ","@));
    while i < sorted.len()
        invariant
            i <= sorted@.len(),
            texts == char_views(sorted@),
            key@ == head + join(texts.subrange(0, i as int), ","@),
        decreases sorted@.len() - i,
    {
        if i > 0 {
            key.append(",");
        }
        let part = string_of(&sorted[i]);
        key.append(part.as_str());
        proof {
            let next = texts.subrange(0, i + 1);
            assert(next.subrange(0, next.len() - 1) == texts.subrange(0, i as int));
            assert(next[next.len() - 1] == sorted@[i as int]@);
            if i == 0 {
                assert(next[0] == sorted@[0]@);
                assert(key@ =~= head + join(next, ","@));
            } else {
                assert(key@ =~= head + join(next, ","@));
            }
        }
        i += 1;
    }
    assert(texts.subrange(0, sorted@.len() as int) == texts);
    key.append(":limit=");
    push_decimal(&mut key, limit as u64);
    key.append(":page=");
    push_decimal(&mut key, page as u64);
    assert(key@ =~= key_of(client@, views(tags@), limit, page));
    key
}

/// Of two texts, one comes before the other or they are equal.
pub proof fn lemma_lex_total(a: Seq<char>, b: Seq<char>)
    ensures
        lex_le(a, b) || lex_le(b, a),
    decreases a.len(),
{
    if a.len() == 0 {
        assert(lex_le(a, b));
    } else if b.len() == 0 {
        assert(lex_le(b, a));
    } else if a[0] == b[0] {
        lemma_lex_total(a.subrange(1, a.len() as int), b.subrange(1, b.len() as int));
    } else {
        assert((a[0] as int) < (b[0] as int) || (b[0] as int) < (a[0] as int));
    }
}

/// Two texts of which each comes before the other or is equal to it are
/// equal.
pub proof fn lemma_lex_antisymmetric(a: Seq<char>, b: Seq<char>)
    requires
        lex_le(a, b),
        lex_le(b, a),
    ensures
        a == b,
    decreases a.len(),
{
    if a.len() == 0 || b.len() == 0 {
        assert(a =~= b);
    } else {
        let ta = a.subrange(1, a.len() as int);
        let tb = b.subrange(1, b.len() as int);
        lemma_lex_antisymmetric(ta, tb);
        assert(a =~= seq![a[0]] + ta);
        assert(b =~= seq![b[0]] + tb);
    }
}

/// The order of texts is transitive.
pub proof fn lemma_lex_transitive(a: Seq<char>, b: Seq<char>, c: Seq<char>)
    requires
        lex_le(a, b),
        lex_le(b, c),
    ensures
        lex_le(a, c),
    decreases a.len(),
{
    if a.len() > 0 && a[0] == b[0] && b[0] == c[0] {
        lemma_lex_transitive(
            a.subrange(1, a.len() as int),
            b.subrange(1, b.len() as int),
            c.subrange(1, c.len() as int),
        );
    }
}

/// Whether no text of `s` comes before an earlier one.
pub open spec fn is_sorted(s: Seq<Seq<char>>) -> bool {
    forall|i: int, j: int| 0 <= i < j < s.len() ==> lex_le(#[trigger] s[i], #[trigger] s[j])
}

proof fn lemma_insert_sorted(sorted: Seq<Seq<char>>, x: Seq<char>)
    requires
        is_sorted(sorted),
    ensures
        is_sorted(insert_sorted(sorted, x)),
        insert_sorted(sorted, x).to_multiset() == sorted.to_multiset().insert(x),
    decreases sorted.len(),
{
    broadcast use vstd::seq_lib::to_multiset_build;

    let n = sorted.len() as int;
    let r = insert_sorted(sorted, x);
    if n == 0 {
        assert(seq![x] =~= sorted.push(x));
    } else if lex_le(sorted[n - 1], x) {
        assert forall|i: int, j: int| 0 <= i < j < r.len() implies lex_le(
            #[trigger] r[i],
            #[trigger] r[j],
        ) by {
            if j == n && i < n - 1 {
                lemma_lex_transitive(sorted[i], sorted[n - 1], x);
            }
        }
    } else {
        let front = sorted.subrange(0, n - 1);
        let last = sorted[n - 1];
        assert(sorted =~= front.push(last));
        assert(is_sorted(front)) by {
            assert forall|i: int, j: int| 0 <= i < j < front.len() implies lex_le(
                #[trigger] front[i],
                #[trigger] front[j],
            ) by {
                assert(front[i] == sorted[i] && front[j] == sorted[j]);
            }
        }
        lemma_insert_sorted(front, x);
        let inner = insert_sorted(front, x);
        lemma_lex_total(last, x);
        inner.to_multiset_ensures();
        front.to_multiset_ensures();
        assert forall|i: int, j: int| 0 <= i < j < r.len() implies lex_le(
            #[trigger] r[i],
            #[trigger] r[j],
        ) by {
            if j == r.len() - 1 {
                assert(r[j] == last);
                assert(inner.contains(inner[i]));
                assert(inner.to_multiset().count(inner[i]) > 0);
                if inner[i] != x {
                    assert(front.to_multiset().count(inner[i]) > 0);
                    assert(front.contains(inner[i]));
                    let k = choose|k: int| 0 <= k < front.len() && front[k] == inner[i];
                    assert(front[k] == sorted[k]);
                    assert(lex_le(sorted[k], sorted[n - 1]));
                }
            } else {
                assert(r[i] == inner[i] && r[j] == inner[j]);
            }
        }
        assert(r.to_multiset() =~= sorted.to_multiset().insert(x));
    }
}

/// Sorting puts the texts in order, and neither adds nor drops one.
pub proof fn lemma_sorted_texts(s: Seq<Seq<char>>)
    ensures
        is_sorted(sorted_texts(s)),
        sorted_texts(s).to_multiset() == s.to_multiset(),
        sorted_texts(s).len() == s.len(),
    decreases s.len(),
{
    broadcast use vstd::seq_lib::to_multiset_build;

    if s.len() > 0 {
        let front = s.subrange(0, s.len() - 1);
        lemma_sorted_texts(front);
        lemma_insert_sorted(sorted_texts(front), s[s.len() - 1]);
        assert(s =~= front.push(s[s.len() - 1]));
    }
    sorted_texts(s).to_multiset_ensures();
    s.to_multiset_ensures();
}

/// There is one way only to put given texts in order.
pub proof fn lemma_sorted_is_unique(a: Seq<Seq<char>>, b: Seq<Seq<char>>)
    requires
        is_sorted(a),
        is_sorted(b),
        a.to_multiset() == b.to_multiset(),
    ensures
        a == b,
    decreases a.len(),
{
    a.to_multiset_ensures();
    b.to_multiset_ensures();
    if a.len() == 0 {
        assert(a =~= b);
    } else {
        let n = a.len() as int;
        let x = a[n - 1];
        let y = b[n - 1];
        assert(a.contains(x));
        assert(b.contains(y));
        assert(a.to_multiset().count(x) > 0);
        assert(b.to_multiset().count(y) > 0);
        assert(b.contains(x));
        assert(a.contains(y));
        let i = choose|i: int| 0 <= i < n && a[i] == y;
        let j = choose|j: int| 0 <= j < n && b[j] == x;
        if i < n - 1 {
            assert(lex_le(a[i], a[n - 1]));
        }
        if j < n - 1 {
            assert(lex_le(b[j], b[n - 1]));
        }
        if i < n - 1 && j < n - 1 {
            lemma_lex_antisymmetric(x, y);
        }
        assert(x == y);
        let fa = a.subrange(0, n - 1);
        let fb = b.subrange(0, n - 1);
        assert(fa =~= a.remove(n - 1));
        assert(fb =~= b.remove(n - 1));
        vstd::seq_lib::to_multiset_remove(a, n - 1);
        vstd::seq_lib::to_multiset_remove(b, n - 1);
        assert(is_sorted(fa)) by {
            assert forall|p: int, q: int| 0 <= p < q < fa.len() implies lex_le(
                #[trigger] fa[p],
                #[trigger] fa[q],
            ) by {
                assert(fa[p] == a[p] && fa[q] == a[q]);
            }
        }
        assert(is_sorted(fb)) by {
            assert forall|p: int, q: int| 0 <= p < q < fb.len() implies lex_le(
                #[trigger] fb[p],
                #[trigger] fb[q],
            ) by {
                assert(fb[p] == b[p] && fb[q] == b[q]);
            }
        }
        lemma_sorted_is_unique(fa, fb);
        assert(a =~= fa.push(x));
        assert(b =~= fb.push(y));
    }
}

/// The key of a query does not depend on the order of its tags: queries
/// that hold the same tags, each as often as the other, have one key.
pub proof fn lemma_key_ignores_tag_order(
    client: Seq<char>,
    tags: Seq<Seq<char>>,
    reordered: Seq<Seq<char>>,
    limit: u32,
    page: u32,
)
    requires
        tags.to_multiset() == reordered.to_multiset(),
    ensures
        key_of(client, tags, limit, page) == key_of(client, reordered, limit, page),
{
    lemma_sorted_texts(tags);
    lemma_sorted_texts(reordered);
    lemma_sorted_is_unique(sorted_texts(tags), sorted_texts(reordered));
}

} // verus!
