//! Stable sorting as a mathematical function, and the order of strings.

use vstd::prelude::*;
use vstd::std_specs::iter::IteratorSpec;

verus! {

/// Every item of `s` is at most each item after it.
pub open spec fn sorted_by<T>(s: Seq<T>, leq: spec_fn(T, T) -> bool) -> bool {
    forall|i: int, j: int| 0 <= i < j < s.len() ==> leq(s[i], s[j])
}

/// Any two items are ordered one way or the other.
pub open spec fn total<T>(leq: spec_fn(T, T) -> bool) -> bool {
    forall|a: T, b: T| #[trigger] leq(a, b) || leq(b, a)
}

/// What is at most a second item is at most whatever that item is at most.
pub open spec fn transitive<T>(leq: spec_fn(T, T) -> bool) -> bool {
    forall|a: T, b: T, c: T| #[trigger] leq(a, b) && #[trigger] leq(b, c) ==> leq(a, c)
}

/// The first index of `sorted` whose item `item` is at most, or its length if there is none.
pub open spec fn insertion_point<T>(sorted: Seq<T>, item: T, leq: spec_fn(T, T) -> bool) -> int
    decreases sorted.len(),
{
    if sorted.len() == 0 {
        0
    } else if leq(item, sorted[0]) {
        0
    } else {
        1 + insertion_point(sorted.drop_first(), item, leq)
    }
}

/// `s` sorted by `leq`, items that are equal under `leq` keeping the order they had in `s`.
pub open spec fn stable_sort<T>(s: Seq<T>, leq: spec_fn(T, T) -> bool) -> Seq<T>
    decreases s.len(),
{
    if s.len() == 0 {
        s
    } else {
        let rest = stable_sort(s.drop_first(), leq);
        rest.insert(insertion_point(rest, s[0], leq), s[0])
    }
}

/// The insertion point lies in `0..=len`, `item` is at most none of the items before it, and at
/// most the item at it.
pub proof fn lemma_insertion_point<T>(sorted: Seq<T>, item: T, leq: spec_fn(T, T) -> bool)
    ensures
        0 <= insertion_point(sorted, item, leq) <= sorted.len(),
        forall|j: int| 0 <= j < insertion_point(sorted, item, leq) ==> !leq(item, #[trigger] sorted[j]),
        insertion_point(sorted, item, leq) < sorted.len() ==> leq(
            item,
            sorted[insertion_point(sorted, item, leq)],
        ),
    decreases sorted.len(),
{
    if sorted.len() > 0 && !leq(item, sorted[0]) {
        let tail = sorted.drop_first();
        lemma_insertion_point(tail, item, leq);
        let p = insertion_point(tail, item, leq);
        assert forall|j: int| 0 <= j < p + 1 implies !leq(item, #[trigger] sorted[j]) by {
            if j > 0 {
                assert(sorted[j] == tail[j - 1]);
            }
        }
    }
}

/// An index with the two properties of the insertion point is the insertion point.
pub proof fn lemma_insertion_point_unique<T>(
    sorted: Seq<T>,
    item: T,
    leq: spec_fn(T, T) -> bool,
    p: int,
)
    requires
        0 <= p <= sorted.len(),
        forall|j: int| 0 <= j < p ==> !leq(item, #[trigger] sorted[j]),
        p < sorted.len() ==> leq(item, sorted[p]),
    ensures
        insertion_point(sorted, item, leq) == p,
{
    lemma_insertion_point(sorted, item, leq);
}

/// Sorting keeps the items and how often each occurs.
pub proof fn lemma_stable_sort_permutes<T>(s: Seq<T>, leq: spec_fn(T, T) -> bool)
    ensures
        stable_sort(s, leq).to_multiset() == s.to_multiset(),
    decreases s.len(),
{
    broadcast use vstd::seq_lib::group_to_multiset_ensures;

    if s.len() > 0 {
        let rest = stable_sort(s.drop_first(), leq);
        lemma_stable_sort_permutes(s.drop_first(), leq);
        lemma_insertion_point(rest, s[0], leq);
        assert(s =~= s.drop_first().insert(0, s[0]));
    }
}

/// Under a total and transitive order the result of sorting is sorted.
pub proof fn lemma_stable_sort_sorted<T>(s: Seq<T>, leq: spec_fn(T, T) -> bool)
    requires
        total(leq),
        transitive(leq),
    ensures
        sorted_by(stable_sort(s, leq), leq),
    decreases s.len(),
{
    if s.len() > 0 {
        let rest = stable_sort(s.drop_first(), leq);
        let item = s[0];
        lemma_stable_sort_sorted(s.drop_first(), leq);
        lemma_insertion_point(rest, item, leq);
    }
}

/// A sorted sequence is its own sorting.
pub proof fn lemma_stable_sort_of_sorted<T>(s: Seq<T>, leq: spec_fn(T, T) -> bool)
    requires
        sorted_by(s, leq),
    ensures
        stable_sort(s, leq) == s,
    decreases s.len(),
{
    if s.len() > 0 {
        let tail = s.drop_first();
        lemma_stable_sort_of_sorted(tail, leq);
    }
}

/// Whether `a` comes at or before `b` in the order of strings: character by character, a
/// proper prefix before what it is a prefix of.
pub open spec fn lex_le(a: Seq<char>, b: Seq<char>) -> bool
    decreases a.len(),
{
    if a.len() == 0 {
        true
    } else if b.len() == 0 {
        false
    } else if a[0] != b[0] {
        (a[0] as u32) < (b[0] as u32)
    } else {
        lex_le(a.drop_first(), b.drop_first())
    }
}

/// Any two strings are ordered one way or the other.
pub proof fn lemma_lex_le_total(a: Seq<char>, b: Seq<char>)
    ensures
        lex_le(a, b) || lex_le(b, a),
    decreases a.len(),
{
    if a.len() > 0 && b.len() > 0 {
        if a[0] == b[0] {
            lemma_lex_le_total(a.drop_first(), b.drop_first());
        } else {
            vstd::utf8::char_u32_cast(a[0], a[0] as u32);
            vstd::utf8::char_u32_cast(b[0], b[0] as u32);
        }
    }
}

/// The order of strings is transitive.
pub proof fn lemma_lex_le_transitive(a: Seq<char>, b: Seq<char>, c: Seq<char>)
    requires
        lex_le(a, b),
        lex_le(b, c),
    ensures
        lex_le(a, c),
    decreases a.len(),
{
    if a.len() > 0 && b.len() > 0 && c.len() > 0 && a[0] == b[0] && b[0] == c[0] {
        lemma_lex_le_transitive(a.drop_first(), b.drop_first(), c.drop_first());
    }
}

/// Whether `a` comes at or before `b` in the order of strings.
pub fn str_le(a: &str, b: &str) -> (le: bool)
    ensures
        le == lex_le(a@, b@),
{
    let mut left = a.chars();
    let mut right = b.chars();
    loop
        invariant
            left.obeys_prophetic_iter_laws(),
            right.obeys_prophetic_iter_laws(),
            left.decrease() is Some,
            lex_le(a@, b@) == lex_le(left.remaining(), right.remaining()),
        decreases left.decrease()->0,
    {
        match left.next() {
            None => {
                return true;
            },
            Some(x) => match right.next() {
                None => {
                    return false;
                },
                Some(y) => {
                    if x != y {
                        return (x as u32) < (y as u32);
                    }
                },
            },
        }
    }
}

/// Whether two strings hold the same characters.
pub fn str_eq(a: &str, b: &str) -> (eq: bool)
    ensures
        eq == (a@ == b@),
{
    let mut left = a.chars();
    let mut right = b.chars();
    loop
        invariant
            left.obeys_prophetic_iter_laws(),
            right.obeys_prophetic_iter_laws(),
            left.decrease() is Some,
            (a@ == b@) == (left.remaining() == right.remaining()),
        decreases left.decrease()->0,
    {
        let ghost l = left.remaining();
        let ghost r = right.remaining();
        match left.next() {
            None => {
                let other = right.next();
                assert(other is None ==> l =~= r);
                return other.is_none();
            },
            Some(x) => match right.next() {
                None => {
                    return false;
                },
                Some(y) => {
                    if x != y {
                        return false;
                    }
                    assert(l =~= seq![x] + l.drop_first());
                    assert(r =~= seq![y] + r.drop_first());
                },
            },
        }
    }
}

} // verus!
