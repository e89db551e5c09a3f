//! The order of texts, and sorting that keeps equal items in place.
use crate::views::DeepClone;
use vstd::prelude::*;

verus! {

/// Texts are ordered by the first character in which they differ; a prefix comes first.
pub open spec fn text_le(a: Seq<char>, b: Seq<char>) -> bool
    decreases a.len(),
{
    if a.len() == 0 {
        true
    } else if b.len() == 0 {
        false
    } else if a[0] != b[0] {
        a[0] < b[0]
    } else {
        text_le(a.drop_first(), b.drop_first())
    }
}

/// Absent texts come before present ones.
pub open spec fn opt_text_le(a: Option<Seq<char>>, b: Option<Seq<char>>) -> bool {
    match a {
        None => true,
        Some(x) => match b {
            None => false,
            Some(y) => text_le(x, y),
        },
    }
}

/// A text is never before itself.
pub proof fn lemma_text_le_reflexive(a: Seq<char>)
    ensures
        text_le(a, a),
    decreases a.len(),
{
    if a.len() > 0 {
        lemma_text_le_reflexive(a.drop_first());
    }
}

/// Any two texts are ordered one way or the other.
pub proof fn lemma_text_le_total(a: Seq<char>, b: Seq<char>)
    ensures
        text_le(a, b) || text_le(b, a),
    decreases a.len(),
{
    if a.len() > 0 && b.len() > 0 && a[0] == b[0] {
        lemma_text_le_total(a.drop_first(), b.drop_first());
    }
}

/// Texts that are not after each other are the same text.
pub proof fn lemma_text_le_antisymmetric(a: Seq<char>, b: Seq<char>)
    requires
        text_le(a, b),
        text_le(b, a),
    ensures
        a == b,
    decreases a.len(),
{
    if a.len() > 0 && b.len() > 0 {
        lemma_text_le_antisymmetric(a.drop_first(), b.drop_first());
        assert(a =~= seq![a[0]] + a.drop_first());
        assert(b =~= seq![b[0]] + b.drop_first());
    } else {
        assert(a =~= b);
    }
}

/// The order of texts is transitive.
pub proof fn lemma_text_le_transitive(a: Seq<char>, b: Seq<char>, c: Seq<char>)
    requires
        text_le(a, b),
        text_le(b, c),
    ensures
        text_le(a, c),
    decreases a.len(),
{
    if a.len() > 0 && b.len() > 0 && c.len() > 0 && a[0] == b[0] && b[0] == c[0] {
        lemma_text_le_transitive(a.drop_first(), b.drop_first(), c.drop_first());
    }
}

/// The order of texts, all at once: total, antisymmetric and transitive.
pub proof fn lemma_text_le(a: Seq<char>, b: Seq<char>, c: Seq<char>)
    ensures
        text_le(a, b) || text_le(b, a),
        text_le(a, b) && text_le(b, a) ==> a == b,
        text_le(a, b) && text_le(b, c) ==> text_le(a, c),
{
    lemma_text_le_total(a, b);
    if text_le(a, b) && text_le(b, a) {
        lemma_text_le_antisymmetric(a, b);
    }
    if text_le(a, b) && text_le(b, c) {
        lemma_text_le_transitive(a, b, c);
    }
}

/// The order of optional texts, all at once: total, antisymmetric and transitive.
pub proof fn lemma_opt_text_le(a: Option<Seq<char>>, b: Option<Seq<char>>, c: Option<Seq<char>>)
    ensures
        opt_text_le(a, b) || opt_text_le(b, a),
        opt_text_le(a, b) && opt_text_le(b, a) ==> a == b,
        opt_text_le(a, b) && opt_text_le(b, c) ==> opt_text_le(a, c),
{
    if let (Some(x), Some(y)) = (a, b) {
        lemma_text_le(x, y, x);
        if let Some(z) = c {
            lemma_text_le(x, y, z);
        }
    }
}

/// Whether a text does not come after another one.
pub fn str_le(a: &str, b: &str) -> (le: bool)
    ensures
        le == text_le(a@, b@),
{
    let mut left = a.chars();
    let mut right = b.chars();
    loop
        invariant
            text_le(vstd::std_specs::iter::IteratorSpec::remaining(&left), vstd::std_specs::iter::IteratorSpec::remaining(&right)) == text_le(a@, b@),
            vstd::std_specs::iter::IteratorSpec::decrease(&left) is Some,
        decreases vstd::std_specs::iter::IteratorSpec::decrease(&left)->0,
    {
        let x = left.next();
        let y = right.next();
        match x {
            None => {
                return true;
            },
            Some(cx) => match y {
                None => {
                    return false;
                },
                Some(cy) => {
                    if cx != cy {
                        return cx < cy;
                    }
                },
            },
        }
    }
}

/// Whether two texts are the same.
pub fn str_eq(a: &str, b: &str) -> (eq: bool)
    ensures
        eq == (a@ == b@),
{
    let mut left = a.chars();
    let mut right = b.chars();
    let ghost mut n: int = 0;
    assert(a@.subrange(0, a@.len() as int) =~= a@);
    assert(b@.subrange(0, b@.len() as int) =~= b@);
    loop
        invariant
            0 <= n <= a@.len(),
            0 <= n <= b@.len(),
            vstd::std_specs::iter::IteratorSpec::remaining(&left) == a@.subrange(n, a@.len() as int),
            vstd::std_specs::iter::IteratorSpec::remaining(&right) == b@.subrange(n, b@.len() as int),
            forall|j: int| 0 <= j < n ==> a@[j] == b@[j],
            vstd::std_specs::iter::IteratorSpec::decrease(&left) is Some,
        decreases vstd::std_specs::iter::IteratorSpec::decrease(&left)->0,
    {
        let x = left.next();
        let y = right.next();
        match x {
            None => match y {
                None => {
                    assert(a@ =~= b@);
                    return true;
                },
                Some(_) => {
                    return false;
                },
            },
            Some(cx) => match y {
                None => {
                    return false;
                },
                Some(cy) => {
                    if cx != cy {
                        return false;
                    }
                    proof {
                        assert(a@.subrange(n, a@.len() as int).drop_first() =~= a@.subrange(n + 1, a@.len() as int));
                        assert(b@.subrange(n, b@.len() as int).drop_first() =~= b@.subrange(n + 1, b@.len() as int));
                        n = n + 1;
                    }
                },
            },
        }
    }
}

/// Whether one optional text may precede another; an absent one precedes all.
pub fn opt_str_le(a: &Option<String>, b: &Option<String>) -> (le: bool)
    ensures
        le == opt_text_le(a.deep_view(), b.deep_view()),
{
    match a {
        None => true,
        Some(x) => match b {
            None => false,
            Some(y) => str_le(x.as_str(), y.as_str()),
        },
    }
}

/// Whether two optional texts are the same.
pub fn opt_str_eq(a: &Option<String>, b: &Option<String>) -> (eq: bool)
    ensures
        eq == (a.deep_view() == b.deep_view()),
{
    match a {
        None => b.is_none(),
        Some(x) => match b {
            None => false,
            Some(y) => str_eq(x.as_str(), y.as_str()),
        },
    }
}


// ------------------------------------------------------------------- sorting

/// A list with an item put before the first one that it may precede.
pub open spec fn put_in_order<A>(s: Seq<A>, x: A, le: spec_fn(A, A) -> bool) -> Seq<A>
    decreases s.len(),
{
    if s.len() == 0 || le(x, s[0]) {
        seq![x] + s
    } else {
        seq![s[0]] + put_in_order(s.drop_first(), x, le)
    }
}

/// A list in order, where items that may precede each other keep their places.
pub open spec fn in_order<A>(s: Seq<A>, le: spec_fn(A, A) -> bool) -> Seq<A>
    decreases s.len(),
{
    if s.len() == 0 {
        s
    } else {
        put_in_order(in_order(s.drop_first(), le), s[0], le)
    }
}

/// The relation puts any two items one way or the other, and is transitive.
pub open spec fn is_ordering<A>(le: spec_fn(A, A) -> bool) -> bool {
    &&& forall|a: A, b: A| #[trigger] le(a, b) || le(b, a)
    &&& forall|a: A, b: A, c: A| #[trigger] le(a, b) && #[trigger] le(b, c) ==> le(a, c)
}

/// Each item may precede those after it.
pub open spec fn is_sorted<A>(s: Seq<A>, le: spec_fn(A, A) -> bool) -> bool {
    forall|i: int, j: int| 0 <= i < j < s.len() ==> le(#[trigger] s[i], #[trigger] s[j])
}

proof fn lemma_put_keeps_items<A>(s: Seq<A>, x: A, le: spec_fn(A, A) -> bool)
    ensures
        put_in_order(s, x, le).len() == s.len() + 1,
        put_in_order(s, x, le).to_multiset() == s.to_multiset().insert(x),
    decreases s.len(),
{
    broadcast use vstd::seq_lib::group_to_multiset_ensures;

    if s.len() == 0 || le(x, s[0]) {
        vstd::seq_lib::lemma_multiset_commutative(seq![x], s);
        assert(seq![x] =~= Seq::empty().push(x));
        assert((seq![x] + s).to_multiset() =~= s.to_multiset().insert(x));
    } else {
        lemma_put_keeps_items(s.drop_first(), x, le);
        let rest = put_in_order(s.drop_first(), x, le);
        vstd::seq_lib::lemma_multiset_commutative(seq![s[0]], rest);
        vstd::seq_lib::lemma_multiset_commutative(seq![s[0]], s.drop_first());
        assert(seq![s[0]] =~= Seq::empty().push(s[0]));
        assert(s =~= seq![s[0]] + s.drop_first());
        assert((seq![s[0]] + rest).to_multiset() =~= s.to_multiset().insert(x));
    }
}

/// Sorting keeps each item, as often as it occurs.
pub proof fn lemma_in_order_keeps_items<A>(s: Seq<A>, le: spec_fn(A, A) -> bool)
    ensures
        in_order(s, le).len() == s.len(),
        in_order(s, le).to_multiset() == s.to_multiset(),
    decreases s.len(),
{
    broadcast use vstd::seq_lib::group_to_multiset_ensures;

    if s.len() > 0 {
        lemma_in_order_keeps_items(s.drop_first(), le);
        lemma_put_keeps_items(in_order(s.drop_first(), le), s[0], le);
        vstd::seq_lib::lemma_multiset_commutative(seq![s[0]], s.drop_first());
        assert(seq![s[0]] =~= Seq::empty().push(s[0]));
        assert(s =~= seq![s[0]] + s.drop_first());
        assert(in_order(s, le).to_multiset() =~= s.to_multiset());
    }
}

proof fn lemma_put_sorted<A>(s: Seq<A>, x: A, le: spec_fn(A, A) -> bool)
    requires
        is_ordering(le),
        is_sorted(s, le),
    ensures
        is_sorted(put_in_order(s, x, le), le),
        forall|i: int|
            0 <= i < put_in_order(s, x, le).len() ==> (#[trigger] put_in_order(s, x, le)[i] == x || s.contains(
                put_in_order(s, x, le)[i],
            )),
    decreases s.len(),
{
    let t = put_in_order(s, x, le);
    if s.len() == 0 || le(x, s[0]) {
        assert forall|i: int, j: int| 0 <= i < j < t.len() implies le(#[trigger] t[i], #[trigger] t[j]) by {
            assert(t[j] == s[j - 1]);
            if i == 0 {
                if j > 1 {
                    assert(le(s[0], s[j - 1]));
                }
                assert(le(x, s[0]) && (j == 1 || le(s[0], s[j - 1])));
            } else {
                assert(t[i] == s[i - 1]);
            }
        }
        assert forall|i: int| 0 <= i < t.len() implies (#[trigger] t[i] == x || s.contains(t[i])) by {
            if i > 0 {
                assert(t[i] == s[i - 1]);
            }
        }
    } else {
        let rest = s.drop_first();
        let u = put_in_order(rest, x, le);
        assert forall|i: int, j: int| 0 <= i < j < rest.len() implies le(#[trigger] rest[i], #[trigger] rest[j]) by {
            assert(rest[i] == s[i + 1] && rest[j] == s[j + 1]);
        }
        lemma_put_sorted(rest, x, le);
        assert(le(s[0], x));
        assert forall|i: int, j: int| 0 <= i < j < t.len() implies le(#[trigger] t[i], #[trigger] t[j]) by {
            assert(t[j] == u[j - 1]);
            if i == 0 {
                if u[j - 1] != x {
                    let k = choose|k: int| 0 <= k < rest.len() && rest[k] == u[j - 1];
                    assert(s[k + 1] == rest[k]);
                }
            } else {
                assert(t[i] == u[i - 1]);
            }
        }
        assert forall|i: int| 0 <= i < t.len() implies (#[trigger] t[i] == x || s.contains(t[i])) by {
            if i > 0 {
                assert(t[i] == u[i - 1]);
                if u[i - 1] != x {
                    let k = choose|k: int| 0 <= k < rest.len() && rest[k] == u[i - 1];
                    assert(s[k + 1] == rest[k]);
                }
            }
        }
    }
}

/// Sorting puts each item before those that it may precede.
pub proof fn lemma_in_order_sorted<A>(s: Seq<A>, le: spec_fn(A, A) -> bool)
    requires
        is_ordering(le),
    ensures
        is_sorted(in_order(s, le), le),
    decreases s.len(),
{
    if s.len() > 0 {
        lemma_in_order_sorted(s.drop_first(), le);
        lemma_put_sorted(in_order(s.drop_first(), le), s[0], le);
    }
}

proof fn lemma_filter_cons<A>(x: A, s: Seq<A>, p: spec_fn(A) -> bool)
    ensures
        (seq![x] + s).filter(p) == if p(x) {
            seq![x] + s.filter(p)
        } else {
            s.filter(p)
        },
{
    s.lemma_filter_prepend(x, p);
}

proof fn lemma_put_keeps_ties<A>(s: Seq<A>, x: A, le: spec_fn(A, A) -> bool, p: spec_fn(A) -> bool)
    requires
        forall|a: A, b: A| p(a) && p(b) ==> #[trigger] le(a, b),
    ensures
        put_in_order(s, x, le).filter(p) == (seq![x] + s).filter(p),
    decreases s.len(),
{
    lemma_filter_cons(x, s, p);
    if s.len() > 0 && !le(x, s[0]) {
        let rest = s.drop_first();
        lemma_put_keeps_ties(rest, x, le, p);
        lemma_filter_cons(x, rest, p);
        lemma_filter_cons(s[0], put_in_order(rest, x, le), p);
        lemma_filter_cons(s[0], rest, p);
        assert(s =~= seq![s[0]] + rest);
    }
}

/// Items that may precede each other keep their order when a list is sorted.
pub proof fn lemma_in_order_stable<A>(s: Seq<A>, le: spec_fn(A, A) -> bool, tied: spec_fn(A) -> bool)
    requires
        forall|a: A, b: A| tied(a) && tied(b) ==> #[trigger] le(a, b),
    ensures
        in_order(s, le).filter(tied) == s.filter(tied),
    decreases s.len(),
{
    if s.len() > 0 {
        let rest = s.drop_first();
        lemma_in_order_stable(rest, le, tied);
        lemma_put_keeps_ties(in_order(rest, le), s[0], le, tied);
        lemma_filter_cons(s[0], in_order(rest, le), tied);
        lemma_filter_cons(s[0], rest, tied);
        assert(s =~= seq![s[0]] + rest);
    }
}

proof fn lemma_put_at<A>(s: Seq<A>, x: A, le: spec_fn(A, A) -> bool, k: int)
    requires
        0 <= k <= s.len(),
        forall|i: int| 0 <= i < k ==> !le(x, #[trigger] s[i]),
        k < s.len() ==> le(x, s[k]),
    ensures
        put_in_order(s, x, le) == s.insert(k, x),
    decreases s.len(),
{
    if k == 0 {
        assert(seq![x] + s =~= s.insert(0, x));
    } else {
        let rest = s.drop_first();
        assert forall|i: int| 0 <= i < k - 1 implies !le(x, #[trigger] rest[i]) by {
            assert(rest[i] == s[i + 1]);
        }
        lemma_put_at(rest, x, le, k - 1);
        assert(seq![s[0]] + rest.insert(k - 1, x) =~= s.insert(k, x));
    }
}

/// The list in order; items that may precede each other keep their places.
pub(crate) fn sort_in_order<T: DeepView, F: Fn(&T, &T) -> bool>(
    items: Vec<T>,
    le: F,
    Ghost(rel): Ghost<spec_fn(T::V, T::V) -> bool>,
) -> (sorted: Vec<T>)
    requires
        forall|a: &T, b: &T| le.requires((a, b)),
        forall|a: &T, b: &T, r: bool| le.ensures((a, b), r) ==> r == rel(a.deep_view(), b.deep_view()),
    ensures
        sorted.deep_view() == in_order(items.deep_view(), rel),
{
    let ghost all = items.deep_view();
    let mut rest = items;
    let mut sorted: Vec<T> = Vec::new();
    let ghost mut n: int = all.len() as int;
    assert(all.subrange(n, n) =~= seq![]);
    assert(sorted.deep_view() =~= seq![]);
    assert(all.take(n) =~= all);
    while rest.len() > 0
        invariant
            forall|a: &T, b: &T| le.requires((a, b)),
            forall|a: &T, b: &T, r: bool| le.ensures((a, b), r) ==> r == rel(a.deep_view(), b.deep_view()),
            n == rest.len(),
            n <= all.len(),
            rest.deep_view() == all.take(n),
            sorted.deep_view() == in_order(all.subrange(n, all.len() as int), rel),
        decreases rest.len(),
    {
        let ghost rest_before = rest.deep_view();
        let ghost before = sorted.deep_view();
        match rest.pop() {
            None => {},
            Some(x) => {
                assert(x.deep_view() == rest_before[n - 1]);
                assert(rest.deep_view() =~= all.take(n - 1));
                let mut k: usize = 0;
                while k < sorted.len() && !le(&x, &sorted[k])
                    invariant
                        forall|a: &T, b: &T| le.requires((a, b)),
                        forall|a: &T, b: &T, r: bool|
                            le.ensures((a, b), r) ==> r == rel(a.deep_view(), b.deep_view()),
                        k <= sorted.len(),
                        before == sorted.deep_view(),
                        forall|i: int| 0 <= i < k ==> !rel(x.deep_view(), #[trigger] before[i]),
                    decreases sorted.len() - k,
                {
                    assert(before[k as int] == sorted@[k as int].deep_view());
                    k += 1;
                }
                proof {
                    if k < sorted.len() {
                        assert(before[k as int] == sorted@[k as int].deep_view());
                    }
                    lemma_put_at(before, x.deep_view(), rel, k as int);
                    let tail = all.subrange(n - 1, all.len() as int);
                    assert(tail.drop_first() =~= all.subrange(n, all.len() as int));
                    assert(tail[0] == x.deep_view());
                }
                let ghost xv = x.deep_view();
                sorted.insert(k, x);
                assert(sorted.deep_view() =~= before.insert(k as int, xv));
                proof {
                    n = n - 1;
                }
            },
        }
    }
    assert(all.subrange(0, all.len() as int) =~= all);
    sorted
}

/// The texts of a list in order.
pub open spec fn sorted_texts(s: Seq<Seq<char>>) -> Seq<Seq<char>> {
    in_order(s, |a: Seq<char>, b: Seq<char>| text_le(a, b))
}

/// The order of texts puts any two of them one way or the other, and is transitive.
pub proof fn lemma_text_ordering()
    ensures
        is_ordering(|a: Seq<char>, b: Seq<char>| text_le(a, b)),
{
    assert forall|a: Seq<char>, b: Seq<char>| #[trigger] text_le(a, b) || text_le(b, a) by {
        lemma_text_le_total(a, b);
    }
    assert forall|a: Seq<char>, b: Seq<char>, c: Seq<char>| #[trigger]
        text_le(a, b) && #[trigger] text_le(b, c) implies text_le(a, c) by {
        lemma_text_le_transitive(a, b, c);
    }
}

/// The texts of a list in order.
pub fn sort_texts(items: Vec<String>) -> (sorted: Vec<String>)
    ensures
        sorted.deep_view() == sorted_texts(items.deep_view()),
{
    let le = |a: &String, b: &String| -> (r: bool)
        ensures
            r == text_le(a@, b@),
        { str_le(a.as_str(), b.as_str()) };
    sort_in_order(items, le, Ghost(|a: Seq<char>, b: Seq<char>| text_le(a, b)))
}

/// A list without the items that equal the one before them.
pub open spec fn without_repeats<A>(s: Seq<A>) -> Seq<A>
    decreases s.len(),
{
    if s.len() <= 1 {
        s
    } else if s.last() == s[s.len() - 2] {
        without_repeats(s.drop_last())
    } else {
        without_repeats(s.drop_last()).push(s.last())
    }
}

/// The list without the texts that equal the one before them.
pub fn drop_repeats(items: &Vec<String>) -> (kept: Vec<String>)
    ensures
        kept.deep_view() == without_repeats(items.deep_view()),
{
    let ghost all = items.deep_view();
    let mut kept: Vec<String> = Vec::new();
    let mut i: usize = 0;
    assert(kept.deep_view() =~= without_repeats(all.take(0)));
    while i < items.len()
        invariant
            i <= items.len(),
            all == items.deep_view(),
            kept.deep_view() == without_repeats(all.take(i as int)),
        decreases items.len() - i,
    {
        let ghost before = kept.deep_view();
        proof {
            assert(all.take(i + 1).drop_last() =~= all.take(i as int));
            assert(all.take(i + 1).last() == items@[i as int]@);
            if i > 0 {
                assert(all.take(i + 1)[i - 1] == items@[i - 1]@);
            } else {
                assert(all.take(1) =~= seq![items@[0]@]);
            }
        }
        if i == 0 || !str_eq(items[i].as_str(), items[i - 1].as_str()) {
            let item = items[i].deep_clone();
            kept.push(item);
            assert(kept.deep_view() =~= before.push(items@[i as int]@));
            if i == 0 {
                assert(before.push(items@[0]@) =~= seq![items@[0]@]);
            }
        }
        i += 1;
    }
    assert(all.take(items.len() as int) =~= all);
    kept
}

/// The texts of a list in order, each once.
pub open spec fn distinct_texts(s: Seq<Seq<char>>) -> Seq<Seq<char>> {
    without_repeats(sorted_texts(s))
}

/// The texts of a list in order, each once.
pub fn sort_distinct(items: Vec<String>) -> (sorted: Vec<String>)
    ensures
        sorted.deep_view() == distinct_texts(items.deep_view()),
{
    let sorted = sort_texts(items);
    drop_repeats(&sorted)
}

// ------------------------------------------------------------ lists of texts

/// Lists of texts are ordered by the first text in which they differ; a prefix comes first.
pub open spec fn texts_le(a: Seq<Seq<char>>, b: Seq<Seq<char>>) -> bool
    decreases a.len(),
{
    if a.len() == 0 {
        true
    } else if b.len() == 0 {
        false
    } else if a[0] != b[0] {
        text_le(a[0], b[0])
    } else {
        texts_le(a.drop_first(), b.drop_first())
    }
}

/// The order of lists of texts, all at once: total, antisymmetric and transitive.
pub proof fn lemma_texts_le(a: Seq<Seq<char>>, b: Seq<Seq<char>>, c: Seq<Seq<char>>)
    ensures
        texts_le(a, b) || texts_le(b, a),
        texts_le(a, b) && texts_le(b, a) ==> a == b,
        texts_le(a, b) && texts_le(b, c) ==> texts_le(a, c),
    decreases a.len(),
{
    if a.len() > 0 && b.len() > 0 {
        lemma_texts_le(a.drop_first(), b.drop_first(), c.drop_first());
        lemma_text_le(a[0], b[0], b[0]);
        if c.len() > 0 {
            lemma_text_le(a[0], b[0], c[0]);
            lemma_text_le(b[0], c[0], c[0]);
        }
        assert(a =~= seq![a[0]] + a.drop_first());
        assert(b =~= seq![b[0]] + b.drop_first());
    } else {
        if a.len() == 0 && b.len() == 0 {
            assert(a =~= b);
        }
    }
}

/// Whether a list of texts does not come after another one.
pub fn list_le(a: &Vec<String>, b: &Vec<String>) -> (le: bool)
    ensures
        le == texts_le(a.deep_view(), b.deep_view()),
{
    let ghost x = a.deep_view();
    let ghost y = b.deep_view();
    let mut i: usize = 0;
    assert(x.subrange(0, x.len() as int) =~= x);
    assert(y.subrange(0, y.len() as int) =~= y);
    while i < a.len()
        invariant
            i <= a.len(),
            i <= b.len(),
            x == a.deep_view(),
            y == b.deep_view(),
            texts_le(x, y) == texts_le(x.subrange(i as int, x.len() as int), y.subrange(i as int, y.len() as int)),
        decreases a.len() - i,
    {
        if i >= b.len() {
            return false;
        }
        proof {
            assert(x[i as int] == a@[i as int]@);
            assert(y[i as int] == b@[i as int]@);
            assert(x.subrange(i as int, x.len() as int).drop_first() =~= x.subrange(i + 1, x.len() as int));
            assert(y.subrange(i as int, y.len() as int).drop_first() =~= y.subrange(i + 1, y.len() as int));
        }
        if !str_eq(a[i].as_str(), b[i].as_str()) {
            return str_le(a[i].as_str(), b[i].as_str());
        }
        i += 1;
    }
    true
}

proof fn lemma_without_repeats<A>(s: Seq<A>, le: spec_fn(A, A) -> bool)
    requires
        is_sorted(s, le),
        forall|a: A, b: A| #[trigger] le(a, b) && le(b, a) ==> a == b,
    ensures
        s.len() > 0 ==> without_repeats(s).len() > 0 && without_repeats(s).last() == s.last(),
        forall|x: A| without_repeats(s).contains(x) <==> #[trigger] s.contains(x),
        is_sorted(without_repeats(s), le),
        without_repeats(s).no_duplicates(),
    decreases s.len(),
{
    if s.len() > 1 {
        let init = s.drop_last();
        assert(is_sorted(init, le)) by {
            assert forall|i: int, j: int| 0 <= i < j < init.len() implies le(#[trigger] init[i], #[trigger] init[j]) by {
                assert(init[i] == s[i] && init[j] == s[j]);
            }
        }
        lemma_without_repeats(init, le);
        let kept = without_repeats(init);
        let whole = without_repeats(s);
        let last = s.last();
        assert(init.last() == s[s.len() - 2]);
        assert forall|x: A| whole.contains(x) <==> #[trigger] s.contains(x) by {
            if s.contains(x) {
                let i = choose|i: int| 0 <= i < s.len() && s[i] == x;
                if i < s.len() - 1 {
                    assert(init[i] == x);
                    assert(init.contains(x));
                    let k = choose|k: int| 0 <= k < kept.len() && kept[k] == x;
                    assert(whole[k] == x);
                } else {
                    assert(whole.last() == x);
                }
            }
            if whole.contains(x) {
                let k = choose|k: int| 0 <= k < whole.len() && whole[k] == x;
                if k < kept.len() {
                    assert(kept[k] == x);
                    assert(kept.contains(x));
                    assert(init.contains(x));
                    let i = choose|i: int| 0 <= i < init.len() && init[i] == x;
                    assert(s[i] == x);
                } else {
                    assert(s[s.len() - 1] == x);
                }
            }
        }
        assert forall|k: int| 0 <= k < kept.len() implies le(#[trigger] kept[k], last) by {
            assert(kept.contains(kept[k]));
            assert(init.contains(kept[k]));
            let i = choose|i: int| 0 <= i < init.len() && init[i] == kept[k];
            assert(s[i] == kept[k]);
            assert(le(s[i], s[s.len() - 1]));
        }
        if last != init.last() {
            assert(whole == kept.push(last));
            assert(!kept.contains(last)) by {
                if kept.contains(last) {
                    assert(init.contains(last));
                    let i = choose|i: int| 0 <= i < init.len() && init[i] == last;
                    assert(s[i] == last);
                    if i < s.len() - 2 {
                        assert(le(s[i], s[s.len() - 2]));
                    }
                    assert(le(s[s.len() - 2], s[s.len() - 1]));
                }
            }
            assert forall|i: int, j: int| 0 <= i < whole.len() && 0 <= j < whole.len() && i != j implies whole[i]
                != whole[j] by {
                if i == kept.len() {
                    assert(kept.contains(kept[j]));
                } else if j == kept.len() {
                    assert(kept.contains(kept[i]));
                } else {
                    assert(kept[i] != kept[j]);
                }
            }
            assert forall|i: int, j: int| 0 <= i < j < whole.len() implies le(#[trigger] whole[i], #[trigger] whole[j]) by {
                if j < kept.len() {
                    assert(le(kept[i], kept[j]));
                }
            }
        }
    }
}

/// The texts of a list in order, each once: just the texts of the list, and each of them before
/// those that come after it.
pub proof fn lemma_distinct_texts(s: Seq<Seq<char>>)
    ensures
        forall|x: Seq<char>| distinct_texts(s).contains(x) <==> #[trigger] s.contains(x),
        is_sorted(distinct_texts(s), |a: Seq<char>, b: Seq<char>| text_le(a, b)),
        distinct_texts(s).no_duplicates(),
{
    let le = |a: Seq<char>, b: Seq<char>| text_le(a, b);
    let sorted = sorted_texts(s);
    lemma_text_ordering();
    lemma_in_order_sorted(s, le);
    lemma_in_order_keeps_items(s, le);
    assert forall|a: Seq<char>, b: Seq<char>| #[trigger] le(a, b) && le(b, a) implies a == b by {
        lemma_text_le(a, b, a);
    }
    lemma_without_repeats(sorted, le);
    broadcast use vstd::seq_lib::group_to_multiset_ensures;

    assert forall|x: Seq<char>| distinct_texts(s).contains(x) <==> #[trigger] s.contains(x) by {
        assert(sorted.contains(x) <==> sorted.to_multiset().count(x) > 0);
        assert(s.contains(x) <==> s.to_multiset().count(x) > 0);
    }
}

// ------------------------------------------------------------- what it is for

/// Sorting texts neither loses nor adds one.
pub proof fn lemma_sorted_has(s: Seq<Seq<char>>, x: Seq<char>)
    ensures
        sorted_texts(s).contains(x) <==> s.contains(x),
        sorted_texts(s).len() == s.len(),
{
    broadcast use vstd::seq_lib::group_to_multiset_ensures;

    lemma_in_order_keeps_items(s, |a: Seq<char>, b: Seq<char>| text_le(a, b));
    assert(sorted_texts(s).to_multiset().count(x) == s.to_multiset().count(x));
}

/// Of two texts that differ in their first letter the one with the lower letter comes first, and
/// a text comes before any that it begins.
pub proof fn lemma_texts_by_letter(a: Seq<char>, b: Seq<char>, rest: Seq<char>)
    ensures
        a.len() > 0 && b.len() > 0 && a[0] < b[0] ==> text_le(a, b) && !text_le(b, a),
        text_le(a, a + rest),
        rest.len() > 0 ==> !text_le(a + rest, a),
    decreases a.len(),
{
    if a.len() > 0 {
        lemma_texts_by_letter(a.drop_first(), b, rest);
        assert((a + rest).drop_first() =~= a.drop_first() + rest);
    }
}

/// Putting items in order neither loses nor adds one.
pub proof fn lemma_in_order_has<A>(s: Seq<A>, le: spec_fn(A, A) -> bool, x: A)
    ensures
        in_order(s, le).contains(x) <==> s.contains(x),
        in_order(s, le).len() == s.len(),
{
    broadcast use vstd::seq_lib::group_to_multiset_ensures;

    lemma_in_order_keeps_items(s, le);
    assert(in_order(s, le).to_multiset().count(x) == s.to_multiset().count(x));
}

} // verus!
