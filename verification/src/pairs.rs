//! Lists of keys with values, as Kubernetes labels and environments are.
use crate::model::{KV, KVView};
use crate::order::str_eq;
use crate::views::opt_owned;
use vstd::prelude::*;

verus! {

/// The value of the first pair with a key.
pub open spec fn value_of(pairs: Seq<KVView>, key: Seq<char>) -> Option<Seq<char>>
    decreases pairs.len(),
{
    if pairs.len() == 0 {
        None
    } else if pairs[0].key == key {
        Some(pairs[0].value)
    } else {
        value_of(pairs.drop_first(), key)
    }
}

/// The value of the first pair with a key.
pub fn pair_value<'a>(pairs: &'a Vec<KV>, key: &str) -> (r: Option<&'a str>)
    ensures
        r.deep_view() == value_of(pairs.deep_view(), key@),
{
    let ghost all = pairs.deep_view();
    let mut i: usize = 0;
    assert(all.subrange(0, all.len() as int) =~= all);
    while i < pairs.len()
        invariant
            i <= pairs.len(),
            all == pairs.deep_view(),
            value_of(all, key@) == value_of(all.subrange(i as int, all.len() as int), key@),
        decreases pairs.len() - i,
    {
        assert(all.subrange(i as int, all.len() as int).drop_first() =~= all.subrange(i + 1, all.len() as int));
        if str_eq(pairs[i].key.as_str(), key) {
            return Some(pairs[i].value.as_str());
        }
        i += 1;
    }
    None
}

/// A key that has a value occurs among the pairs, and one that has none does not.
pub proof fn lemma_value_of(pairs: Seq<KVView>, key: Seq<char>)
    ensures
        value_of(pairs, key) is Some <==> exists|i: int| 0 <= i < pairs.len() && (#[trigger] pairs[i]).key == key,
    decreases pairs.len(),
{
    if pairs.len() > 0 && pairs[0].key != key {
        let rest = pairs.drop_first();
        lemma_value_of(rest, key);
        if exists|i: int| 0 <= i < pairs.len() && (#[trigger] pairs[i]).key == key {
            let i = choose|i: int| 0 <= i < pairs.len() && (#[trigger] pairs[i]).key == key;
            assert(rest[i - 1] == pairs[i]);
        }
        if exists|i: int| 0 <= i < rest.len() && (#[trigger] rest[i]).key == key {
            let i = choose|i: int| 0 <= i < rest.len() && (#[trigger] rest[i]).key == key;
            assert(pairs[i + 1] == rest[i]);
        }
    }
}

/// A pair at the end counts only where no pair before it has its key.
proof fn lemma_value_of_push(pairs: Seq<KVView>, last: KVView, key: Seq<char>)
    ensures
        value_of(pairs + seq![last], key) == (match value_of(pairs, key) {
            Some(value) => Some(value),
            None => if last.key == key {
                Some(last.value)
            } else {
                None
            },
        }),
    decreases pairs.len(),
{
    let all = pairs + seq![last];
    if pairs.len() == 0 {
        assert(all.drop_first() =~= seq![]);
        assert(value_of(all.drop_first(), key) is None);
    } else {
        assert(all.drop_first() =~= pairs.drop_first() + seq![last]);
        lemma_value_of_push(pairs.drop_first(), last, key);
    }
}

/// Where each key gives at most one pair, and that with itself as the key, a key has the value of
/// the pair that it gives.
pub proof fn lemma_value_of_filter_map(keys: Seq<Seq<char>>, f: spec_fn(Seq<char>) -> Option<KVView>, key: Seq<char>)
    requires
        forall|k: Seq<char>| (#[trigger] f(k)) matches Some(kv) ==> kv.key == k,
    ensures
        value_of(keys.filter_map(f), key) == (match f(key) {
            Some(kv) => if keys.contains(key) {
                Some(kv.value)
            } else {
                None
            },
            None => None,
        }),
    decreases keys.len(),
{
    if keys.len() > 0 {
        let rest = keys.drop_last();
        let last = keys.last();
        lemma_value_of_filter_map(rest, f, key);
        assert(keys.contains(key) <==> rest.contains(key) || last == key) by {
            assert(keys =~= rest.push(last));
            if rest.contains(key) {
                let i = choose|i: int| 0 <= i < rest.len() && rest[i] == key;
                assert(keys[i] == key);
            }
            if keys.contains(key) && last != key {
                let i = choose|i: int| 0 <= i < keys.len() && keys[i] == key;
                assert(rest[i] == key);
            }
            assert(keys[keys.len() - 1] == last);
        }
        if let Some(kv) = f(last) {
            lemma_value_of_push(rest.filter_map(f), kv, key);
        }
    }
}

/// What two functions give for a list is the same where they agree on its items.
pub proof fn lemma_same_filter_map(
    keys: Seq<Seq<char>>,
    f: spec_fn(Seq<char>) -> Option<KVView>,
    g: spec_fn(Seq<char>) -> Option<KVView>,
)
    requires
        forall|i: int| 0 <= i < keys.len() ==> f(#[trigger] keys[i]) == g(keys[i]),
    ensures
        keys.filter_map(f) == keys.filter_map(g),
    decreases keys.len(),
{
    if keys.len() > 0 {
        let rest = keys.drop_last();
        assert forall|i: int| 0 <= i < rest.len() implies f(#[trigger] rest[i]) == g(rest[i]) by {
            assert(rest[i] == keys[i]);
        }
        lemma_same_filter_map(rest, f, g);
        assert(f(keys[keys.len() - 1]) == g(keys[keys.len() - 1]));
    }
}

/// The value of the first pair with a key in an optional list.
pub open spec fn opt_value_of(pairs: Option<Seq<KVView>>, key: Seq<char>) -> Option<Seq<char>> {
    match pairs {
        Some(pairs) => value_of(pairs, key),
        None => None,
    }
}

/// The value of the first pair with a key in an optional list, copied.
pub(crate) fn opt_pair_value(pairs: &Option<Vec<KV>>, key: &str) -> (r: Option<String>)
    ensures
        r.deep_view() == opt_value_of(pairs.deep_view(), key@),
{
    match pairs {
        Some(pairs) => opt_owned(pair_value(pairs, key)),
        None => None,
    }
}

// ------------------------------------------------------------- what it is for

/// A key has a value where a pair gives it, and no pair before that one has the key.
pub open spec fn gives_value(pairs: Seq<KVView>, key: Seq<char>, value: Seq<char>) -> bool {
    exists|i: int|
        0 <= i < pairs.len() && (#[trigger] pairs[i]).key == key && pairs[i].value == value && forall|j: int|
            0 <= j < i ==> (#[trigger] pairs[j]).key != key
}

/// A key has the value of the first pair with it, and no value where there is no such pair.
pub proof fn lemma_value_is_the_first(pairs: Seq<KVView>, key: Seq<char>, value: Seq<char>)
    ensures
        value_of(pairs, key) == Some(value) <==> gives_value(pairs, key, value),
        value_of(pairs, key) is None <==> forall|i: int| 0 <= i < pairs.len() ==> (#[trigger] pairs[i]).key != key,
    decreases pairs.len(),
{
    if pairs.len() > 0 {
        let rest = pairs.drop_first();
        lemma_value_is_the_first(rest, key, value);
        if pairs[0].key != key {
            if gives_value(pairs, key, value) {
                let i = choose|i: int|
                    0 <= i < pairs.len() && (#[trigger] pairs[i]).key == key && pairs[i].value == value && forall|j: int|
                        0 <= j < i ==> (#[trigger] pairs[j]).key != key;
                assert(rest[i - 1] == pairs[i]);
                assert forall|j: int| 0 <= j < i - 1 implies (#[trigger] rest[j]).key != key by {
                    assert(rest[j] == pairs[j + 1]);
                }
                assert(gives_value(rest, key, value));
            }
            if gives_value(rest, key, value) {
                let i = choose|i: int|
                    0 <= i < rest.len() && (#[trigger] rest[i]).key == key && rest[i].value == value && forall|j: int|
                        0 <= j < i ==> (#[trigger] rest[j]).key != key;
                assert(rest[i] == pairs[i + 1]);
                assert forall|j: int| 0 <= j < i + 1 implies (#[trigger] pairs[j]).key != key by {
                    if j > 0 {
                        assert(rest[j - 1] == pairs[j]);
                    }
                }
                assert(gives_value(pairs, key, value));
            }
            if forall|i: int| 0 <= i < pairs.len() ==> (#[trigger] pairs[i]).key != key {
                assert forall|i: int| 0 <= i < rest.len() implies (#[trigger] rest[i]).key != key by {
                    assert(rest[i] == pairs[i + 1]);
                }
            }
            if forall|i: int| 0 <= i < rest.len() ==> (#[trigger] rest[i]).key != key {
                assert forall|i: int| 0 <= i < pairs.len() implies (#[trigger] pairs[i]).key != key by {
                    if i > 0 {
                        assert(rest[i - 1] == pairs[i]);
                    }
                }
            }
        } else {
            if pairs[0].value == value {
                assert(gives_value(pairs, key, value));
            }
        }
    }
}

} // verus!
