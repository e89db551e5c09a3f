//! Copies that keep a value's mathematical view, and the list operations built on them.
use crate::text::owned;
use vstd::prelude::*;

verus! {

/// A value that can be copied without changing what it stands for.
pub trait DeepClone: DeepView + Sized {
    /// A copy with the same deep view.
    fn deep_clone(&self) -> (copy: Self)
        ensures
            copy.deep_view() == self.deep_view(),
    ;
}

impl DeepClone for String {
    fn deep_clone(&self) -> (copy: Self) {
        self.clone()
    }
}

impl DeepClone for &'static str {
    fn deep_clone(&self) -> (copy: Self) {
        *self
    }
}

impl DeepClone for bool {
    fn deep_clone(&self) -> (copy: Self) {
        *self
    }
}

impl DeepClone for u16 {
    fn deep_clone(&self) -> (copy: Self) {
        *self
    }
}

impl DeepClone for u32 {
    fn deep_clone(&self) -> (copy: Self) {
        *self
    }
}

impl DeepClone for u64 {
    fn deep_clone(&self) -> (copy: Self) {
        *self
    }
}

impl DeepClone for u128 {
    fn deep_clone(&self) -> (copy: Self) {
        *self
    }
}

impl DeepClone for usize {
    fn deep_clone(&self) -> (copy: Self) {
        *self
    }
}

impl DeepClone for i32 {
    fn deep_clone(&self) -> (copy: Self) {
        *self
    }
}

impl DeepClone for i64 {
    fn deep_clone(&self) -> (copy: Self) {
        *self
    }
}

impl DeepClone for i128 {
    fn deep_clone(&self) -> (copy: Self) {
        *self
    }
}

impl<T: DeepClone> DeepClone for Option<T> {
    fn deep_clone(&self) -> (copy: Self) {
        match self {
            Some(inner) => Some(inner.deep_clone()),
            None => None,
        }
    }
}

impl<T: DeepClone> DeepClone for Vec<T> {
    fn deep_clone(&self) -> (copy: Self) {
        let mut copy: Vec<T> = Vec::new();
        let mut i: usize = 0;
        while i < self.len()
            invariant
                i <= self.len(),
                copy.len() == i,
                forall|j: int|
                    0 <= j < i ==> (#[trigger] copy@[j]).deep_view() == self@[j].deep_view(),
            decreases self.len() - i,
        {
            copy.push(self[i].deep_clone());
            i += 1;
        }
        assert(copy.deep_view() =~= self.deep_view());
        copy
    }
}

/// What a missing text stands for where the text is shown: the fallback.
pub open spec fn text_or(value: Option<Seq<char>>, fallback: Seq<char>) -> Seq<char> {
    match value {
        Some(text) => text,
        None => fallback,
    }
}

/// The text of an optional field, or the fallback.
pub fn opt_str<'a>(value: &'a Option<String>, fallback: &'a str) -> (text: &'a str)
    ensures
        text@ == text_or(value.deep_view(), fallback@),
{
    match value {
        Some(text) => text.as_str(),
        None => fallback,
    }
}

/// An optional text as a text of its own.
pub fn opt_owned(text: Option<&str>) -> (r: Option<String>)
    ensures
        r.deep_view() == text.deep_view(),
{
    match text {
        Some(s) => Some(owned(s)),
        None => None,
    }
}

/// The items that satisfy a predicate, copied in order.
pub(crate) fn filter_cloned<T: DeepClone, F: Fn(&T) -> bool>(
    items: &Vec<T>,
    keep: F,
    Ghost(pred): Ghost<spec_fn(T::V) -> bool>,
) -> (kept: Vec<T>)
    requires
        forall|x: &T| keep.requires((x,)),
        forall|x: &T, b: bool| keep.ensures((x,), b) ==> b == pred(x.deep_view()),
    ensures
        kept.deep_view() == items.deep_view().filter(pred),
{
    let mut kept: Vec<T> = Vec::new();
    let mut i: usize = 0;
    assert(kept.deep_view() =~= items.deep_view().take(0).filter(pred)) by {
        reveal(Seq::filter);
    }
    while i < items.len()
        invariant
            i <= items.len(),
            kept.deep_view() == items.deep_view().take(i as int).filter(pred),
            forall|x: &T| keep.requires((x,)),
            forall|x: &T, b: bool| keep.ensures((x,), b) ==> b == pred(x.deep_view()),
        decreases items.len() - i,
    {
        let ghost before = kept.deep_view();
        proof {
            let all = items.deep_view();
            assert(all.take(i + 1) =~= all.take(i as int).push(all[i as int]));
            all.take(i as int).lemma_filter_push(all[i as int], pred);
        }
        if keep(&items[i]) {
            let item = items[i].deep_clone();
            kept.push(item);
            assert(kept.deep_view() =~= before.push(item.deep_view()));
        }
        i += 1;
    }
    assert(items.deep_view().take(items.len() as int) =~= items.deep_view());
    kept
}

/// The concatenation of two lists, copied.
pub(crate) fn append_cloned<T: DeepClone>(first: &mut Vec<T>, second: &Vec<T>)
    ensures
        final(first).deep_view() == old(first).deep_view() + second.deep_view(),
{
    let ghost start = first.deep_view();
    let mut i: usize = 0;
    assert(first.deep_view() =~= start + second.deep_view().take(0));
    while i < second.len()
        invariant
            i <= second.len(),
            first.deep_view() == start + second.deep_view().take(i as int),
        decreases second.len() - i,
    {
        let ghost before = first.deep_view();
        let item = second[i].deep_clone();
        first.push(item);
        i += 1;
        assert(first.deep_view() =~= before.push(item.deep_view()));
        assert(start + second.deep_view().take(i as int) =~= before.push(item.deep_view()));
    }
    assert(second.deep_view().take(second.len() as int) =~= second.deep_view());
}


/// The images of the items, in order.
pub(crate) fn map_items<T: DeepView, U: DeepView, F: Fn(&T) -> U>(
    items: &Vec<T>,
    f: F,
    Ghost(image): Ghost<spec_fn(T::V) -> U::V>,
) -> (mapped: Vec<U>)
    requires
        forall|x: &T| f.requires((x,)),
        forall|x: &T, y: U| f.ensures((x,), y) ==> y.deep_view() == image(x.deep_view()),
    ensures
        mapped.deep_view() == items.deep_view().map_values(image),
{
    let mut mapped: Vec<U> = Vec::new();
    let mut i: usize = 0;
    while i < items.len()
        invariant
            i <= items.len(),
            mapped.len() == i,
            forall|j: int| 0 <= j < i ==> (#[trigger] mapped@[j]).deep_view() == image(items@[j].deep_view()),
            forall|x: &T| f.requires((x,)),
            forall|x: &T, y: U| f.ensures((x,), y) ==> y.deep_view() == image(x.deep_view()),
        decreases items.len() - i,
    {
        mapped.push(f(&items[i]));
        i += 1;
    }
    assert(mapped.deep_view() =~= items.deep_view().map_values(image));
    mapped
}

/// The images of the items that have one, in order.
pub(crate) fn filter_map_items<T: DeepView, U: DeepView, F: Fn(&T) -> Option<U>>(
    items: &Vec<T>,
    f: F,
    Ghost(image): Ghost<spec_fn(T::V) -> Option<U::V>>,
) -> (mapped: Vec<U>)
    requires
        forall|x: &T| f.requires((x,)),
        forall|x: &T, y: Option<U>| f.ensures((x,), y) ==> y.deep_view() == image(x.deep_view()),
    ensures
        mapped.deep_view() == items.deep_view().filter_map(image),
{
    let ghost all = items.deep_view();
    let mut mapped: Vec<U> = Vec::new();
    let mut i: usize = 0;
    assert(mapped.deep_view() =~= all.take(0).filter_map(image));
    while i < items.len()
        invariant
            i <= items.len(),
            all == items.deep_view(),
            mapped.deep_view() == all.take(i as int).filter_map(image),
            forall|x: &T| f.requires((x,)),
            forall|x: &T, y: Option<U>| f.ensures((x,), y) ==> y.deep_view() == image(x.deep_view()),
        decreases items.len() - i,
    {
        let ghost before = mapped.deep_view();
        proof {
            all.lemma_filter_map_take_succ(image, i as int);
        }
        let y = f(&items[i]);
        assert(all[i as int] == items@[i as int].deep_view());
        match y {
            Some(y) => {
                let ghost yv = y.deep_view();
                mapped.push(y);
                assert(mapped.deep_view() =~= before + seq![yv]);
            },
            None => {
                assert(before + Seq::<U::V>::empty() =~= before);
            },
        }
        i += 1;
    }
    assert(all.take(items.len() as int) =~= all);
    mapped
}

/// Whether some item satisfies a predicate.
pub(crate) fn any_item<T: DeepView, F: Fn(&T) -> bool>(
    items: &Vec<T>,
    test: F,
    Ghost(pred): Ghost<spec_fn(T::V) -> bool>,
) -> (found: bool)
    requires
        forall|x: &T| test.requires((x,)),
        forall|x: &T, b: bool| test.ensures((x,), b) ==> b == pred(x.deep_view()),
    ensures
        found == items.deep_view().any(pred),
{
    let ghost all = items.deep_view();
    let mut i: usize = 0;
    while i < items.len()
        invariant
            i <= items.len(),
            all == items.deep_view(),
            forall|j: int| 0 <= j < i ==> !pred(#[trigger] all[j]),
            forall|x: &T| test.requires((x,)),
            forall|x: &T, b: bool| test.ensures((x,), b) ==> b == pred(x.deep_view()),
        decreases items.len() - i,
    {
        assert(all[i as int] == items@[i as int].deep_view());
        if test(&items[i]) {
            assert(pred(all[i as int]));
            return true;
        }
        i += 1;
    }
    false
}

/// Whether all items satisfy a predicate.
pub(crate) fn all_items<T: DeepView, F: Fn(&T) -> bool>(
    items: &Vec<T>,
    test: F,
    Ghost(pred): Ghost<spec_fn(T::V) -> bool>,
) -> (all_hold: bool)
    requires
        forall|x: &T| test.requires((x,)),
        forall|x: &T, b: bool| test.ensures((x,), b) ==> b == pred(x.deep_view()),
    ensures
        all_hold == items.deep_view().all(pred),
{
    let ghost all = items.deep_view();
    let mut i: usize = 0;
    while i < items.len()
        invariant
            i <= items.len(),
            all == items.deep_view(),
            forall|j: int| 0 <= j < i ==> pred(#[trigger] all[j]),
            forall|x: &T| test.requires((x,)),
            forall|x: &T, b: bool| test.ensures((x,), b) ==> b == pred(x.deep_view()),
        decreases items.len() - i,
    {
        assert(all[i as int] == items@[i as int].deep_view());
        if !test(&items[i]) {
            assert(!pred(all[i as int]));
            return false;
        }
        i += 1;
    }
    true
}

/// The first item that satisfies a predicate.
pub open spec fn first_that<A>(s: Seq<A>, pred: spec_fn(A) -> bool) -> Option<A>
    decreases s.len(),
{
    if s.len() == 0 {
        None
    } else if pred(s[0]) {
        Some(s[0])
    } else {
        first_that(s.drop_first(), pred)
    }
}

/// The place of the first item that satisfies a predicate.
pub(crate) fn find_item<T: DeepView, F: Fn(&T) -> bool>(
    items: &Vec<T>,
    test: F,
    Ghost(pred): Ghost<spec_fn(T::V) -> bool>,
) -> (found: Option<usize>)
    requires
        forall|x: &T| test.requires((x,)),
        forall|x: &T, b: bool| test.ensures((x,), b) ==> b == pred(x.deep_view()),
    ensures
        match found {
            Some(i) => i < items.len() && first_that(items.deep_view(), pred) == Some(items@[i as int].deep_view()),
            None => first_that(items.deep_view(), pred) is None,
        },
{
    let ghost all = items.deep_view();
    let mut i: usize = 0;
    assert(all.subrange(0, all.len() as int) =~= all);
    while i < items.len()
        invariant
            i <= items.len(),
            all == items.deep_view(),
            first_that(all, pred) == first_that(all.subrange(i as int, all.len() as int), pred),
            forall|x: &T| test.requires((x,)),
            forall|x: &T, b: bool| test.ensures((x,), b) ==> b == pred(x.deep_view()),
        decreases items.len() - i,
    {
        assert(all.subrange(i as int, all.len() as int).drop_first() =~= all.subrange(i + 1, all.len() as int));
        assert(all[i as int] == items@[i as int].deep_view());
        if test(&items[i]) {
            return Some(i);
        }
        i += 1;
    }
    None
}

/// The items of an optional list; none where there is no list.
pub open spec fn list_or_none<A>(list: Option<Seq<A>>) -> Seq<A> {
    match list {
        Some(items) => items,
        None => seq![],
    }
}

/// The items of an optional list, copied; none where there is no list.
pub(crate) fn opt_list<T: DeepClone>(list: &Option<Vec<T>>) -> (r: Vec<T>)
    ensures
        r.deep_view() == list_or_none(list.deep_view()),
{
    match list {
        Some(items) => items.deep_clone(),
        None => {
            let none: Vec<T> = Vec::new();
            assert(none.deep_view() =~= seq![]);
            none
        },
    }
}

/// The first items of a list, as many as there may be.
pub open spec fn at_most<A>(s: Seq<A>, limit: nat) -> Seq<A> {
    if s.len() <= limit {
        s
    } else {
        s.take(limit as int)
    }
}

/// The first items of a list, as many as there may be.
pub(crate) fn cut_list<T: DeepView>(items: Vec<T>, limit: usize) -> (r: Vec<T>)
    ensures
        r.deep_view() == at_most(items.deep_view(), limit as nat),
{
    let mut r = items;
    r.truncate(limit);
    assert(r.deep_view() =~= at_most(items.deep_view(), limit as nat));
    r
}

/// The image of an item is among the images.
pub proof fn lemma_filter_map_has<A, B>(s: Seq<A>, image: spec_fn(A) -> Option<B>, i: int)
    requires
        0 <= i < s.len(),
        image(s[i]) is Some,
    ensures
        s.filter_map(image).contains(image(s[i])->0),
    decreases s.len(),
{
    let n = s.len() as int;
    let init = s.drop_last();
    assert(s.take(n) =~= s);
    assert(s.take(n - 1) =~= init);
    s.lemma_filter_map_take_succ(image, n - 1);
    let whole = s.filter_map(image);
    if i == n - 1 {
        assert(whole[whole.len() - 1] == image(s[i])->0);
    } else {
        lemma_filter_map_has(init, image, i);
        let k = choose|k: int| 0 <= k < init.filter_map(image).len() && init.filter_map(image)[k] == image(s[i])->0;
        assert(whole[k] == image(s[i])->0);
    }
}

// ------------------------------------------------------------- what it is for

/// The first item that satisfies a predicate is there exactly where some item does; it is one, and
/// none before it is.
pub proof fn lemma_first_that_is_there<A>(s: Seq<A>, pred: spec_fn(A) -> bool)
    ensures
        first_that(s, pred) is Some <==> exists|i: int| 0 <= i < s.len() && pred(#[trigger] s[i]),
        first_that(s, pred) matches Some(a) ==> exists|i: int|
            0 <= i < s.len() && (#[trigger] s[i]) == a && pred(s[i]) && forall|j: int|
                0 <= j < i ==> !pred(#[trigger] s[j]),
    decreases s.len(),
{
    if s.len() > 0 {
        let rest = s.drop_first();
        lemma_first_that_is_there(rest, pred);
        if pred(s[0]) {
            assert(first_that(s, pred) == Some(s[0]));
        } else {
            if exists|i: int| 0 <= i < s.len() && pred(#[trigger] s[i]) {
                let i = choose|i: int| 0 <= i < s.len() && pred(#[trigger] s[i]);
                assert(rest[i - 1] == s[i]);
            }
            if let Some(a) = first_that(rest, pred) {
                let i = choose|i: int|
                    0 <= i < rest.len() && (#[trigger] rest[i]) == a && pred(rest[i]) && forall|j: int|
                        0 <= j < i ==> !pred(#[trigger] rest[j]);
                assert(s[i + 1] == rest[i]);
                assert forall|j: int| 0 <= j < i + 1 implies !pred(#[trigger] s[j]) by {
                    if j > 0 {
                        assert(rest[j - 1] == s[j]);
                    }
                }
            }
        }
    }
}

/// A filter keeps the items that satisfy the predicate, and no others.
pub proof fn lemma_filter_has<A>(s: Seq<A>, pred: spec_fn(A) -> bool, x: A)
    ensures
        s.filter(pred).contains(x) <==> s.contains(x) && pred(x),
{
    s.filter_lemma(pred);
    if s.filter(pred).contains(x) {
        let i = choose|i: int| 0 <= i < s.filter(pred).len() && s.filter(pred)[i] == x;
        assert(pred(s.filter(pred)[i]));
        s.lemma_filter_contains_rev(pred, x);
    }
    if s.contains(x) && pred(x) {
        let i = choose|i: int| 0 <= i < s.len() && s[i] == x;
        assert(pred(s[i]));
    }
}

} // verus!
