//! Reading and writing JSON documents with `serde_json` and `serde_yaml`.
//!
//! A document is a tree. What it holds is told by JSON pointers: the text of a pointer with what
//! stands there. A key with a slash or a tilde is in the contents under its escaped token, with `~1`
//! for the slash and `~0` for the tilde; a pointer with a tilde is never looked up.
use crate::text;
use crate::text::find_char;
use vstd::prelude::*;

verus! {

/// What stands at a place of a document.
pub enum JsonNode {
    Null,
    Bool(bool),
    /// A whole number that is not negative.
    Unsigned(u64),
    /// Another number, as it is written.
    Number(Seq<char>),
    Text(Seq<char>),
    /// An array with its length.
    Array(nat),
    Object,
}

/// A value of `serde_json`.
#[verifier::external_type_specification]
#[verifier::external_body]
pub struct ExValue(serde_json::Value);

/// What a document holds: each pointer that leads somewhere, with what stands there.
pub uninterp spec fn json_contents(value: serde_json::Value) -> Map<Seq<char>, JsonNode>;

/// What the document that a text is holds; nothing where the text is no document.
pub uninterp spec fn json_document(text: Seq<char>) -> Option<Map<Seq<char>, JsonNode>>;

/// What `serde_json::to_string` writes for a document.
pub uninterp spec fn document_text(contents: Map<Seq<char>, JsonNode>) -> Option<Seq<char>>;

/// What `serde_yaml::to_string` writes for a document, or the error's message.
pub uninterp spec fn yaml_document(contents: Map<Seq<char>, JsonNode>) -> Result<Seq<char>, Seq<char>>;

/// A text is a pointer: it is empty, or begins with a slash.
pub open spec fn is_pointer(p: Seq<char>) -> bool {
    p.len() == 0 || p[0] == '/'
}

/// The part of a document below a pointer.
pub open spec fn below(contents: Map<Seq<char>, JsonNode>, pointer: Seq<char>) -> Map<Seq<char>, JsonNode> {
    Map::new(
        |p: Seq<char>| is_pointer(p) && contents.contains_key(pointer + p),
        |p: Seq<char>| contents[pointer + p],
    )
}

/// `serde_json::from_str::<Value>`: the document that a text is, or nothing where it is none.
#[verifier::external_body]
pub(crate) fn read_json(text: &str) -> (r: Option<serde_json::Value>)
    ensures
        match r {
            Some(value) => json_document(text@) == Some(json_contents(value)),
            None => json_document(text@) is None,
        },
{
    serde_json::from_str::<serde_json::Value>(text).ok()
}

/// `serde_json::Value::pointer`: the part of a document at a pointer, where it leads somewhere.
#[verifier::external_body]
pub(crate) fn value_at<'a>(value: &'a serde_json::Value, pointer: &str) -> (r: Option<&'a serde_json::Value>)
    requires
        !pointer@.contains('~'),
    ensures
        match r {
            Some(part) => json_contents(*value).contains_key(pointer@) && json_contents(*part) == below(
                json_contents(*value),
                pointer@,
            ),
            None => !json_contents(*value).contains_key(pointer@),
        },
{
    value.pointer(pointer)
}

/// `serde_json::Value::as_str`: the text that a document is, where it is one.
#[verifier::external_body]
pub(crate) fn value_text<'a>(value: &'a serde_json::Value) -> (r: Option<&'a str>)
    ensures
        r.deep_view() == text_in(json_contents(*value), seq![]),
{
    value.as_str()
}

/// `serde_json::Value::as_u64`: the number that a document is, where it is a whole one that is
/// not negative and fits in 64 bits.
#[verifier::external_body]
pub(crate) fn value_unsigned(value: &serde_json::Value) -> (r: Option<u64>)
    ensures
        r == unsigned_in(json_contents(*value), seq![]),
{
    value.as_u64()
}

/// `serde_json::Value::as_array`: the length of the array that a document is, where it is one.
#[verifier::external_body]
pub(crate) fn value_array_len(value: &serde_json::Value) -> (r: Option<usize>)
    ensures
        match r {
            Some(n) => array_len_in(json_contents(*value), seq![]) == Some(n as nat),
            None => array_len_in(json_contents(*value), seq![]) is None,
        },
{
    value.as_array().map(|items| items.len())
}

/// What stands at a pointer, where it leads somewhere.
pub open spec fn node_at(contents: Map<Seq<char>, JsonNode>, pointer: Seq<char>) -> Option<JsonNode> {
    if !pointer.contains('~') && contents.contains_key(pointer) {
        Some(contents[pointer])
    } else {
        None
    }
}

/// The text at a pointer, where there is one.
pub open spec fn text_in(contents: Map<Seq<char>, JsonNode>, pointer: Seq<char>) -> Option<Seq<char>> {
    match node_at(contents, pointer) {
        Some(JsonNode::Text(s)) => Some(s),
        _ => None,
    }
}

/// The number at a pointer, where there is a whole one that is not negative.
pub open spec fn unsigned_in(contents: Map<Seq<char>, JsonNode>, pointer: Seq<char>) -> Option<u64> {
    match node_at(contents, pointer) {
        Some(JsonNode::Unsigned(n)) => Some(n),
        _ => None,
    }
}

/// The length of the array at a pointer, where there is one.
pub open spec fn array_len_in(contents: Map<Seq<char>, JsonNode>, pointer: Seq<char>) -> Option<nat> {
    match node_at(contents, pointer) {
        Some(JsonNode::Array(n)) => Some(n),
        _ => None,
    }
}

proof fn lemma_below_root(contents: Map<Seq<char>, JsonNode>, pointer: Seq<char>)
    ensures
        !pointer.contains('~') ==> node_at(below(contents, pointer), seq![]) == node_at(contents, pointer),
{
    assert(pointer + Seq::<char>::empty() =~= pointer);
    assert(!Seq::<char>::empty().contains('~'));
}

/// The part of a document at a pointer, where it leads somewhere.
pub fn part_at<'a>(value: &'a serde_json::Value, pointer: &str) -> (r: Option<&'a serde_json::Value>)
    ensures
        match r {
            Some(part) => {
                &&& node_at(json_contents(*value), pointer@) is Some
                &&& json_contents(*part) == below(json_contents(*value), pointer@)
                &&& node_at(json_contents(*part), seq![]) == node_at(json_contents(*value), pointer@)
            },
            None => node_at(json_contents(*value), pointer@) is None,
        },
{
    proof {
        lemma_below_root(json_contents(*value), pointer@);
        text::lemma_position(pointer@, '~');
    }
    if find_char(pointer, '~').is_some() {
        return None;
    }
    value_at(value, pointer)
}

/// The text at a pointer, where there is one.
pub fn text_at<'a>(value: &'a serde_json::Value, pointer: &str) -> (r: Option<&'a str>)
    ensures
        r.deep_view() == text_in(json_contents(*value), pointer@),
{
    match part_at(value, pointer) {
        Some(part) => value_text(part),
        None => None,
    }
}

/// The number at a pointer, where there is a whole one that is not negative.
pub fn unsigned_at(value: &serde_json::Value, pointer: &str) -> (r: Option<u64>)
    ensures
        r == unsigned_in(json_contents(*value), pointer@),
{
    match part_at(value, pointer) {
        Some(part) => value_unsigned(part),
        None => None,
    }
}

/// The length of the array at a pointer, where there is one.
pub fn array_len_at(value: &serde_json::Value, pointer: &str) -> (r: Option<usize>)
    ensures
        match r {
            Some(n) => array_len_in(json_contents(*value), pointer@) == Some(n as nat),
            None => array_len_in(json_contents(*value), pointer@) is None,
        },
{
    match part_at(value, pointer) {
        Some(part) => value_array_len(part),
        None => None,
    }
}

/// Whether a pointer leads somewhere.
pub fn leads_somewhere(value: &serde_json::Value, pointer: &str) -> (r: bool)
    ensures
        r == (node_at(json_contents(*value), pointer@) is Some),
{
    part_at(value, pointer).is_some()
}

// ------------------------------------------------------------------- writing

/// A pointer leads to a place or below it.
pub open spec fn at_or_below(pointer: Seq<char>, place: Seq<char>) -> bool {
    pointer == place || text::has_prefix(pointer, place + "/"@)
}

/// A document without what stands at a place and below it.
pub open spec fn without_place(contents: Map<Seq<char>, JsonNode>, place: Seq<char>) -> Map<Seq<char>, JsonNode> {
    Map::new(
        |p: Seq<char>| contents.contains_key(p) && !at_or_below(p, place),
        |p: Seq<char>| contents[p],
    )
}

/// An object stands at a place.
pub open spec fn is_object_at(contents: Map<Seq<char>, JsonNode>, place: Seq<char>) -> bool {
    node_at(contents, place) == Some(JsonNode::Object)
}

/// A document without a member of the object at a place; unchanged where no object stands there.
pub open spec fn without_member(contents: Map<Seq<char>, JsonNode>, place: Seq<char>, name: Seq<char>) -> Map<
    Seq<char>,
    JsonNode,
> {
    if is_object_at(contents, place) {
        without_place(contents, place + "/"@ + name)
    } else {
        contents
    }
}

/// Without a member, a document holds nothing that it did not hold, not the member, and still the
/// objects that are not deeper.
pub proof fn lemma_without_member(contents: Map<Seq<char>, JsonNode>, place: Seq<char>, name: Seq<char>, object: Seq<char>)
    ensures
        ({
            let rest = without_member(contents, place, name);
            &&& forall|p: Seq<char>| #[trigger]
                rest.contains_key(p) ==> contents.contains_key(p) && rest[p] == contents[p]
            &&& is_object_at(contents, place) ==> !rest.contains_key(place + "/"@ + name)
            &&& object.len() <= place.len() && is_object_at(contents, object) ==> is_object_at(rest, object)
        }),
{
    reveal_strlit("/");
    let gone = place + "/"@ + name;
    if object.len() <= place.len() && is_object_at(contents, object) {
        assert(object.len() < gone.len());
        assert(!at_or_below(object, gone));
    }
}

/// `serde_json::Map::remove` on the object at a place, found with `serde_json::Value::pointer_mut`
/// and `as_object_mut`: the member of that name is gone, and all else stays.
#[verifier::external_body]
pub(crate) fn remove_member(value: &mut serde_json::Value, place: &str, name: &str)
    requires
        !place@.contains('~'),
        !name@.contains('~'),
        !name@.contains('/'),
    ensures
        json_contents(*final(value)) == without_member(json_contents(*old(value)), place@, name@),
{
    if let Some(map) = value.pointer_mut(place).and_then(serde_json::Value::as_object_mut) {
        map.remove(name);
    }
}

/// `serde_json::Value::is_object` of the document itself.
#[verifier::external_body]
pub(crate) fn is_object(value: &serde_json::Value) -> (r: bool)
    ensures
        r == is_object_at(json_contents(*value), seq![]),
{
    value.is_object()
}

/// Whether an object stands at a place.
pub fn object_at(value: &serde_json::Value, place: &str) -> (r: bool)
    ensures
        r == is_object_at(json_contents(*value), place@),
{
    match part_at(value, place) {
        Some(part) => is_object(part),
        None => false,
    }
}

/// `serde_yaml::to_string` on a document: the document in YAML, or the error's message. How the
/// crate lays it out is left to it.
#[verifier::external_body]
pub(crate) fn write_yaml(value: &serde_json::Value) -> (r: Result<String, String>)
    ensures
        match r {
            Ok(yaml) => yaml_document(json_contents(*value)) == Ok::<Seq<char>, Seq<char>>(yaml@),
            Err(message) => yaml_document(json_contents(*value)) == Err::<Seq<char>, Seq<char>>(message@),
        },
{
    serde_yaml::to_string(value).map_err(|e| e.to_string())
}

// ------------------------------------------------------------------ building

/// What a document without parts holds.
pub open spec fn leaf(node: JsonNode) -> Map<Seq<char>, JsonNode> {
    Map::<Seq<char>, JsonNode>::empty().insert(seq![], node)
}

/// What a document holds once another one stands at a place.
pub open spec fn placed(
    contents: Map<Seq<char>, JsonNode>,
    place: Seq<char>,
    part: Map<Seq<char>, JsonNode>,
) -> Map<Seq<char>, JsonNode> {
    Map::new(
        |p: Seq<char>|
            if at_or_below(p, place) {
                part.contains_key(p.skip(place.len() as int))
            } else {
                contents.contains_key(p)
            },
        |p: Seq<char>|
            if at_or_below(p, place) {
                part[p.skip(place.len() as int)]
            } else {
                contents[p]
            },
    )
}

/// What an object with these members holds.
pub open spec fn object_of(members: Seq<(Seq<char>, Map<Seq<char>, JsonNode>)>) -> Map<Seq<char>, JsonNode>
    decreases members.len(),
{
    if members.len() == 0 {
        leaf(JsonNode::Object)
    } else {
        placed(object_of(members.drop_last()), "/"@ + members.last().0, members.last().1)
    }
}

/// What the first items of an array with so many items hold.
pub open spec fn first_items(items: Seq<Map<Seq<char>, JsonNode>>, count: nat) -> Map<Seq<char>, JsonNode>
    decreases items.len(),
{
    if items.len() == 0 {
        leaf(JsonNode::Array(count))
    } else {
        placed(
            first_items(items.drop_last(), count),
            "/"@ + text::decimal_of((items.len() - 1) as nat),
            items.last(),
        )
    }
}

/// What an array with these items holds.
pub open spec fn array_of(items: Seq<Map<Seq<char>, JsonNode>>) -> Map<Seq<char>, JsonNode> {
    first_items(items, items.len())
}

/// What is handed over is told by pointers alone.
pub open spec fn has_pointers_only(contents: Map<Seq<char>, JsonNode>) -> bool {
    forall|p: Seq<char>| #[trigger] contents.contains_key(p) ==> is_pointer(p)
}

/// A document that comes back as it was from its text: no pointer into it is long, so that it is
/// not deep, and its numbers are whole and not negative.
pub open spec fn is_plain_document(contents: Map<Seq<char>, JsonNode>, depth: nat) -> bool {
    forall|p: Seq<char>| #[trigger]
        contents.contains_key(p) ==> p.len() <= depth && contents[p] !is Number
}

proof fn lemma_at_or_below(pointer: Seq<char>, place: Seq<char>)
    ensures
        at_or_below(pointer, place) <==> pointer.len() >= place.len() && pointer.take(place.len() as int) == place
            && is_pointer(pointer.skip(place.len() as int)),
{
    reveal_strlit("/");
    let n = place.len() as int;
    let start = place + "/"@;
    if pointer.len() >= n {
        assert(pointer =~= pointer.take(n) + pointer.skip(n));
        if pointer.take(n) == place && pointer.len() > n && pointer[n] == '/' {
            assert(pointer.subrange(0, n + 1) =~= start);
        }
    }
    if text::has_prefix(pointer, start) {
        assert(pointer.take(n) =~= start.take(n));
        assert(start.take(n) =~= place);
        assert(pointer[n] == start[n]);
    }
    if pointer == place {
        assert(pointer.take(n) =~= place);
    }
    if pointer.len() == n && pointer.take(n) == place {
        assert(pointer =~= place);
    }
}

/// What was placed stands where it was placed, and what stands elsewhere is as before.
pub proof fn lemma_placed(
    contents: Map<Seq<char>, JsonNode>,
    place: Seq<char>,
    part: Map<Seq<char>, JsonNode>,
    elsewhere: Seq<char>,
)
    requires
        has_pointers_only(part),
    ensures
        below(placed(contents, place, part), place) == part,
        !at_or_below(elsewhere, place) && !at_or_below(place, elsewhere) ==> below(
            placed(contents, place, part),
            elsewhere,
        ) == below(contents, elsewhere),
        has_pointers_only(contents) && is_pointer(place) ==> has_pointers_only(placed(contents, place, part)),
{
    let all = placed(contents, place, part);
    assert forall|q: Seq<char>| is_pointer(q) implies at_or_below(#[trigger] (place + q), place) && (place + q).skip(
        place.len() as int,
    ) == q by {
        lemma_at_or_below(place + q, place);
        assert((place + q).skip(place.len() as int) =~= q);
        assert((place + q).take(place.len() as int) =~= place);
    }
    assert(below(all, place) =~= part);
    if !at_or_below(elsewhere, place) && !at_or_below(place, elsewhere) {
        assert forall|q: Seq<char>| is_pointer(q) implies !at_or_below(#[trigger] (elsewhere + q), place) by {
            lemma_apart(elsewhere, q, place);
        }
        assert(below(all, elsewhere) =~= below(contents, elsewhere));
    }
    if has_pointers_only(contents) && is_pointer(place) {
        assert forall|p: Seq<char>| #[trigger] all.contains_key(p) implies is_pointer(p) by {
            if at_or_below(p, place) {
                lemma_at_or_below(p, place);
                if place.len() == 0 {
                    assert(p.skip(0) =~= p);
                } else {
                    assert(p[0] == p.take(place.len() as int)[0]);
                }
            }
        }
    }
}

proof fn lemma_apart(elsewhere: Seq<char>, q: Seq<char>, place: Seq<char>)
    requires
        is_pointer(q),
        !at_or_below(elsewhere, place),
        !at_or_below(place, elsewhere),
    ensures
        !at_or_below(elsewhere + q, place),
{
    let p = elsewhere + q;
    let n = place.len() as int;
    let m = elsewhere.len() as int;
    lemma_at_or_below(p, place);
    lemma_at_or_below(elsewhere, place);
    lemma_at_or_below(place, elsewhere);
    if at_or_below(p, place) {
        if n <= m {
            assert(elsewhere.take(n) =~= p.take(n));
            if n < m {
                assert(elsewhere.skip(n)[0] == p.skip(n)[0]);
            }
        } else {
            assert(place.take(m) =~= p.take(n).take(m));
            assert(p.take(n).take(m) =~= elsewhere);
            assert(place.skip(m)[0] == p.take(n)[m]);
            assert(p[m] == q[0]);
        }
    }
}

/// A part of a part is a part.
pub proof fn lemma_below_below(contents: Map<Seq<char>, JsonNode>, outer: Seq<char>, inner: Seq<char>)
    requires
        is_pointer(inner),
        inner.len() > 0,
    ensures
        below(below(contents, outer), inner) == below(contents, outer + inner),
{
    assert forall|q: Seq<char>| #[trigger] (inner + q).len() > 0 && is_pointer(inner + q) && outer + (inner + q) == outer
        + inner + q by {
        assert((inner + q)[0] == inner[0]);
        assert(outer + (inner + q) =~= outer + inner + q);
    }
    assert(below(below(contents, outer), inner) =~= below(contents, outer + inner));
}

/// Where a part of a document is not empty, its root is what stands at its place.
pub proof fn lemma_part_root(contents: Map<Seq<char>, JsonNode>, place: Seq<char>)
    ensures
        below(contents, place).contains_key(seq![]) <==> contents.contains_key(place),
        contents.contains_key(place) ==> below(contents, place)[seq![]] == contents[place],
{
    assert(place + Seq::<char>::empty() =~= place);
}

/// Names of members, each of which occurs once and is a whole token of a pointer.
pub open spec fn are_member_names(names: Seq<Seq<char>>) -> bool {
    &&& forall|i: int| 0 <= i < names.len() ==> !(#[trigger] names[i]).contains('/') && !names[i].contains('~')
    &&& forall|i: int, j: int| 0 <= i < j < names.len() ==> names[i] != names[j]
}

/// The names of an object's members.
pub open spec fn names_of(members: Seq<(Seq<char>, Map<Seq<char>, JsonNode>)>) -> Seq<Seq<char>> {
    members.map_values(|m: (Seq<char>, Map<Seq<char>, JsonNode>)| m.0)
}

proof fn lemma_tokens_apart(a: Seq<char>, b: Seq<char>)
    requires
        !a.contains('/'),
        !b.contains('/'),
        a != b,
    ensures
        !at_or_below("/"@ + a, "/"@ + b),
{
    reveal_strlit("/");
    let p = "/"@ + a;
    let place = "/"@ + b;
    let n = place.len() as int;
    lemma_at_or_below(p, place);
    if at_or_below(p, place) {
        if p.len() > n {
            assert(p.skip(n)[0] == a[n - 1]);
        } else {
            assert(p =~= p.take(n));
            assert(a =~= p.skip(1));
            assert(b =~= place.skip(1));
        }
    }
}

/// Each member of an object is found under its name, and nothing is found elsewhere.
pub proof fn lemma_object_of(members: Seq<(Seq<char>, Map<Seq<char>, JsonNode>)>)
    requires
        are_member_names(names_of(members)),
        forall|i: int| 0 <= i < members.len() ==> has_pointers_only(#[trigger] members[i].1),
    ensures
        has_pointers_only(object_of(members)),
        object_of(members).contains_key(seq![]) && object_of(members)[seq![]] == JsonNode::Object,
        forall|i: int|
            0 <= i < members.len() ==> below(object_of(members), "/"@ + (#[trigger] members[i]).0) == members[i].1,
        forall|p: Seq<char>| #[trigger]
            object_of(members).contains_key(p) && p.len() > 0 ==> exists|i: int|
                0 <= i < members.len() && at_or_below(p, "/"@ + (#[trigger] members[i]).0),
    decreases members.len(),
{
    reveal_strlit("/");
    let all = object_of(members);
    if members.len() > 0 {
        let rest = members.drop_last();
        let last = members.last();
        let before = object_of(rest);
        let place = "/"@ + last.0;
        let names = names_of(members);
        assert(names_of(rest) =~= names.drop_last());
        assert forall|i: int| 0 <= i < rest.len() implies !(#[trigger] names_of(rest)[i]).contains('/')
            && !names_of(rest)[i].contains('~') by {
            assert(names_of(rest)[i] == names[i]);
        }
        assert forall|i: int| 0 <= i < rest.len() implies has_pointers_only(#[trigger] rest[i].1) by {
            assert(rest[i] == members[i]);
        }
        lemma_object_of(rest);
        assert(members[members.len() - 1] == last);
        assert(names[members.len() - 1] == last.0);
        lemma_placed(before, place, last.1, place);
        assert(place[0] == '/');
        assert(!at_or_below(seq![], place)) by {
            lemma_at_or_below(seq![], place);
        }
        assert forall|i: int| 0 <= i < members.len() implies below(all, "/"@ + (#[trigger] members[i]).0)
            == members[i].1 by {
            if i < rest.len() {
                assert(rest[i] == members[i]);
                assert(names[i] == members[i].0);
                lemma_tokens_apart(members[i].0, last.0);
                lemma_tokens_apart(last.0, members[i].0);
                lemma_placed(before, place, last.1, "/"@ + members[i].0);
            }
        }
        assert forall|p: Seq<char>| #[trigger] all.contains_key(p) && p.len() > 0 implies exists|i: int|
            0 <= i < members.len() && at_or_below(p, "/"@ + (#[trigger] members[i]).0) by {
            if at_or_below(p, place) {
                assert(at_or_below(p, "/"@ + members[members.len() - 1].0));
            } else {
                assert(before.contains_key(p));
                let i = choose|i: int| 0 <= i < rest.len() && at_or_below(p, "/"@ + (#[trigger] rest[i]).0);
                assert(members[i] == rest[i]);
            }
        }
    }
}

/// Each item of an array is found under its number.
pub proof fn lemma_array_of(items: Seq<Map<Seq<char>, JsonNode>>)
    requires
        forall|i: int| 0 <= i < items.len() ==> has_pointers_only(#[trigger] items[i]),
    ensures
        has_pointers_only(array_of(items)),
        array_of(items).contains_key(seq![]) && array_of(items)[seq![]] == JsonNode::Array(items.len()),
        forall|i: int|
            0 <= i < items.len() ==> below(array_of(items), "/"@ + text::decimal_of(i as nat)) == #[trigger] items[i],
{
    lemma_first_items(items, items.len());
}

proof fn lemma_first_items(items: Seq<Map<Seq<char>, JsonNode>>, count: nat)
    requires
        forall|i: int| 0 <= i < items.len() ==> has_pointers_only(#[trigger] items[i]),
    ensures
        has_pointers_only(first_items(items, count)),
        first_items(items, count).contains_key(seq![]) && first_items(items, count)[seq![]] == JsonNode::Array(count),
        forall|i: int|
            0 <= i < items.len() ==> below(first_items(items, count), "/"@ + text::decimal_of(i as nat))
                == #[trigger] items[i],
    decreases items.len(),
{
    reveal_strlit("/");
    if items.len() > 0 {
        let all = first_items(items, count);
        let rest = items.drop_last();
        let before = first_items(rest, count);
        let k = (items.len() - 1) as nat;
        let place = "/"@ + text::decimal_of(k);
        assert forall|i: int| 0 <= i < rest.len() implies has_pointers_only(#[trigger] rest[i]) by {
            assert(rest[i] == items[i]);
        }
        lemma_first_items(rest, count);
        assert(items[k as int] == items.last());
        lemma_placed(before, place, items.last(), place);
        assert(place[0] == '/');
        assert(!at_or_below(seq![], place)) by {
            lemma_at_or_below(seq![], place);
        }
        assert forall|i: int| 0 <= i < items.len() implies below(all, "/"@ + text::decimal_of(i as nat))
            == #[trigger] items[i] by {
            if i < rest.len() {
                assert(rest[i] == items[i]);
                text::lemma_decimal_is_token(i as nat);
                text::lemma_decimal_is_token(k);
                text::lemma_decimal_is_trimmed(i as nat, k);
                text::lemma_decimal_is_trimmed(k, k);
                lemma_tokens_apart(text::decimal_of(i as nat), text::decimal_of(k));
                lemma_tokens_apart(text::decimal_of(k), text::decimal_of(i as nat));
                lemma_placed(before, place, items.last(), "/"@ + text::decimal_of(i as nat));
            }
        }
    }
}

/// A document stays plain when a plain one is placed in it.
pub proof fn lemma_placed_is_plain(
    contents: Map<Seq<char>, JsonNode>,
    place: Seq<char>,
    part: Map<Seq<char>, JsonNode>,
    inner: nat,
    depth: nat,
)
    requires
        is_plain_document(contents, depth),
        is_plain_document(part, inner),
        place.len() + inner <= depth,
    ensures
        is_plain_document(placed(contents, place, part), depth),
{
    let all = placed(contents, place, part);
    assert forall|p: Seq<char>| #[trigger] all.contains_key(p) implies p.len() <= depth && all[p] !is Number by {
        if at_or_below(p, place) {
            lemma_at_or_below(p, place);
            assert(part.contains_key(p.skip(place.len() as int)));
        } else {
            assert(contents.contains_key(p));
        }
    }
}

/// An object of plain documents is plain.
pub proof fn lemma_object_is_plain(
    members: Seq<(Seq<char>, Map<Seq<char>, JsonNode>)>,
    inner: nat,
    depth: nat,
)
    requires
        forall|i: int|
            0 <= i < members.len() ==> is_plain_document((#[trigger] members[i]).1, inner) && members[i].0.len() + 1 + inner
                <= depth,
    ensures
        is_plain_document(object_of(members), depth),
    decreases members.len(),
{
    reveal_strlit("/");
    if members.len() > 0 {
        let rest = members.drop_last();
        assert forall|i: int| 0 <= i < rest.len() implies is_plain_document((#[trigger] rest[i]).1, inner)
            && rest[i].0.len() + 1 + inner <= depth by {
            assert(rest[i] == members[i]);
        }
        lemma_object_is_plain(rest, inner, depth);
        assert(members[members.len() - 1] == members.last());
        lemma_placed_is_plain(object_of(rest), "/"@ + members.last().0, members.last().1, inner, depth);
    }
}

/// An array of plain documents is plain.
pub proof fn lemma_array_is_plain(items: Seq<Map<Seq<char>, JsonNode>>, inner: nat, depth: nat)
    requires
        forall|i: int| 0 <= i < items.len() ==> is_plain_document(#[trigger] items[i], inner),
        items.len() + 1 + inner <= depth,
    ensures
        is_plain_document(array_of(items), depth),
{
    lemma_first_items_are_plain(items, items.len(), inner, depth);
}

proof fn lemma_first_items_are_plain(
    items: Seq<Map<Seq<char>, JsonNode>>,
    count: nat,
    inner: nat,
    depth: nat,
)
    requires
        forall|i: int| 0 <= i < items.len() ==> is_plain_document(#[trigger] items[i], inner),
        items.len() + 1 + inner <= depth,
    ensures
        is_plain_document(first_items(items, count), depth),
    decreases items.len(),
{
    reveal_strlit("/");
    if items.len() > 0 {
        let rest = items.drop_last();
        let k = (items.len() - 1) as nat;
        assert forall|i: int| 0 <= i < rest.len() implies is_plain_document(#[trigger] rest[i], inner) by {
            assert(rest[i] == items[i]);
        }
        lemma_first_items_are_plain(rest, count, inner, depth);
        assert(items[k as int] == items.last());
        text::lemma_decimal_is_token(k);
        lemma_placed_is_plain(first_items(rest, count), "/"@ + text::decimal_of(k), items.last(), inner, depth);
    }
}

/// `serde_json::Value::from` on a text: the document that is this text.
#[verifier::external_body]
pub(crate) fn text_value(s: &str) -> (r: serde_json::Value)
    ensures
        json_contents(r) == leaf(JsonNode::Text(s@)),
{
    serde_json::Value::from(s)
}

/// `serde_json::Value::from` on a number: the document that is this number.
#[verifier::external_body]
pub(crate) fn number_value(n: u64) -> (r: serde_json::Value)
    ensures
        json_contents(r) == leaf(JsonNode::Unsigned(n)),
{
    serde_json::Value::from(n)
}

/// `serde_json::Value::from` on a list of documents: the array with these items.
#[verifier::external_body]
pub(crate) fn array_value(items: Vec<serde_json::Value>) -> (r: serde_json::Value)
    ensures
        json_contents(r) == array_of(items@.map_values(|v: serde_json::Value| json_contents(v))),
{
    serde_json::Value::from(items)
}

/// `serde_json::Value::from_iter` on names with documents: the object with these members.
#[verifier::external_body]
pub(crate) fn object_value(members: Vec<(&str, serde_json::Value)>) -> (r: serde_json::Value)
    requires
        are_member_names(members@.map_values(|m: (&str, serde_json::Value)| m.0@)),
    ensures
        json_contents(r) == object_of(members@.map_values(|m: (&str, serde_json::Value)| (m.0@, json_contents(m.1)))),
{
    serde_json::Value::from_iter(members)
}

/// A text is on one line, and in braces where it stands for an object.
pub open spec fn is_one_line(text: Seq<char>, contents: Map<Seq<char>, JsonNode>) -> bool {
    &&& !text.contains('\n')
    &&& is_object_at(contents, seq![]) ==> text.len() > 0 && text[0] == '{' && text.last() == '}'
}

/// `serde_json::to_string` on a document: the document as a text, on one line. An object stands in
/// braces. Read again, the text is the document that it was written from, where that is plain. How
/// the crate escapes a character is left to it.
#[verifier::external_body]
pub(crate) fn write_json(value: &serde_json::Value) -> (r: Option<String>)
    ensures
        r.deep_view() == document_text(json_contents(*value)),
        is_plain_document(json_contents(*value), 100) ==> r is Some,
        match r {
            Some(text) => is_one_line(text@, json_contents(*value)) && (is_plain_document(json_contents(*value), 100)
                ==> json_document(text@) == Some(json_contents(*value))),
            None => true,
        },
{
    serde_json::to_string(value).ok()
}

} // verus!
