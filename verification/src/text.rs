//! Texts as sequences of characters: searching, cutting, joining, numbers.
use crate::order::str_eq;
use vstd::prelude::*;
use vstd::string::*;

verus! {

// ---------------------------------------------------------------- characters

/// The characters with the Unicode property White_Space.
pub open spec fn is_space(c: char) -> bool {
    ||| '\u{9}' <= c <= '\u{d}'
    ||| c == ' '
    ||| c == '\u{85}'
    ||| c == '\u{a0}'
    ||| c == '\u{1680}'
    ||| '\u{2000}' <= c <= '\u{200a}'
    ||| c == '\u{2028}'
    ||| c == '\u{2029}'
    ||| c == '\u{202f}'
    ||| c == '\u{205f}'
    ||| c == '\u{3000}'
}

pub(crate) fn char_is_space(c: char) -> (r: bool)
    ensures
        r == is_space(c),
{
    ('\u{9}' <= c && c <= '\u{d}') || c == ' ' || c == '\u{85}' || c == '\u{a0}' || c == '\u{1680}'
        || ('\u{2000}' <= c && c <= '\u{200a}') || c == '\u{2028}' || c == '\u{2029}' || c == '\u{202f}'
        || c == '\u{205f}' || c == '\u{3000}'
}

/// An ASCII decimal digit.
pub open spec fn is_digit(c: char) -> bool {
    '0' <= c <= '9'
}

pub(crate) fn char_is_digit(c: char) -> (r: bool)
    ensures
        r == is_digit(c),
{
    '0' <= c && c <= '9'
}

/// An ASCII letter or digit.
pub open spec fn is_alphanumeric(c: char) -> bool {
    is_digit(c) || 'a' <= c <= 'z' || 'A' <= c <= 'Z'
}

pub(crate) fn char_is_alphanumeric(c: char) -> (r: bool)
    ensures
        r == is_alphanumeric(c),
{
    char_is_digit(c) || ('a' <= c && c <= 'z') || ('A' <= c && c <= 'Z')
}

/// An ASCII hexadecimal digit.
pub open spec fn is_hex_digit(c: char) -> bool {
    is_digit(c) || 'a' <= c <= 'f' || 'A' <= c <= 'F'
}

pub(crate) fn char_is_hex_digit(c: char) -> (r: bool)
    ensures
        r == is_hex_digit(c),
{
    char_is_digit(c) || ('a' <= c && c <= 'f') || ('A' <= c && c <= 'F')
}

/// The lower-case form of an ASCII capital; any other character itself.
pub open spec fn ascii_lower_char(c: char) -> char {
    if 'A' <= c <= 'Z' {
        (c as u32 + 32) as char
    } else {
        c
    }
}

/// The upper-case form of an ASCII small letter; any other character itself.
pub open spec fn ascii_upper_char(c: char) -> char {
    if 'a' <= c <= 'z' {
        (c as u32 - 32) as char
    } else {
        c
    }
}

/// A text with its ASCII capitals made small.
pub open spec fn ascii_lower(s: Seq<char>) -> Seq<char> {
    s.map_values(|c: char| ascii_lower_char(c))
}

/// A text with its ASCII small letters made capital.
pub open spec fn ascii_upper(s: Seq<char>) -> Seq<char> {
    s.map_values(|c: char| ascii_upper_char(c))
}

/// Every character is below U+0080.
pub open spec fn all_ascii(s: Seq<char>) -> bool {
    forall|i: int| 0 <= i < s.len() ==> #[trigger] s[i] < '\u{80}'
}

// ------------------------------------------------------------- letter case

/// What `str::to_lowercase` makes of a text.
pub uninterp spec fn lowercase(s: Seq<char>) -> Seq<char>;

/// What `str::to_uppercase` makes of a text.
pub uninterp spec fn uppercase(s: Seq<char>) -> Seq<char>;

/// `str::to_lowercase` of std: the Unicode lower-case equivalent of a text.
/// On a text of ASCII characters alone it changes the capitals and nothing else.
#[verifier::external_body]
pub(crate) fn to_lowercase(s: &str) -> (r: String)
    ensures
        r@ == lowercase(s@),
        all_ascii(s@) ==> r@ == ascii_lower(s@),
{
    s.to_lowercase()
}

/// `str::to_uppercase` of std: the Unicode upper-case equivalent of a text.
/// On a text of ASCII characters alone it changes the small letters and nothing else.
#[verifier::external_body]
pub(crate) fn to_uppercase(s: &str) -> (r: String)
    ensures
        r@ == uppercase(s@),
        all_ascii(s@) ==> r@ == ascii_upper(s@),
{
    s.to_uppercase()
}

/// `str::to_ascii_lowercase` of std: ASCII capitals become small letters, every other
/// character stays.
#[verifier::external_body]
pub(crate) fn to_ascii_lowercase(s: &str) -> (r: String)
    ensures
        r@ == ascii_lower(s@),
{
    s.to_ascii_lowercase()
}

/// Whether two texts differ in the case of ASCII letters only.
pub(crate) fn eq_ignore_ascii_case(a: &str, b: &str) -> (r: bool)
    ensures
        r == (ascii_lower(a@) == ascii_lower(b@)),
{
    str_eq(to_ascii_lowercase(a).as_str(), to_ascii_lowercase(b).as_str())
}

// ------------------------------------------------------------------- cutting

/// The characters of a text.
pub(crate) fn chars_of(s: &str) -> (v: Vec<char>)
    ensures
        v@ == s@,
{
    let mut v: Vec<char> = Vec::new();
    let n: usize = s.unicode_len();
    let mut rest = s.chars();
    let mut i: usize = 0;
    assert(s@.subrange(0, s@.len() as int) =~= s@);
    while i < n
        invariant
            i <= n,
            n == s@.len(),
            v@ == s@.subrange(0, i as int),
            vstd::std_specs::iter::IteratorSpec::remaining(&rest) == s@.subrange(i as int, n as int),
        decreases n - i,
    {
        let c = rest.next();
        match c {
            Some(c) => {
                v.push(c);
            },
            None => {},
        }
        i += 1;
        assert(v@ =~= s@.subrange(0, i as int));
        assert(s@.subrange(i - 1, n as int).drop_first() =~= s@.subrange(i as int, n as int));
    }
    assert(v@ =~= s@);
    v
}

/// The text between two character positions.
pub(crate) fn cut<'a>(s: &'a str, from: usize, to: usize) -> (r: &'a str)
    requires
        from <= to <= s@.len(),
    ensures
        r@ == s@.subrange(from as int, to as int),
{
    s.substring_char(from, to)
}

/// A text without its leading white space.
pub open spec fn trim_start_of(s: Seq<char>) -> Seq<char>
    decreases s.len(),
{
    if s.len() > 0 && is_space(s[0]) {
        trim_start_of(s.drop_first())
    } else {
        s
    }
}

/// A text without its trailing white space.
pub open spec fn trim_end_of(s: Seq<char>) -> Seq<char>
    decreases s.len(),
{
    if s.len() > 0 && is_space(s.last()) {
        trim_end_of(s.drop_last())
    } else {
        s
    }
}

/// A text without its leading and trailing white space.
pub open spec fn trimmed(s: Seq<char>) -> Seq<char> {
    trim_end_of(trim_start_of(s))
}

/// The text without leading and trailing white space.
pub fn trim<'a>(s: &'a str) -> (r: &'a str)
    ensures
        r@ == trimmed(s@),
{
    let v = chars_of(s);
    let n: usize = v.len();
    let mut from: usize = 0;
    assert(s@.subrange(0, n as int) =~= s@);
    while from < n && char_is_space(v[from])
        invariant
            from <= n,
            n == v.len(),
            v@ == s@,
            trim_start_of(s@.subrange(from as int, n as int)) == trim_start_of(s@),
        decreases n - from,
    {
        assert(s@.subrange(from as int, n as int).drop_first() =~= s@.subrange(from + 1, n as int));
        from += 1;
    }
    let mut to: usize = n;
    while to > from && char_is_space(v[to - 1])
        invariant
            from <= to <= n,
            n == v.len(),
            v@ == s@,
            trim_end_of(s@.subrange(from as int, to as int)) == trim_end_of(s@.subrange(from as int, n as int)),
        decreases to,
    {
        assert(s@.subrange(from as int, to as int).drop_last() =~= s@.subrange(from as int, to - 1));
        to -= 1;
    }
    cut(s, from, to)
}

/// A text that is all white space trims to nothing, and trimming twice is trimming once.
pub proof fn lemma_trimmed_idempotent(s: Seq<char>)
    ensures
        trimmed(trimmed(s)) == trimmed(s),
        trimmed(s).len() <= s.len(),
        trimmed(s).len() > 0 ==> !is_space(trimmed(s)[0]) && !is_space(trimmed(s).last()),
{
    lemma_trim_start(s);
    lemma_trim_end(trim_start_of(s));
}

/// A text has no white space at its ends.
pub open spec fn is_trimmed(s: Seq<char>) -> bool {
    s.len() == 0 || (!is_space(s[0]) && !is_space(s.last()))
}

/// The texts without white space at their ends are those that trimming leaves as they are.
pub proof fn lemma_is_trimmed(s: Seq<char>)
    ensures
        is_trimmed(s) <==> trimmed(s) == s,
{
    lemma_trimmed_idempotent(s);
}

/// Texts without white space at their ends, put together between commas, have none there either.
pub proof fn lemma_joined_is_trimmed(parts: Seq<Seq<char>>)
    requires
        forall|i: int| 0 <= i < parts.len() ==> is_trimmed(#[trigger] parts[i]),
    ensures
        is_trimmed(joined(parts, ","@)),
    decreases parts.len(),
{
    reveal_strlit(",");
    if parts.len() > 1 {
        let rest = parts.drop_last();
        assert forall|i: int| 0 <= i < rest.len() implies is_trimmed(#[trigger] rest[i]) by {
            assert(rest[i] == parts[i]);
        }
        lemma_joined_is_trimmed(rest);
        let head = joined(rest, ","@) + ","@;
        assert(head[head.len() - 1] == ',');
        assert(head.len() == 1 ==> head[0] == ',');
        assert(is_trimmed(parts.last()));
    } else if parts.len() == 1 {
        assert(is_trimmed(parts[0]));
    }
}

proof fn lemma_trim_start(s: Seq<char>)
    ensures
        trim_start_of(s).len() <= s.len(),
        trim_start_of(s).len() > 0 ==> !is_space(trim_start_of(s)[0]),
    decreases s.len(),
{
    if s.len() > 0 && is_space(s[0]) {
        lemma_trim_start(s.drop_first());
    }
}

/// A text that does not start with white space keeps its start when its end is trimmed.
pub proof fn lemma_trim_end_keeps_start(s: Seq<char>)
    requires
        s.len() > 0 && !is_space(s[0]),
    ensures
        trim_end_of(s).len() > 0,
        is_trimmed(trim_end_of(s)),
    decreases s.len(),
{
    lemma_trim_end(s);
    if is_space(s.last()) {
        lemma_trim_end_keeps_start(s.drop_last());
    }
}

proof fn lemma_trim_end(s: Seq<char>)
    ensures
        trim_end_of(s).len() <= s.len(),
        trim_end_of(s).len() > 0 ==> !is_space(trim_end_of(s).last()) && trim_end_of(s)[0] == s[0],
    decreases s.len(),
{
    if s.len() > 0 && is_space(s.last()) {
        lemma_trim_end(s.drop_last());
    }
}

/// Where a text first holds a character.
pub open spec fn position(s: Seq<char>, c: char) -> Option<int>
    decreases s.len(),
{
    if s.len() == 0 {
        None
    } else if s[0] == c {
        Some(0)
    } else {
        match position(s.drop_first(), c) {
            Some(i) => Some(i + 1),
            None => None,
        }
    }
}

/// Where a text last holds a character.
pub open spec fn last_position(s: Seq<char>, c: char) -> Option<int>
    decreases s.len(),
{
    if s.len() == 0 {
        None
    } else if s.last() == c {
        Some(s.len() - 1)
    } else {
        last_position(s.drop_last(), c)
    }
}

pub proof fn lemma_position(s: Seq<char>, c: char)
    ensures
        match position(s, c) {
            Some(i) => 0 <= i < s.len() && s[i] == c && forall|j: int| 0 <= j < i ==> s[j] != c,
            None => !s.contains(c),
        },
    decreases s.len(),
{
    if s.len() > 0 && s[0] != c {
        let rest = s.drop_first();
        lemma_position(rest, c);
        match position(rest, c) {
            Some(i) => {
                assert(s[i + 1] == rest[i]);
                assert forall|j: int| 0 <= j < i + 1 implies s[j] != c by {
                    if j > 0 {
                        assert(rest[j - 1] == s[j]);
                    }
                }
            },
            None => {
                assert forall|j: int| 0 <= j < s.len() implies s[j] != c by {
                    if j > 0 {
                        assert(rest[j - 1] == s[j]);
                        assert(!rest.contains(c));
                    }
                }
            },
        }
    }
}

pub proof fn lemma_last_position(s: Seq<char>, c: char)
    ensures
        match last_position(s, c) {
            Some(i) => 0 <= i < s.len() && s[i] == c && forall|j: int| i < j < s.len() ==> s[j] != c,
            None => !s.contains(c),
        },
    decreases s.len(),
{
    if s.len() > 0 && s.last() != c {
        lemma_last_position(s.drop_last(), c);
        match last_position(s.drop_last(), c) {
            Some(i) => {
                assert forall|j: int| i < j < s.len() implies s[j] != c by {
                    if j < s.len() - 1 {
                        assert(s.drop_last()[j] == s[j]);
                    }
                }
            },
            None => {
                assert forall|j: int| 0 <= j < s.len() implies s[j] != c by {
                    if j < s.len() - 1 {
                        assert(s.drop_last()[j] == s[j]);
                        assert(!s.drop_last().contains(c));
                    }
                }
            },
        }
    }
}

/// The first position of a character, counted in characters.
pub(crate) fn find_char(s: &str, c: char) -> (r: Option<usize>)
    ensures
        match r {
            Some(i) => position(s@, c) == Some(i as int) && i < s@.len(),
            None => position(s@, c) is None,
        },
{
    let v = chars_of(s);
    let n: usize = v.len();
    let mut i: usize = 0;
    assert(s@.subrange(0, n as int) =~= s@);
    while i < n
        invariant
            i <= n,
            n == v.len(),
            v@ == s@,
            position(s@, c) == match position(s@.subrange(i as int, n as int), c) {
                Some(k) => Some(k + i),
                None => None::<int>,
            },
        decreases n - i,
    {
        assert(s@.subrange(i as int, n as int).drop_first() =~= s@.subrange(i + 1, n as int));
        if v[i] == c {
            return Some(i);
        }
        i += 1;
    }
    None
}

/// The last position of a character, counted in characters.
pub(crate) fn rfind_char(s: &str, c: char) -> (r: Option<usize>)
    ensures
        match r {
            Some(i) => last_position(s@, c) == Some(i as int) && i < s@.len(),
            None => last_position(s@, c) is None,
        },
{
    let v = chars_of(s);
    let mut i: usize = v.len();
    assert(s@.subrange(0, i as int) =~= s@);
    while i > 0
        invariant
            i <= v.len(),
            v@ == s@,
            last_position(s@, c) == last_position(s@.subrange(0, i as int), c),
        decreases i,
    {
        assert(s@.subrange(0, i as int).drop_last() =~= s@.subrange(0, i - 1));
        i -= 1;
        if v[i] == c {
            return Some(i);
        }
    }
    None
}

/// A text holds another one at a position.
pub open spec fn occurs_at(s: Seq<char>, needle: Seq<char>, i: int) -> bool {
    0 <= i && i + needle.len() <= s.len() && s.subrange(i, i + needle.len()) == needle
}

/// A text holds another one somewhere.
pub open spec fn contains_text(s: Seq<char>, needle: Seq<char>) -> bool {
    exists|i: int| #[trigger] occurs_at(s, needle, i)
}

/// A text begins with another one.
pub open spec fn has_prefix(s: Seq<char>, prefix: Seq<char>) -> bool {
    occurs_at(s, prefix, 0)
}

/// A text ends with another one.
pub open spec fn has_suffix(s: Seq<char>, suffix: Seq<char>) -> bool {
    occurs_at(s, suffix, s.len() - suffix.len())
}

/// What follows a prefix.
pub open spec fn after_prefix(s: Seq<char>, prefix: Seq<char>) -> Seq<char> {
    s.subrange(prefix.len() as int, s.len() as int)
}

/// What precedes a suffix.
pub open spec fn before_suffix(s: Seq<char>, suffix: Seq<char>) -> Seq<char> {
    s.subrange(0, s.len() - suffix.len())
}

/// A text without a suffix, where it has it.
pub open spec fn without_suffix(s: Seq<char>, suffix: Seq<char>) -> Seq<char> {
    if has_suffix(s, suffix) {
        before_suffix(s, suffix)
    } else {
        s
    }
}

/// Where a text first holds another one at or after a position.
pub open spec fn occurrence_from(s: Seq<char>, needle: Seq<char>, from: int) -> Option<int>
    decreases s.len() + 1 - from,
{
    if from < 0 || from + needle.len() > s.len() {
        None
    } else if occurs_at(s, needle, from) {
        Some(from)
    } else {
        occurrence_from(s, needle, from + 1)
    }
}

pub proof fn lemma_occurrence_from(s: Seq<char>, needle: Seq<char>, from: int)
    requires
        0 <= from,
    ensures
        match occurrence_from(s, needle, from) {
            Some(i) => from <= i && occurs_at(s, needle, i) && forall|j: int|
                from <= j < i ==> !#[trigger] occurs_at(s, needle, j),
            None => forall|j: int| from <= j ==> !#[trigger] occurs_at(s, needle, j),
        },
    decreases s.len() + 1 - from,
{
    if from + needle.len() <= s.len() && !occurs_at(s, needle, from) {
        lemma_occurrence_from(s, needle, from + 1);
    }
}

fn chars_occur_at(v: &Vec<char>, needle: &Vec<char>, i: usize) -> (r: bool)
    requires
        i <= v.len(),
    ensures
        r == occurs_at(v@, needle@, i as int),
{
    if v.len() - i < needle.len() {
        return false;
    }
    let mut k: usize = 0;
    while k < needle.len()
        invariant
            k <= needle.len(),
            i + needle.len() <= v.len(),
            forall|j: int| 0 <= j < k ==> v@[i + j] == needle@[j],
        decreases needle.len() - k,
    {
        if v[i + k] != needle[k] {
            assert(v@.subrange(i as int, i + needle.len())[k as int] == v@[i + k]);
            return false;
        }
        k += 1;
    }
    assert(v@.subrange(i as int, i + needle.len()) =~= needle@);
    true
}

/// The first position at or after `from` where a text holds another one.
pub(crate) fn find_from(s: &str, needle: &str, from: usize) -> (r: Option<usize>)
    requires
        from <= s@.len(),
    ensures
        match r {
            Some(i) => occurrence_from(s@, needle@, from as int) == Some(i as int) && from <= i && i + needle@.len()
                <= s@.len(),
            None => occurrence_from(s@, needle@, from as int) is None,
        },
{
    let v = chars_of(s);
    let w = chars_of(needle);
    let mut i: usize = from;
    while i <= v.len() && w.len() <= v.len() - i
        invariant
            from <= i,
            from <= v.len(),
            v@ == s@,
            w@ == needle@,
            i <= v.len() + 1,
            occurrence_from(s@, needle@, from as int) == occurrence_from(s@, needle@, i as int),
        decreases v.len() + 1 - i,
    {
        if chars_occur_at(&v, &w, i) {
            return Some(i);
        }
        if i == v.len() {
            assert(occurrence_from(s@, needle@, i + 1) is None);
            return None;
        }
        i += 1;
    }
    None
}

/// Where a text last holds another one at or before a position.
pub open spec fn last_occurrence(s: Seq<char>, needle: Seq<char>, upto: int) -> Option<int>
    decreases upto + 1,
{
    if upto < 0 {
        None
    } else if occurs_at(s, needle, upto) {
        Some(upto)
    } else {
        last_occurrence(s, needle, upto - 1)
    }
}

/// What stands after the last place where a text holds another one.
pub open spec fn after_last(s: Seq<char>, needle: Seq<char>) -> Option<Seq<char>> {
    match last_occurrence(s, needle, s.len() as int) {
        Some(i) => Some(s.subrange(i + needle.len(), s.len() as int)),
        None => None,
    }
}

/// What stands after the last place where a text holds another one.
pub(crate) fn text_after_last<'a>(s: &'a str, needle: &str) -> (r: Option<&'a str>)
    ensures
        r.deep_view() == after_last(s@, needle@),
{
    let v = chars_of(s);
    let w = chars_of(needle);
    let total: usize = v.len();
    let mut i: usize = total;
    loop
        invariant
            i <= total,
            total == v.len(),
            v@ == s@,
            w@ == needle@,
            last_occurrence(s@, needle@, s@.len() as int) == last_occurrence(s@, needle@, i as int),
        decreases i,
    {
        if chars_occur_at(&v, &w, i) {
            return Some(cut(s, i + w.len(), total));
        }
        if i == 0 {
            assert(last_occurrence(s@, needle@, -1) is None);
            return None;
        }
        i -= 1;
    }
}

/// Whether a text holds another one.
pub fn contains(s: &str, needle: &str) -> (r: bool)
    ensures
        r == contains_text(s@, needle@),
{
    let found = find_from(s, needle, 0);
    proof {
        lemma_occurrence_from(s@, needle@, 0);
    }
    found.is_some()
}

/// Whether a text begins with another one.
pub fn starts_with(s: &str, prefix: &str) -> (r: bool)
    ensures
        r == has_prefix(s@, prefix@),
{
    chars_occur_at(&chars_of(s), &chars_of(prefix), 0)
}

/// Whether a text ends with another one.
pub fn ends_with(s: &str, suffix: &str) -> (r: bool)
    ensures
        r == has_suffix(s@, suffix@),
{
    let v = chars_of(s);
    let w = chars_of(suffix);
    if w.len() > v.len() {
        return false;
    }
    chars_occur_at(&v, &w, v.len() - w.len())
}

/// What follows a prefix, where the text has it.
pub(crate) fn strip_prefix<'a>(s: &'a str, prefix: &str) -> (r: Option<&'a str>)
    ensures
        match r {
            Some(rest) => has_prefix(s@, prefix@) && rest@ == after_prefix(s@, prefix@),
            None => !has_prefix(s@, prefix@),
        },
{
    if starts_with(s, prefix) {
        let n: usize = s.unicode_len();
        Some(cut(s, prefix.unicode_len(), n))
    } else {
        None
    }
}

/// What precedes a suffix, where the text has it.
pub(crate) fn strip_suffix<'a>(s: &'a str, suffix: &str) -> (r: Option<&'a str>)
    ensures
        match r {
            Some(rest) => has_suffix(s@, suffix@) && rest@ == before_suffix(s@, suffix@),
            None => !has_suffix(s@, suffix@),
        },
{
    if ends_with(s, suffix) {
        let n: usize = s.unicode_len();
        Some(cut(s, 0, n - suffix.unicode_len()))
    } else {
        None
    }
}

/// The parts of a text before and after a position of a one-character separator.
pub open spec fn around(s: Seq<char>, i: int) -> (Seq<char>, Seq<char>) {
    (s.subrange(0, i), s.subrange(i + 1, s.len() as int))
}

/// The text before and after the first separator.
pub(crate) fn split_once<'a>(s: &'a str, sep: char) -> (r: Option<(&'a str, &'a str)>)
    ensures
        match r {
            Some(pair) => position(s@, sep) is Some && pair.0@ == around(s@, position(s@, sep)->0).0 && pair.1@
                == around(s@, position(s@, sep)->0).1,
            None => position(s@, sep) is None,
        },
{
    let n: usize = s.unicode_len();
    match find_char(s, sep) {
        Some(i) => Some((cut(s, 0, i), cut(s, i + 1, n))),
        None => None,
    }
}

/// The text before and after the last separator.
pub(crate) fn rsplit_once<'a>(s: &'a str, sep: char) -> (r: Option<(&'a str, &'a str)>)
    ensures
        match r {
            Some(pair) => last_position(s@, sep) is Some && pair.0@ == around(s@, last_position(s@, sep)->0).0
                && pair.1@ == around(s@, last_position(s@, sep)->0).1,
            None => last_position(s@, sep) is None,
        },
{
    let n: usize = s.unicode_len();
    match rfind_char(s, sep) {
        Some(i) => Some((cut(s, 0, i), cut(s, i + 1, n))),
        None => None,
    }
}

/// The pieces of a text between separators.
pub open spec fn pieces(s: Seq<char>, sep: char) -> Seq<Seq<char>>
    decreases s.len(),
{
    proof {
        lemma_position(s, sep);
    }
    match position(s, sep) {
        Some(i) => seq![s.subrange(0, i)] + pieces(s.subrange(i + 1, s.len() as int), sep),
        None => seq![s],
    }
}

/// The pieces of a text between separators.
pub(crate) fn split<'a>(s: &'a str, sep: char) -> (r: Vec<&'a str>)
    ensures
        r.deep_view() == pieces(s@, sep),
{
    let mut out: Vec<&'a str> = Vec::new();
    let mut rest: &'a str = s;
    assert(out.deep_view() + pieces(rest@, sep) =~= pieces(s@, sep));
    loop
        invariant
            out.deep_view() + pieces(rest@, sep) == pieces(s@, sep),
        decreases rest@.len(),
    {
        proof {
            lemma_position(rest@, sep);
        }
        let ghost before = out.deep_view();
        match split_once(rest, sep) {
            Some((head, tail)) => {
                out.push(head);
                assert(out.deep_view() =~= before.push(head@));
                assert(out.deep_view() + pieces(tail@, sep) =~= before + (seq![head@] + pieces(tail@, sep)));
                rest = tail;
            },
            None => {
                out.push(rest);
                assert(out.deep_view() =~= before.push(rest@));
                assert(before.push(rest@) =~= before + seq![rest@]);
                return out;
            },
        }
    }
}

/// A line without a carriage return at its end.
pub open spec fn without_cr(s: Seq<char>) -> Seq<char> {
    if s.len() > 0 && s.last() == '\r' {
        s.drop_last()
    } else {
        s
    }
}

/// The lines of a text: cut at line feeds, which a carriage return may precede; a line feed
/// at the end opens no further line.
pub open spec fn lines_of(s: Seq<char>) -> Seq<Seq<char>>
    decreases s.len(),
{
    proof {
        lemma_position(s, '\n');
    }
    if s.len() == 0 {
        seq![]
    } else {
        match position(s, '\n') {
            Some(i) => seq![without_cr(s.subrange(0, i))] + lines_of(s.subrange(i + 1, s.len() as int)),
            None => seq![s],
        }
    }
}

/// The lines of a text.
pub(crate) fn lines<'a>(s: &'a str) -> (r: Vec<&'a str>)
    ensures
        r.deep_view() == lines_of(s@),
{
    let mut out: Vec<&'a str> = Vec::new();
    let mut rest: &'a str = s;
    assert(out.deep_view() + lines_of(rest@) =~= lines_of(s@));
    loop
        invariant
            out.deep_view() + lines_of(rest@) == lines_of(s@),
        decreases rest@.len(),
    {
        proof {
            lemma_position(rest@, '\n');
        }
        let ghost before = out.deep_view();
        if rest.is_empty() {
            assert(out.deep_view() + lines_of(rest@) =~= out.deep_view());
            return out;
        }
        match split_once(rest, '\n') {
            Some((head, tail)) => {
                let n: usize = head.unicode_len();
                let line = if n > 0 && head.get_char(n - 1) == '\r' {
                    let l = cut(head, 0, n - 1);
                    assert(l@ =~= head@.drop_last());
                    l
                } else {
                    head
                };
                out.push(line);
                assert(out.deep_view() =~= before.push(without_cr(head@)));
                assert(out.deep_view() + lines_of(tail@) =~= before + (seq![without_cr(head@)] + lines_of(tail@)));
                rest = tail;
            },
            None => {
                out.push(rest);
                assert(out.deep_view() =~= before.push(rest@));
                assert(before.push(rest@) =~= before + seq![rest@]);
                return out;
            },
        }
    }
}

// ------------------------------------------------------------------- joining

/// An owned copy of a text.
pub fn owned(s: &str) -> (r: String)
    ensures
        r@ == s@,
{
    String::from_str(s)
}

/// Two texts in a row.
pub(crate) fn text2(a: &str, b: &str) -> (r: String)
    ensures
        r@ == a@ + b@,
{
    let mut r = owned(a);
    r.append(b);
    r
}

/// Three texts in a row.
pub(crate) fn text3(a: &str, b: &str, c: &str) -> (r: String)
    ensures
        r@ == a@ + b@ + c@,
{
    let mut r = text2(a, b);
    r.append(c);
    r
}

/// Four texts in a row.
pub(crate) fn text4(a: &str, b: &str, c: &str, d: &str) -> (r: String)
    ensures
        r@ == a@ + b@ + c@ + d@,
{
    let mut r = text3(a, b, c);
    r.append(d);
    r
}

/// Five texts in a row.
pub(crate) fn text5(a: &str, b: &str, c: &str, d: &str, e: &str) -> (r: String)
    ensures
        r@ == a@ + b@ + c@ + d@ + e@,
{
    let mut r = text4(a, b, c, d);
    r.append(e);
    r
}

/// Six texts in a row.
pub(crate) fn text6(a: &str, b: &str, c: &str, d: &str, e: &str, f: &str) -> (r: String)
    ensures
        r@ == a@ + b@ + c@ + d@ + e@ + f@,
{
    let mut r = text5(a, b, c, d, e);
    r.append(f);
    r
}

/// Seven texts in a row.
pub(crate) fn text7(a: &str, b: &str, c: &str, d: &str, e: &str, f: &str, g: &str) -> (r: String)
    ensures
        r@ == a@ + b@ + c@ + d@ + e@ + f@ + g@,
{
    let mut r = text6(a, b, c, d, e, f);
    r.append(g);
    r
}

/// Texts with a separator between each two.
pub open spec fn joined(parts: Seq<Seq<char>>, sep: Seq<char>) -> Seq<char>
    decreases parts.len(),
{
    if parts.len() == 0 {
        seq![]
    } else if parts.len() == 1 {
        parts[0]
    } else {
        joined(parts.drop_last(), sep) + sep + parts.last()
    }
}

/// The texts with a separator between each two.
pub fn join(parts: &Vec<String>, sep: &str) -> (r: String)
    ensures
        r@ == joined(parts.deep_view(), sep@),
{
    let mut r = String::new();
    let mut i: usize = 0;
    let ghost all = parts.deep_view();
    assert(all.take(0) =~= seq![]);
    while i < parts.len()
        invariant
            i <= parts.len(),
            all == parts.deep_view(),
            r@ == joined(all.take(i as int), sep@),
        decreases parts.len() - i,
    {
        assert(all.take(i + 1).drop_last() =~= all.take(i as int));
        assert(all.take(i + 1).last() == parts@[i as int]@);
        if i > 0 {
            r.append(sep);
        } else {
            assert(r@ + parts@[i as int]@ =~= parts@[i as int]@);
        }
        r.append(parts[i].as_str());
        i += 1;
    }
    assert(all.take(parts.len() as int) =~= all);
    r
}

/// The list holds the text.
pub fn list_has(list: &Vec<String>, text: &str) -> (r: bool)
    ensures
        r == list.deep_view().contains(text@),
{
    let mut i: usize = 0;
    while i < list.len()
        invariant
            i <= list.len(),
            forall|j: int| 0 <= j < i ==> list.deep_view()[j] != text@,
        decreases list.len() - i,
    {
        if str_eq(list[i].as_str(), text) {
            assert(list.deep_view()[i as int] == text@);
            return true;
        }
        i += 1;
    }
    false
}

// ------------------------------------------------------------------- numbers

/// The character of a decimal digit.
pub open spec fn digit_char(d: int) -> char {
    ('0' as u32 + d) as char
}

/// A number in decimal digits.
pub open spec fn decimal_of(n: nat) -> Seq<char>
    decreases n,
{
    if n < 10 {
        seq![digit_char(n as int)]
    } else {
        decimal_of(n / 10).push(digit_char((n % 10) as int))
    }
}

/// A whole number in decimal digits, with a sign where it is negative.
pub open spec fn signed_decimal_of(n: int) -> Seq<char> {
    if n < 0 {
        "-"@ + decimal_of((-n) as nat)
    } else {
        decimal_of(n as nat)
    }
}

fn digit_text(d: u128) -> (r: &'static str)
    requires
        d < 10,
    ensures
        r@ == seq![digit_char(d as int)],
{
    proof {
        reveal_strlit("0");
        reveal_strlit("1");
        reveal_strlit("2");
        reveal_strlit("3");
        reveal_strlit("4");
        reveal_strlit("5");
        reveal_strlit("6");
        reveal_strlit("7");
        reveal_strlit("8");
        reveal_strlit("9");
    }
    let r = if d == 0 {
        "0"
    } else if d == 1 {
        "1"
    } else if d == 2 {
        "2"
    } else if d == 3 {
        "3"
    } else if d == 4 {
        "4"
    } else if d == 5 {
        "5"
    } else if d == 6 {
        "6"
    } else if d == 7 {
        "7"
    } else if d == 8 {
        "8"
    } else {
        "9"
    };
    assert(r@ =~= seq![digit_char(d as int)]);
    r
}

/// A number in decimal digits.
pub fn decimal(n: u128) -> (r: String)
    ensures
        r@ == decimal_of(n as nat),
    decreases n,
{
    if n < 10 {
        owned(digit_text(n))
    } else {
        let mut r = decimal(n / 10);
        let ghost before = r@;
        let d = digit_text(n % 10);
        r.append(d);
        assert(before + d@ =~= before.push(digit_char((n % 10) as int)));
        r
    }
}

/// A whole number in decimal digits, with a sign where it is negative.
pub fn signed_decimal(n: i128) -> (r: String)
    ensures
        r@ == signed_decimal_of(n as int),
{
    if n < 0 {
        let magnitude: u128 = if n == i128::MIN {
            170141183460469231731687303715884105728u128
        } else {
            (-n) as u128
        };
        text2("-", decimal(magnitude).as_str())
    } else {
        decimal(n as u128)
    }
}

/// The number that a text of decimal digits stands for; nothing where it holds another character.
pub open spec fn digits_value(s: Seq<char>) -> Option<nat>
    decreases s.len(),
{
    if s.len() == 0 {
        Some(0)
    } else {
        match digits_value(s.drop_last()) {
            Some(v) => if is_digit(s.last()) {
                Some(v * 10 + (s.last() as u32 - '0' as u32) as nat)
            } else {
                None
            },
            None => None,
        }
    }
}

/// The number that a text stands for where it is digits, perhaps after a plus sign, and the
/// number is not above `max`.
pub open spec fn unsigned_value(s: Seq<char>, max: nat) -> Option<nat> {
    let body = if s.len() > 0 && s[0] == '+' {
        s.drop_first()
    } else {
        s
    };
    if body.len() == 0 {
        None
    } else {
        match digits_value(body) {
            Some(v) => if v <= max {
                Some(v)
            } else {
                None
            },
            None => None,
        }
    }
}

/// The number that a text stands for where it is digits, perhaps after a sign, and the number
/// is within the bounds.
pub open spec fn signed_value(s: Seq<char>, min: int, max: int) -> Option<int> {
    if s.len() > 0 && s[0] == '-' {
        let body = s.drop_first();
        if body.len() == 0 {
            None
        } else {
            match digits_value(body) {
                Some(v) => if -(v as int) >= min {
                    Some(-(v as int))
                } else {
                    None
                },
                None => None,
            }
        }
    } else {
        match unsigned_value(s, max as nat) {
            Some(v) => Some(v as int),
            None => None,
        }
    }
}

proof fn lemma_digits_grow(s: Seq<char>, i: int)
    requires
        0 <= i <= s.len(),
    ensures
        digits_value(s) matches Some(v) ==> digits_value(s.take(i)) matches Some(w) && w <= v,
    decreases s.len() - i,
{
    if i == s.len() {
        assert(s.take(i) =~= s);
    } else {
        lemma_digits_grow(s, i + 1);
        assert(s.take(i + 1).drop_last() =~= s.take(i));
    }
}

fn parse_digits(v: &Vec<char>, from: usize, max: u128) -> (r: Option<u128>)
    requires
        from <= v.len(),
    ensures
        match r {
            Some(n) => from < v.len() && digits_value(v@.subrange(from as int, v.len() as int)) == Some(n as nat) && n
                <= max,
            None => from == v.len() || match digits_value(v@.subrange(from as int, v.len() as int)) {
                Some(n) => n > max,
                None => true,
            },
        },
{
    let ghost body = v@.subrange(from as int, v.len() as int);
    if from == v.len() {
        return None;
    }
    let mut n: u128 = 0;
    let mut i: usize = from;
    assert(body.take(0) =~= seq![]);
    while i < v.len()
        invariant
            from <= i <= v.len(),
            body == v@.subrange(from as int, v.len() as int),
            digits_value(body.take(i - from)) == Some(n as nat),
            n <= max,
        decreases v.len() - i,
    {
        let c = v[i];
        proof {
            assert(body.take(i - from + 1).drop_last() =~= body.take(i - from));
            assert(body.take(i - from + 1).last() == c);
            lemma_digits_grow(body, i - from + 1);
        }
        if !char_is_digit(c) {
            return None;
        }
        let d: u128 = (c as u32 - '0' as u32) as u128;
        let next = match n.checked_mul(10) {
            Some(m) => m.checked_add(d),
            None => None,
        };
        match next {
            Some(m) => {
                if m > max {
                    return None;
                }
                n = m;
            },
            None => {
                return None;
            },
        }
        i += 1;
    }
    assert(body.take(body.len() as int) =~= body);
    Some(n)
}

/// The number that a text of digits stands for, perhaps after a plus sign, up to `max`.
pub fn parse_unsigned(s: &str, max: u128) -> (r: Option<u128>)
    ensures
        match r {
            Some(n) => unsigned_value(s@, max as nat) == Some(n as nat) && n <= max,
            None => unsigned_value(s@, max as nat) is None,
        },
{
    let v = chars_of(s);
    assert(v@.subrange(0, v.len() as int) =~= v@);
    if v.len() > 0 && v[0] == '+' {
        assert(v@.subrange(1, v.len() as int) =~= v@.drop_first());
        parse_digits(&v, 1, max)
    } else {
        parse_digits(&v, 0, max)
    }
}

/// The number that a text of digits stands for, perhaps after a sign.
pub fn parse_signed(s: &str) -> (r: Option<i128>)
    ensures
        match r {
            Some(n) => signed_value(s@, i128::MIN as int, i128::MAX as int) == Some(n as int),
            None => signed_value(s@, i128::MIN as int, i128::MAX as int) is None,
        },
{
    let v = chars_of(s);
    if v.len() > 0 && v[0] == '-' {
        assert(v@.subrange(1, v.len() as int) =~= v@.drop_first());
        match parse_digits(&v, 1, 170141183460469231731687303715884105728u128) {
            Some(n) => {
                if n == 170141183460469231731687303715884105728u128 {
                    Some(i128::MIN)
                } else {
                    Some(-(n as i128))
                }
            },
            None => None,
        }
    } else {
        match parse_unsigned(s, i128::MAX as u128) {
            Some(n) => Some(n as i128),
            None => None,
        }
    }
}

/// Reading a number that was written in decimal gives the number back.
pub proof fn lemma_decimal_read_back(n: nat, max: nat)
    requires
        n <= max,
    ensures
        unsigned_value(decimal_of(n), max) == Some(n),
        decimal_of(n).len() > 0,
{
    lemma_decimal_digits(n);
}

/// A number has no white space at its ends, and is read back, or not at all where it is too large.
pub proof fn lemma_decimal_is_trimmed(n: nat, max: nat)
    ensures
        is_trimmed(decimal_of(n)),
        unsigned_value(decimal_of(n), max) == (if n <= max {
            Some(n)
        } else {
            None
        }),
{
    lemma_decimal_digits(n);
}

/// The decimal digits of a number hold neither a slash nor a tilde.
pub proof fn lemma_decimal_is_token(n: nat)
    ensures
        !decimal_of(n).contains('/'),
        !decimal_of(n).contains('~'),
        decimal_of(n).len() <= n + 1,
    decreases n,
{
    if n >= 10 {
        lemma_decimal_is_token(n / 10);
        let head = decimal_of(n / 10);
        let c = digit_char((n % 10) as int);
        assert forall|i: int| 0 <= i < decimal_of(n).len() implies decimal_of(n)[i] != '/' && decimal_of(n)[i] != '~' by {
            if i < head.len() {
                assert(decimal_of(n)[i] == head[i]);
                assert(head.contains(head[i]));
            } else {
                assert(decimal_of(n)[i] == c);
            }
        }
    }
}

proof fn lemma_decimal_digits(n: nat)
    ensures
        digits_value(decimal_of(n)) == Some(n),
        decimal_of(n).len() > 0,
        is_digit(decimal_of(n)[0]),
        is_digit(decimal_of(n).last()),
    decreases n,
{
    if n < 10 {
        let s = decimal_of(n);
        assert(s.drop_last() =~= seq![]);
        assert(digits_value(s.drop_last()) == Some(0nat));
    } else {
        lemma_decimal_digits(n / 10);
        let s = decimal_of(n);
        assert(s.drop_last() =~= decimal_of(n / 10));
    }
}

// ------------------------------------------------------------- what it is for

/// Texts put together between separators hold each of the texts, and one text alone is left as it
/// is.
pub proof fn lemma_joined_holds_each(parts: Seq<Seq<char>>, sep: Seq<char>, i: int)
    requires
        0 <= i < parts.len(),
    ensures
        contains_text(joined(parts, sep), parts[i]),
        parts.len() == 1 ==> joined(parts, sep) == parts[0],
    decreases parts.len(),
{
    let all = joined(parts, sep);
    if parts.len() == 1 {
        assert(all.subrange(0, all.len() as int) =~= parts[0]);
        assert(occurs_at(all, parts[0], 0));
    } else if i == parts.len() - 1 {
        let at = all.len() - parts[i].len();
        assert(all.subrange(at, at + parts[i].len()) =~= parts[i]);
        assert(occurs_at(all, parts[i], at));
    } else {
        let head = parts.drop_last();
        lemma_joined_holds_each(head, sep, i);
        assert(head[i] == parts[i]);
        let k = choose|k: int| #[trigger] occurs_at(joined(head, sep), head[i], k);
        assert(all.subrange(k, k + parts[i].len()) =~= joined(head, sep).subrange(k, k + parts[i].len()));
        assert(occurs_at(all, parts[i], k));
    }
}

/// What a text holds is held by any text that the text is a part of.
pub proof fn lemma_held_in_longer(before: Seq<char>, s: Seq<char>, after: Seq<char>, needle: Seq<char>)
    requires
        contains_text(s, needle),
    ensures
        contains_text(before + s + after, needle),
{
    let all = before + s + after;
    let k = choose|k: int| #[trigger] occurs_at(s, needle, k);
    let at = before.len() + k;
    assert(all.subrange(at, at + needle.len()) =~= s.subrange(k, k + needle.len()));
    assert(occurs_at(all, needle, at));
}

/// A text is cut at its separators: what stands before the first one is a piece, and the rest is cut
/// in the same way.
pub proof fn lemma_pieces_are_cut(piece: Seq<char>, rest: Seq<char>, sep: char)
    requires
        !piece.contains(sep),
    ensures
        pieces(piece, sep) == seq![piece],
        pieces(piece + seq![sep] + rest, sep) == seq![piece] + pieces(rest, sep),
{
    let whole = piece + seq![sep] + rest;
    lemma_position(piece, sep);
    lemma_position(whole, sep);
    assert(whole[piece.len() as int] == sep);
    assert(whole.contains(sep));
    let i = position(whole, sep)->0;
    if i < piece.len() {
        assert(piece[i] == whole[i]);
        assert(piece.contains(sep));
    }
    assert(i == piece.len());
    assert(whole.subrange(0, i) =~= piece);
    assert(whole.subrange(i + 1, whole.len() as int) =~= rest);
}

/// A text is cut into its lines: what stands before the first line break is a line, without the
/// carriage return at its end, and the rest is cut in the same way.
pub proof fn lemma_lines_are_cut(line: Seq<char>, rest: Seq<char>)
    requires
        !line.contains('\n'),
        line.len() > 0 ==> line.last() != '\r',
    ensures
        lines_of(line + seq!['\n'] + rest) == seq![line] + lines_of(rest),
        lines_of(line + seq!['\r', '\n'] + rest) == seq![line] + lines_of(rest),
        line.len() > 0 ==> lines_of(line) == seq![line],
{
    let whole = line + seq!['\n'] + rest;
    lemma_position(line, '\n');
    lemma_position(whole, '\n');
    assert(whole[line.len() as int] == '\n');
    assert(whole.contains('\n'));
    let i = position(whole, '\n')->0;
    if i < line.len() {
        assert(line[i] == whole[i]);
        assert(line.contains('\n'));
    }
    assert(i == line.len());
    assert(whole.subrange(0, i) =~= line);
    assert(whole.subrange(i + 1, whole.len() as int) =~= rest);
    let long = line + seq!['\r', '\n'] + rest;
    lemma_position(long, '\n');
    assert(long[line.len() as int + 1] == '\n');
    assert(long.contains('\n'));
    let j = position(long, '\n')->0;
    if j < line.len() {
        assert(line[j] == long[j]);
        assert(line.contains('\n'));
    }
    assert(long[line.len() as int] == '\r');
    assert(j == line.len() + 1);
    assert(long.subrange(0, j) =~= line.push('\r'));
    assert(long.subrange(0, j).drop_last() =~= line);
    assert(long.subrange(0, j).subrange(0, line.len() as int) =~= line);
    assert(long.subrange(j + 1, long.len() as int) =~= rest);
}

} // verus!
