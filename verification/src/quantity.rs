//! Kubernetes quantities: CPU in nano-cores, memory in bytes.
use crate::text;
use crate::text::{decimal, parse_signed, split_once, strip_suffix, text2, trim};
use vstd::prelude::*;
use vstd::string::*;

verus! {

/// A suffix and what one of it counts.
pub struct Unit {
    pub suffix: &'static str,
    pub scale: i128,
}

/// The view of [`Unit`].
pub struct UnitView {
    pub suffix: Seq<char>,
    pub scale: int,
}

impl DeepView for Unit {
    type V = UnitView;

    open spec fn deep_view(&self) -> UnitView {
        UnitView { suffix: self.suffix@, scale: self.scale as int }
    }
}

/// A whole number fits in 128 bits with a sign.
pub open spec fn fits(n: int) -> bool {
    i128::MIN <= n <= i128::MAX
}

/// A power of ten.
pub open spec fn pow10(n: nat) -> nat
    decreases n,
{
    if n == 0 {
        1
    } else {
        10 * pow10((n - 1) as nat)
    }
}

/// A quotient rounded towards zero.
pub open spec fn quotient(a: int, d: int) -> int {
    if a >= 0 {
        a / d
    } else {
        -((-a) / d)
    }
}

/// The whole number that a text stands for, within 128 bits.
pub open spec fn whole(s: Seq<char>) -> Option<int> {
    text::signed_value(s, i128::MIN as int, i128::MAX as int)
}

/// The part of a decimal before its point.
pub open spec fn before_point(s: Seq<char>) -> Seq<char> {
    match text::position(s, '.') {
        Some(i) => s.subrange(0, i),
        None => s,
    }
}

/// The part of a decimal after its point.
pub open spec fn after_point(s: Seq<char>) -> Seq<char> {
    match text::position(s, '.') {
        Some(i) => s.subrange(i + 1, s.len() as int),
        None => seq![],
    }
}

/// A decimal number of units in the smallest unit, rounded towards zero; nothing where the text
/// is no number or a step leaves 128 bits.
pub open spec fn decimal_scaled(number: Seq<char>, scale: int) -> Option<int> {
    let t = text::trimmed(number);
    match whole(before_point(t)) {
        Some(w) => if t.len() == 0 || !fits(w * scale) {
            None
        } else if after_point(t).len() == 0 {
            Some(w * scale)
        } else {
            match whole(after_point(t)) {
                Some(f) => {
                    let d = pow10(after_point(t).len()) as int;
                    let part = quotient(f * scale, d);
                    if fits(d) && fits(f * scale) && fits(w * scale + part) {
                        Some(w * scale + part)
                    } else {
                        None
                    }
                },
                None => None,
            }
        },
        None => None,
    }
}

/// A quantity in the smallest unit: the first unit whose suffix the text has decides.
pub open spec fn scaled_decimal(quantity: Seq<char>, units: Seq<UnitView>) -> Option<int>
    decreases units.len(),
{
    if units.len() == 0 {
        None
    } else {
        let suffix = units[0].suffix;
        if text::has_suffix(quantity, suffix) && (suffix.len() == 0 || text::before_suffix(quantity, suffix).len() > 0) {
            decimal_scaled(text::before_suffix(quantity, suffix), units[0].scale)
        } else {
            scaled_decimal(quantity, units.drop_first())
        }
    }
}

proof fn lemma_pow10_grows(m: nat, n: nat)
    requires
        m <= n,
    ensures
        pow10(m) <= pow10(n),
        pow10(m) >= 1,
    decreases n,
{
    if m < n {
        lemma_pow10_grows(m, (n - 1) as nat);
    } else if n > 0 {
        lemma_pow10_grows((n - 1) as nat, (n - 1) as nat);
    }
}

fn power_of_ten(n: usize) -> (r: Option<i128>)
    ensures
        match r {
            Some(p) => p == pow10(n as nat) && p >= 1,
            None => !fits(pow10(n as nat) as int),
        },
{
    let mut p: i128 = 1;
    let mut i: usize = 0;
    while i < n
        invariant
            i <= n,
            p == pow10(i as nat),
            p >= 1,
        decreases n - i,
    {
        match p.checked_mul(10) {
            Some(q) => {
                p = q;
            },
            None => {
                proof {
                    assert(pow10((i + 1) as nat) == 10 * pow10(i as nat));
                    lemma_pow10_grows((i + 1) as nat, n as nat);
                }
                return None;
            },
        }
        i += 1;
    }
    Some(p)
}

/// A decimal number of units in the smallest unit.
pub fn parse_decimal_scaled(number: &str, scale: i128) -> (r: Option<i128>)
    ensures
        match r {
            Some(n) => decimal_scaled(number@, scale as int) == Some(n as int),
            None => decimal_scaled(number@, scale as int) is None,
        },
{
    let t = trim(number);
    if t.is_empty() {
        return None;
    }
    let (head, tail) = match split_once(t, '.') {
        Some(pair) => pair,
        None => (t, ""),
    };
    proof {
        reveal_strlit("");
        assert(""@ =~= seq![]);
    }
    assert(head@ == before_point(t@));
    assert(tail@ == after_point(t@));
    let w: i128 = match parse_signed(head) {
        Some(w) => w,
        None => {
            return None;
        },
    };
    let total: i128 = match w.checked_mul(scale) {
        Some(total) => total,
        None => {
            return None;
        },
    };
    if tail.is_empty() {
        return Some(total);
    }
    let f: i128 = match parse_signed(tail) {
        Some(f) => f,
        None => {
            return None;
        },
    };
    let d: i128 = match power_of_ten(tail.unicode_len()) {
        Some(d) => d,
        None => {
            return None;
        },
    };
    let scaled: i128 = match f.checked_mul(scale) {
        Some(scaled) => scaled,
        None => {
            return None;
        },
    };
    let part: i128 = divide(scaled, d);
    total.checked_add(part)
}

/// A quotient rounded towards zero.
fn divide(a: i128, d: i128) -> (r: i128)
    requires
        d >= 1,
    ensures
        r == quotient(a as int, d as int),
{
    if a >= 0 {
        a / d
    } else if a == i128::MIN {
        if d == 1 {
            a
        } else {
            let rest: i128 = -(a + d);
            assert((-(a as int)) / (d as int) == rest as int / (d as int) + 1) by (nonlinear_arith)
                requires
                    rest as int == -(a as int) - d as int,
                    d >= 1,
            ;
            assert(rest as int / (d as int) < i128::MAX) by (nonlinear_arith)
                requires
                    0 <= rest as int <= i128::MAX,
                    d >= 2,
            ;
            -(rest / d + 1)
        }
    } else {
        assert(0 <= (-(a as int)) / (d as int) <= -(a as int)) by (nonlinear_arith)
            requires
                d >= 1,
                a < 0,
        ;
        -((-a) / d)
    }
}

/// A quantity in the smallest unit: the first unit whose suffix the text has decides.
pub fn parse_scaled_decimal(quantity: &str, units: &Vec<Unit>) -> (r: Option<i128>)
    ensures
        match r {
            Some(n) => scaled_decimal(quantity@, units.deep_view()) == Some(n as int),
            None => scaled_decimal(quantity@, units.deep_view()) is None,
        },
{
    let ghost all = units.deep_view();
    let mut i: usize = 0;
    assert(all.subrange(0, all.len() as int) =~= all);
    while i < units.len()
        invariant
            i <= units.len(),
            all == units.deep_view(),
            scaled_decimal(quantity@, all) == scaled_decimal(quantity@, all.subrange(i as int, all.len() as int)),
        decreases units.len() - i,
    {
        assert(all.subrange(i as int, all.len() as int).drop_first() =~= all.subrange(i + 1, all.len() as int));
        assert(all[i as int] == units@[i as int].deep_view());
        let suffix = units[i].suffix;
        match strip_suffix(quantity, suffix) {
            Some(number) => {
                if suffix.is_empty() || !number.is_empty() {
                    return parse_decimal_scaled(number, units[i].scale);
                }
            },
            None => {},
        }
        i += 1;
    }
    None
}

/// The units of CPU, in nano-cores.
pub open spec fn cpu_units() -> Seq<UnitView> {
    seq![
        UnitView { suffix: "n"@, scale: 1 },
        UnitView { suffix: "u"@, scale: 1_000 },
        UnitView { suffix: "m"@, scale: 1_000_000 },
        UnitView { suffix: ""@, scale: 1_000_000_000 },
    ]
}

/// The units of memory, in bytes.
pub open spec fn memory_units() -> Seq<UnitView> {
    seq![
        UnitView { suffix: "Ki"@, scale: 1_024 },
        UnitView { suffix: "Mi"@, scale: 1_048_576 },
        UnitView { suffix: "Gi"@, scale: 1_073_741_824 },
        UnitView { suffix: "Ti"@, scale: 1_099_511_627_776 },
        UnitView { suffix: "Pi"@, scale: 1_125_899_906_842_624 },
        UnitView { suffix: "Ei"@, scale: 1_152_921_504_606_846_976 },
        UnitView { suffix: "k"@, scale: 1_000 },
        UnitView { suffix: "M"@, scale: 1_000_000 },
        UnitView { suffix: "G"@, scale: 1_000_000_000 },
        UnitView { suffix: "T"@, scale: 1_000_000_000_000 },
        UnitView { suffix: "P"@, scale: 1_000_000_000_000_000 },
        UnitView { suffix: "E"@, scale: 1_000_000_000_000_000_000 },
        UnitView { suffix: ""@, scale: 1 },
    ]
}

/// An amount of CPU in nano-cores.
pub open spec fn cpu_quantity(quantity: Seq<char>) -> Option<int> {
    scaled_decimal(quantity, cpu_units())
}

/// An amount of memory in bytes.
pub open spec fn memory_quantity(quantity: Seq<char>) -> Option<int> {
    scaled_decimal(quantity, memory_units())
}

fn unit(suffix: &'static str, scale: i128) -> (r: Unit)
    ensures
        r.deep_view() == (UnitView { suffix: suffix@, scale: scale as int }),
{
    Unit { suffix, scale }
}

/// An amount of CPU in nano-cores.
pub fn parse_cpu_quantity(quantity: &str) -> (r: Option<i128>)
    ensures
        match r {
            Some(n) => cpu_quantity(quantity@) == Some(n as int),
            None => cpu_quantity(quantity@) is None,
        },
{
    let mut units: Vec<Unit> = Vec::new();
    units.push(unit("n", 1));
    units.push(unit("u", 1_000));
    units.push(unit("m", 1_000_000));
    units.push(unit("", 1_000_000_000));
    assert(units.deep_view() =~= cpu_units());
    parse_scaled_decimal(quantity, &units)
}

/// An amount of memory in bytes.
pub fn parse_memory_quantity(quantity: &str) -> (r: Option<i128>)
    ensures
        match r {
            Some(n) => memory_quantity(quantity@) == Some(n as int),
            None => memory_quantity(quantity@) is None,
        },
{
    let mut units: Vec<Unit> = Vec::new();
    units.push(unit("Ki", 1_024));
    units.push(unit("Mi", 1_048_576));
    units.push(unit("Gi", 1_073_741_824));
    units.push(unit("Ti", 1_099_511_627_776));
    units.push(unit("Pi", 1_125_899_906_842_624));
    units.push(unit("Ei", 1_152_921_504_606_846_976));
    units.push(unit("k", 1_000));
    units.push(unit("M", 1_000_000));
    units.push(unit("G", 1_000_000_000));
    units.push(unit("T", 1_000_000_000_000));
    units.push(unit("P", 1_000_000_000_000_000));
    units.push(unit("E", 1_000_000_000_000_000_000));
    units.push(unit("", 1));
    assert(units.deep_view() =~= memory_units());
    parse_scaled_decimal(quantity, &units)
}

/// An amount of CPU in milli-cores where it is whole in them, else in nano-cores; nothing for
/// a negative amount.
pub open spec fn cpu_text(cpu_nano: int) -> Option<Seq<char>> {
    if cpu_nano < 0 {
        None
    } else if cpu_nano % 1_000_000 == 0 {
        Some(text::decimal_of((cpu_nano / 1_000_000) as nat) + "m"@)
    } else {
        Some(text::decimal_of(cpu_nano as nat) + "n"@)
    }
}

/// An amount of CPU as a text.
pub fn format_cpu_quantity(cpu_nano: i128) -> (r: Option<String>)
    ensures
        r.deep_view() == cpu_text(cpu_nano as int),
{
    if cpu_nano < 0 {
        return None;
    }
    if cpu_nano % 1_000_000 == 0 {
        Some(text2(decimal((cpu_nano / 1_000_000) as u128).as_str(), "m"))
    } else {
        Some(text2(decimal(cpu_nano as u128).as_str(), "n"))
    }
}

/// An amount is at least one of a unit and whole in it.
pub open spec fn whole_in(amount: int, scale: int) -> bool {
    amount >= scale && amount % scale == 0
}

/// An amount of memory in the largest binary unit in which it is whole; nothing for a negative
/// amount.
pub open spec fn memory_text(bytes: int) -> Option<Seq<char>> {
    if bytes < 0 {
        None
    } else if whole_in(bytes, 1_152_921_504_606_846_976) {
        Some(text::decimal_of((bytes / 1_152_921_504_606_846_976) as nat) + "Ei"@)
    } else if whole_in(bytes, 1_125_899_906_842_624) {
        Some(text::decimal_of((bytes / 1_125_899_906_842_624) as nat) + "Pi"@)
    } else if whole_in(bytes, 1_099_511_627_776) {
        Some(text::decimal_of((bytes / 1_099_511_627_776) as nat) + "Ti"@)
    } else if whole_in(bytes, 1_073_741_824) {
        Some(text::decimal_of((bytes / 1_073_741_824) as nat) + "Gi"@)
    } else if whole_in(bytes, 1_048_576) {
        Some(text::decimal_of((bytes / 1_048_576) as nat) + "Mi"@)
    } else if whole_in(bytes, 1_024) {
        Some(text::decimal_of((bytes / 1_024) as nat) + "Ki"@)
    } else {
        Some(text::decimal_of(bytes as nat))
    }
}

fn in_unit(bytes: i128, scale: i128, suffix: &str) -> (r: String)
    requires
        bytes >= 0,
        scale >= 1,
    ensures
        r@ == text::decimal_of((bytes as int / scale as int) as nat) + suffix@,
{
    text2(decimal((bytes / scale) as u128).as_str(), suffix)
}

/// An amount of memory as a text.
pub fn format_memory_quantity(memory_bytes: i128) -> (r: Option<String>)
    ensures
        r.deep_view() == memory_text(memory_bytes as int),
{
    let b: i128 = memory_bytes;
    if b < 0 {
        None
    } else if b >= 1_152_921_504_606_846_976 && b % 1_152_921_504_606_846_976 == 0 {
        Some(in_unit(b, 1_152_921_504_606_846_976, "Ei"))
    } else if b >= 1_125_899_906_842_624 && b % 1_125_899_906_842_624 == 0 {
        Some(in_unit(b, 1_125_899_906_842_624, "Pi"))
    } else if b >= 1_099_511_627_776 && b % 1_099_511_627_776 == 0 {
        Some(in_unit(b, 1_099_511_627_776, "Ti"))
    } else if b >= 1_073_741_824 && b % 1_073_741_824 == 0 {
        Some(in_unit(b, 1_073_741_824, "Gi"))
    } else if b >= 1_048_576 && b % 1_048_576 == 0 {
        Some(in_unit(b, 1_048_576, "Mi"))
    } else if b >= 1_024 && b % 1_024 == 0 {
        Some(in_unit(b, 1_024, "Ki"))
    } else {
        Some(decimal(b as u128))
    }
}

// ------------------------------------------------------------------- laws

proof fn lemma_decimal_chars(n: nat)
    ensures
        text::decimal_of(n).len() > 0,
        forall|i: int| 0 <= i < text::decimal_of(n).len() ==> text::is_digit(#[trigger] text::decimal_of(n)[i]),
    decreases n,
{
    if n >= 10 {
        lemma_decimal_chars(n / 10);
    }
}

proof fn lemma_digits_scaled(n: nat, scale: int)
    requires
        fits(n as int),
        fits(n * scale),
    ensures
        decimal_scaled(text::decimal_of(n), scale) == Some(n * scale),
{
    let s = text::decimal_of(n);
    lemma_decimal_chars(n);
    text::lemma_decimal_read_back(n, i128::MAX as nat);
    assert(text::trim_start_of(s) == s) by {
        assert(text::is_digit(s[0]));
    }
    assert(text::trim_end_of(s) == s) by {
        assert(text::is_digit(s[s.len() - 1]));
    }
    text::lemma_position(s, '.');
    assert(text::position(s, '.') is None) by {
        if text::position(s, '.') is Some {
            assert(text::is_digit(s[text::position(s, '.')->0]));
        }
    }
    assert(before_point(s) == s);
    assert(after_point(s).len() == 0);
    assert(text::is_digit(s[0]));
    assert(whole(s) == Some(n as int));
}

proof fn lemma_strip_unit(digits: Seq<char>, suffix: Seq<char>)
    ensures
        text::has_suffix(digits + suffix, suffix),
        text::before_suffix(digits + suffix, suffix) == digits,
{
    let s = digits + suffix;
    assert(s.subrange(s.len() - suffix.len(), s.len() - suffix.len() + suffix.len()) =~= suffix);
    assert(s.subrange(0, s.len() - suffix.len()) =~= digits);
}

proof fn lemma_other_end(s: Seq<char>, suffix: Seq<char>)
    requires
        s.len() > 0,
        suffix.len() > 0,
        s.last() != suffix.last(),
    ensures
        !text::has_suffix(s, suffix),
{
    if text::has_suffix(s, suffix) {
        let from = s.len() - suffix.len();
        assert(s.subrange(from, from + suffix.len())[suffix.len() - 1] == s[s.len() - 1]);
    }
}

/// Reading an amount of CPU that was written gives the amount back.
pub proof fn lemma_cpu_read_back(cpu_nano: int)
    requires
        0 <= cpu_nano <= i128::MAX,
    ensures
        cpu_text(cpu_nano) matches Some(text) && cpu_quantity(text) == Some(cpu_nano),
{
    reveal_strlit("n");
    reveal_strlit("u");
    reveal_strlit("m");
    let units = cpu_units();
    reveal_with_fuel(scaled_decimal, 4);
    if cpu_nano % 1_000_000 == 0 {
        let k = (cpu_nano / 1_000_000) as nat;
        lemma_decimal_chars(k);
        let s = text::decimal_of(k) + "m"@;
        lemma_strip_unit(text::decimal_of(k), "m"@);
        lemma_other_end(s, "n"@);
        lemma_other_end(s, "u"@);
        lemma_digits_scaled(k, 1_000_000);
        assert(units.drop_first()[0] == units[1]);
        assert(units.drop_first().drop_first()[0] == units[2]);
        assert(scaled_decimal(s, units) == decimal_scaled(text::decimal_of(k), 1_000_000));
    } else {
        let k = cpu_nano as nat;
        lemma_decimal_chars(k);
        let s = text::decimal_of(k) + "n"@;
        lemma_strip_unit(text::decimal_of(k), "n"@);
        lemma_digits_scaled(k, 1);
        assert(scaled_decimal(s, units) == decimal_scaled(text::decimal_of(k), 1));
    }
}

proof fn lemma_memory_unit_read_back(k: nat, i: int, scale: int)
    requires
        0 <= i < 6,
        scale == memory_units()[i].scale,
        fits(k as int),
        fits(k * scale),
    ensures
        memory_quantity(text::decimal_of(k) + memory_units()[i].suffix) == Some(k * scale),
{
    reveal_strlit("Ki");
    reveal_strlit("Mi");
    reveal_strlit("Gi");
    reveal_strlit("Ti");
    reveal_strlit("Pi");
    reveal_strlit("Ei");
    let units = memory_units();
    let suffix = units[i].suffix;
    let s = text::decimal_of(k) + suffix;
    lemma_decimal_chars(k);
    lemma_strip_unit(text::decimal_of(k), suffix);
    lemma_digits_scaled(k, scale);
    lemma_skip_units(s, units, i);
    assert(units.subrange(i, units.len() as int)[0] == units[i]);
}

/// Units whose suffixes the text does not have are passed over.
proof fn lemma_skip_units(s: Seq<char>, units: Seq<UnitView>, i: int)
    requires
        0 <= i < 6,
        units == memory_units(),
        text::has_suffix(s, units[i].suffix),
    ensures
        scaled_decimal(s, units) == scaled_decimal(s, units.subrange(i, units.len() as int)),
    decreases i,
{
    assert forall|j: int| 0 <= j < i implies !text::has_suffix(s, #[trigger] units[j].suffix) by {
        reveal_strlit("Ki");
        reveal_strlit("Mi");
        reveal_strlit("Gi");
        reveal_strlit("Ti");
        reveal_strlit("Pi");
        reveal_strlit("Ei");
        if text::has_suffix(s, units[j].suffix) {
            let from = s.len() - 2;
            assert(s.subrange(from, from + 2)[0] == units[i].suffix[0]);
            assert(s.subrange(from, from + 2)[0] == units[j].suffix[0]);
        }
    }
    lemma_skip_to(s, units, i);
}

proof fn lemma_skip_to(s: Seq<char>, units: Seq<UnitView>, i: int)
    requires
        0 <= i <= units.len(),
        forall|j: int| 0 <= j < i ==> !text::has_suffix(s, #[trigger] units[j].suffix),
    ensures
        scaled_decimal(s, units) == scaled_decimal(s, units.subrange(i, units.len() as int)),
    decreases i,
{
    if i == 0 {
        assert(units.subrange(0, units.len() as int) =~= units);
    } else {
        lemma_skip_to(s, units, i - 1);
        let rest = units.subrange(i - 1, units.len() as int);
        assert(rest[0] == units[i - 1]);
        assert(rest.drop_first() =~= units.subrange(i, units.len() as int));
    }
}

/// Reading an amount of memory that was written gives the amount back.
pub proof fn lemma_memory_read_back(bytes: int)
    requires
        0 <= bytes <= i128::MAX,
    ensures
        memory_text(bytes) matches Some(text) && memory_quantity(text) == Some(bytes),
{
    if whole_in(bytes, 1_152_921_504_606_846_976) {
        lemma_memory_unit_read_back((bytes / 1_152_921_504_606_846_976) as nat, 5, 1_152_921_504_606_846_976);
    } else if whole_in(bytes, 1_125_899_906_842_624) {
        lemma_memory_unit_read_back((bytes / 1_125_899_906_842_624) as nat, 4, 1_125_899_906_842_624);
    } else if whole_in(bytes, 1_099_511_627_776) {
        lemma_memory_unit_read_back((bytes / 1_099_511_627_776) as nat, 3, 1_099_511_627_776);
    } else if whole_in(bytes, 1_073_741_824) {
        lemma_memory_unit_read_back((bytes / 1_073_741_824) as nat, 2, 1_073_741_824);
    } else if whole_in(bytes, 1_048_576) {
        lemma_memory_unit_read_back((bytes / 1_048_576) as nat, 1, 1_048_576);
    } else if whole_in(bytes, 1_024) {
        lemma_memory_unit_read_back((bytes / 1_024) as nat, 0, 1_024);
    } else {
        let k = bytes as nat;
        let s = text::decimal_of(k);
        let units = memory_units();
        lemma_decimal_chars(k);
        assert(text::is_digit(s[s.len() - 1]));
        assert forall|j: int| 0 <= j < 12 implies !text::has_suffix(s, #[trigger] units[j].suffix) by {
            reveal_strlit("Ki");
            reveal_strlit("Mi");
            reveal_strlit("Gi");
            reveal_strlit("Ti");
            reveal_strlit("Pi");
            reveal_strlit("Ei");
            reveal_strlit("k");
            reveal_strlit("M");
            reveal_strlit("G");
            reveal_strlit("T");
            reveal_strlit("P");
            reveal_strlit("E");
            lemma_other_end(s, units[j].suffix);
        }
        lemma_skip_to(s, units, 12);
        reveal_strlit("");
        let rest = units.subrange(12, 13);
        assert(rest[0] == units[12]);
        assert(s.subrange(s.len() as int, s.len() as int) =~= ""@);
        assert(s.subrange(0, s.len() as int) =~= s);
        lemma_digits_scaled(k, 1);
    }
}

// ------------------------------------------------------------- what it is for

proof fn lemma_decimal_unit_read(k: nat, i: int, scale: int)
    requires
        6 <= i < 12,
        scale == memory_units()[i].scale,
        fits(k as int),
        fits(k * scale),
    ensures
        memory_quantity(text::decimal_of(k) + memory_units()[i].suffix) == Some(k * scale),
{
    let units = memory_units();
    let suffix = units[i].suffix;
    let s = text::decimal_of(k) + suffix;
    reveal_strlit("Ki");
    reveal_strlit("Mi");
    reveal_strlit("Gi");
    reveal_strlit("Ti");
    reveal_strlit("Pi");
    reveal_strlit("Ei");
    reveal_strlit("k");
    reveal_strlit("M");
    reveal_strlit("G");
    reveal_strlit("T");
    reveal_strlit("P");
    reveal_strlit("E");
    lemma_decimal_chars(k);
    lemma_strip_unit(text::decimal_of(k), suffix);
    lemma_digits_scaled(k, scale);
    assert(s.last() == suffix.last());
    assert forall|j: int| 0 <= j < i implies !text::has_suffix(s, #[trigger] units[j].suffix) by {
        lemma_other_end(s, units[j].suffix);
    }
    lemma_skip_to(s, units, i);
    assert(units.subrange(i, units.len() as int)[0] == units[i]);
}

#[verifier::rlimit(50)]
proof fn lemma_binary_units(k: nat)
    requires
        k <= u64::MAX,
    ensures
        memory_quantity(text::decimal_of(k) + "Ki"@) == Some((k * 1024) as int),
        memory_quantity(text::decimal_of(k) + "Mi"@) == Some((k * 1024 * 1024) as int),
        memory_quantity(text::decimal_of(k) + "Gi"@) == Some((k * 1024 * 1024 * 1024) as int),
        memory_quantity(text::decimal_of(k) + "Ti"@) == Some((k * 1024 * 1024 * 1024 * 1024) as int),
        memory_quantity(text::decimal_of(k) + "Pi"@) == Some((k * 1024 * 1024 * 1024 * 1024 * 1024) as int),
        memory_quantity(text::decimal_of(k) + "Ei"@) == Some((k * 1024 * 1024 * 1024 * 1024 * 1024 * 1024) as int),
{
    lemma_memory_unit_read_back(k, 0, 1_024);
    lemma_memory_unit_read_back(k, 1, 1_048_576);
    lemma_memory_unit_read_back(k, 2, 1_073_741_824);
    lemma_memory_unit_read_back(k, 3, 1_099_511_627_776);
    lemma_memory_unit_read_back(k, 4, 1_125_899_906_842_624);
    lemma_memory_unit_read_back(k, 5, 1_152_921_504_606_846_976);
}

#[verifier::rlimit(50)]
proof fn lemma_decimal_units(k: nat)
    requires
        k <= u64::MAX,
    ensures
        memory_quantity(text::decimal_of(k) + "k"@) == Some((k * 1000) as int),
        memory_quantity(text::decimal_of(k) + "M"@) == Some((k * 1000 * 1000) as int),
        memory_quantity(text::decimal_of(k) + "G"@) == Some((k * 1000 * 1000 * 1000) as int),
        memory_quantity(text::decimal_of(k) + "T"@) == Some((k * 1000 * 1000 * 1000 * 1000) as int),
        memory_quantity(text::decimal_of(k) + "P"@) == Some((k * 1000 * 1000 * 1000 * 1000 * 1000) as int),
        memory_quantity(text::decimal_of(k) + "E"@) == Some((k * 1000 * 1000 * 1000 * 1000 * 1000 * 1000) as int),
{
    lemma_decimal_unit_read(k, 6, 1_000);
    lemma_decimal_unit_read(k, 7, 1_000_000);
    lemma_decimal_unit_read(k, 8, 1_000_000_000);
    lemma_decimal_unit_read(k, 9, 1_000_000_000_000);
    lemma_decimal_unit_read(k, 10, 1_000_000_000_000_000);
    lemma_decimal_unit_read(k, 11, 1_000_000_000_000_000_000);
}

/// An amount of memory is the number times its unit: the binary units are powers of 1024, the
/// decimal ones powers of 1000, and without a unit it is in bytes.
#[verifier::rlimit(50)]
pub proof fn lemma_memory_by_unit(k: nat)
    requires
        k <= u64::MAX,
    ensures
        memory_quantity(text::decimal_of(k)) == Some(k as int),
        memory_quantity(text::decimal_of(k) + "Ki"@) == Some((k * 1024) as int),
        memory_quantity(text::decimal_of(k) + "Mi"@) == Some((k * 1024 * 1024) as int),
        memory_quantity(text::decimal_of(k) + "Gi"@) == Some((k * 1024 * 1024 * 1024) as int),
        memory_quantity(text::decimal_of(k) + "Ti"@) == Some((k * 1024 * 1024 * 1024 * 1024) as int),
        memory_quantity(text::decimal_of(k) + "Pi"@) == Some((k * 1024 * 1024 * 1024 * 1024 * 1024) as int),
        memory_quantity(text::decimal_of(k) + "Ei"@) == Some((k * 1024 * 1024 * 1024 * 1024 * 1024 * 1024) as int),
        memory_quantity(text::decimal_of(k) + "k"@) == Some((k * 1000) as int),
        memory_quantity(text::decimal_of(k) + "M"@) == Some((k * 1000 * 1000) as int),
        memory_quantity(text::decimal_of(k) + "G"@) == Some((k * 1000 * 1000 * 1000) as int),
        memory_quantity(text::decimal_of(k) + "T"@) == Some((k * 1000 * 1000 * 1000 * 1000) as int),
        memory_quantity(text::decimal_of(k) + "P"@) == Some((k * 1000 * 1000 * 1000 * 1000 * 1000) as int),
        memory_quantity(text::decimal_of(k) + "E"@) == Some((k * 1000 * 1000 * 1000 * 1000 * 1000 * 1000) as int),
{
    lemma_binary_units(k);
    lemma_decimal_units(k);
    lemma_plain_memory(k);
}

proof fn lemma_plain_memory(k: nat)
    requires
        k <= u64::MAX,
    ensures
        memory_quantity(text::decimal_of(k)) == Some(k as int),
{
    let s = text::decimal_of(k);
    let units = memory_units();
    lemma_decimal_chars(k);
    assert(text::is_digit(s[s.len() - 1]));
    assert forall|j: int| 0 <= j < 12 implies !text::has_suffix(s, #[trigger] units[j].suffix) by {
        reveal_strlit("Ki");
        reveal_strlit("Mi");
        reveal_strlit("Gi");
        reveal_strlit("Ti");
        reveal_strlit("Pi");
        reveal_strlit("Ei");
        reveal_strlit("k");
        reveal_strlit("M");
        reveal_strlit("G");
        reveal_strlit("T");
        reveal_strlit("P");
        reveal_strlit("E");
        lemma_other_end(s, units[j].suffix);
    }
    lemma_skip_to(s, units, 12);
    reveal_strlit("");
    let rest = units.subrange(12, 13);
    assert(rest[0] == units[12]);
    assert(s.subrange(s.len() as int, s.len() as int) =~= ""@);
    assert(s.subrange(0, s.len() as int) =~= s);
    lemma_digits_scaled(k, 1);
}

/// An amount of CPU is in cores, or in thousandths, millionths or billionths of one by its unit; it
/// is read in billionths.
pub proof fn lemma_cpu_by_unit(k: nat)
    requires
        k <= u64::MAX,
    ensures
        cpu_quantity(text::decimal_of(k)) == Some((k * 1_000_000_000) as int),
        cpu_quantity(text::decimal_of(k) + "m"@) == Some((k * 1_000_000) as int),
        cpu_quantity(text::decimal_of(k) + "u"@) == Some((k * 1_000) as int),
        cpu_quantity(text::decimal_of(k) + "n"@) == Some(k as int),
{
    reveal_strlit("n");
    reveal_strlit("u");
    reveal_strlit("m");
    reveal_strlit("");
    let units = cpu_units();
    let s = text::decimal_of(k);
    lemma_decimal_chars(k);
    assert(text::is_digit(s[s.len() - 1]));
    lemma_digits_scaled(k, 1_000_000_000);
    lemma_digits_scaled(k, 1_000_000);
    lemma_digits_scaled(k, 1_000);
    lemma_digits_scaled(k, 1);
    lemma_strip_unit(s, "n"@);
    lemma_strip_unit(s, "u"@);
    lemma_strip_unit(s, "m"@);
    lemma_strip_unit(s, ""@);
    assert(s + ""@ =~= s);
    lemma_other_end(s, "n"@);
    lemma_other_end(s, "u"@);
    lemma_other_end(s, "m"@);
    lemma_other_end(s + "u"@, "n"@);
    lemma_other_end(s + "m"@, "n"@);
    lemma_other_end(s + "m"@, "u"@);
    lemma_skip_to(s, units, 3);
    lemma_skip_to(s + "m"@, units, 2);
    lemma_skip_to(s + "u"@, units, 1);
    lemma_skip_to(s + "n"@, units, 0);
    assert(units.subrange(3, 4)[0] == units[3]);
    assert(units.subrange(2, 4)[0] == units[2]);
    assert(units.subrange(1, 4)[0] == units[1]);
    assert(units.subrange(0, 4)[0] == units[0]);
}

/// A number with a point counts its fraction: so many tenths of the unit.
pub proof fn lemma_tenths_count(w: nat, f: nat, scale: int)
    requires
        w <= u32::MAX,
        f < 10,
        0 < scale <= u64::MAX,
        scale % 10 == 0,
    ensures
        decimal_scaled(text::decimal_of(w) + "."@ + text::decimal_of(f), scale) == Some(w * scale + f * (scale / 10)),
{
    reveal_strlit(".");
    let a = text::decimal_of(w);
    let b = text::decimal_of(f);
    let s = a + "."@ + b;
    lemma_decimal_chars(w);
    lemma_decimal_chars(f);
    text::lemma_decimal_read_back(w, i128::MAX as nat);
    text::lemma_decimal_read_back(f, i128::MAX as nat);
    assert(text::is_digit(a[0]) && text::is_digit(b[0]));
    assert(s[0] == a[0]);
    assert(s.last() == b.last());
    assert(b.len() == 1);
    assert(text::trim_start_of(s) == s);
    assert(text::trim_end_of(s) == s);
    text::lemma_position(s, '.');
    assert(s[a.len() as int] == '.');
    assert(s.contains('.'));
    assert(text::position(s, '.') == Some(a.len() as int)) by {
        let i = text::position(s, '.')->0;
        if i < a.len() {
            assert(text::is_digit(a[i]));
        }
    }
    assert(before_point(s) =~= a);
    assert(after_point(s) =~= b);
    assert(whole(a) == Some(w as int));
    assert(whole(b) == Some(f as int));
    reveal_with_fuel(pow10, 2);
    assert(pow10(1) == 10);
    assert(w * scale <= u32::MAX * u64::MAX && w * scale >= 0 && f * scale <= 9 * u64::MAX && f * scale >= 0) by (
    nonlinear_arith)
        requires
            0 <= w <= u32::MAX,
            0 <= f < 10,
            0 < scale <= u64::MAX,
    ;
    assert(f * scale / 10 == f * (scale / 10)) by (nonlinear_arith)
        requires
            scale % 10 == 0,
            0 <= f < 10,
    ;
}

/// An amount that is less than nothing is not written, and a text without a number is no amount.
pub proof fn lemma_no_amount(n: int)
    requires
        n < 0,
    ensures
        cpu_text(n) is None,
        memory_text(n) is None,
        cpu_quantity(""@) is None,
        memory_quantity(""@) is None,
{
    reveal_strlit("");
    lemma_empty_is_no_amount(cpu_units());
    lemma_empty_is_no_amount(memory_units());
}

proof fn lemma_empty_is_no_amount(units: Seq<UnitView>)
    ensures
        scaled_decimal(""@, units) is None,
    decreases units.len(),
{
    reveal_strlit("");
    if units.len() > 0 {
        lemma_empty_is_no_amount(units.drop_first());
        let t = text::before_suffix(""@, units[0].suffix);
        if text::has_suffix(""@, units[0].suffix) {
            assert(t.len() == 0);
            assert(text::trimmed(t).len() == 0);
            assert(decimal_scaled(t, units[0].scale) is None);
        }
    }
}

} // verus!
