//! Decimal text of unsigned integers, and joining of text fragments.
//!
//! Integers travel as text in several places of the wire format. This module
//! says what the decimal text of a number is, what number a text stands for,
//! and proves that the two are inverse to each other.

use vstd::prelude::*;
use vstd::string::*;

verus! {

/// `c` is one of the ten decimal digits.
pub open spec fn is_digit(c: char) -> bool {
    '0' <= c && c <= '9'
}

/// The number that the decimal digit `c` stands for.
pub open spec fn digit_value(c: char) -> nat {
    (c as u32 - 48) as nat
}

/// The decimal digit for `d`, where `d` is below ten.
pub open spec fn digit_char(d: nat) -> char {
    ((d + 48) as u8) as char
}

/// Every character of `s` is a decimal digit.
pub open spec fn all_digits(s: Seq<char>) -> bool {
    forall|i: int| 0 <= i < s.len() ==> is_digit(#[trigger] s[i])
}

/// The number written by the digits `s`, most significant first; 0 for no digits.
pub open spec fn digits_value(s: Seq<char>) -> nat
    decreases s.len(),
{
    if s.len() == 0 {
        0
    } else {
        digits_value(s.drop_last()) * 10 + digit_value(s.last())
    }
}

/// The decimal text of `v`: no sign, no leading zero but for 0 itself.
pub open spec fn decimal(v: nat) -> Seq<char>
    decreases v,
{
    if v < 10 {
        seq![digit_char(v)]
    } else {
        decimal(v / 10).push(digit_char(v % 10))
    }
}

/// `s` without one leading plus sign, if it has one.
pub open spec fn unsigned_part(s: Seq<char>) -> Seq<char> {
    if s.len() > 0 && s[0] == '+' {
        s.subrange(1, s.len() as int)
    } else {
        s
    }
}

/// The number that the text `s` stands for: an optional plus sign, then one or
/// more decimal digits and nothing else, with a value that fits 64 bits.
/// Every other text stands for no number.
pub open spec fn parse_u64_spec(s: Seq<char>) -> Option<u64> {
    let digits = unsigned_part(s);
    if digits.len() > 0 && all_digits(digits) && digits_value(digits) <= u64::MAX {
        Some(digits_value(digits) as u64)
    } else {
        None
    }
}

/// The fragments `parts` written one after another with `sep` between neighbours.
pub open spec fn join_spec(parts: Seq<Seq<char>>, sep: Seq<char>) -> Seq<char>
    decreases parts.len(),
{
    if parts.len() == 0 {
        Seq::empty()
    } else if parts.len() == 1 {
        parts[0]
    } else {
        join_spec(parts.drop_last(), sep) + sep + parts.last()
    }
}

/// The views of the strings of `parts`, in order.
pub open spec fn texts(parts: Seq<String>) -> Seq<Seq<char>> {
    Seq::new(parts.len(), |i: int| parts[i]@)
}

/// The views of the string slices of `parts`, in order.
pub open spec fn slice_texts(parts: Seq<&str>) -> Seq<Seq<char>> {
    Seq::new(parts.len(), |i: int| parts[i]@)
}

/// The decimal text of a number consists of digits, is not empty, and writes that number.
pub proof fn lemma_decimal_digits(v: nat)
    ensures
        decimal(v).len() > 0,
        all_digits(decimal(v)),
        digits_value(decimal(v)) == v,
    decreases v,
{
    if v < 10 {
        let s = decimal(v);
        assert(s.drop_last().len() == 0);
        assert(digits_value(s.drop_last()) == 0);
        assert(s.last() == digit_char(v));
    } else {
        lemma_decimal_digits(v / 10);
        let s = decimal(v);
        assert(s.drop_last() =~= decimal(v / 10));
        assert(s.last() == digit_char(v % 10));
        assert forall|i: int| 0 <= i < s.len() implies is_digit(#[trigger] s[i]) by {
            if i < s.len() - 1 {
                assert(s[i] == decimal(v / 10)[i]);
            }
        }
    }
}

/// Reading the decimal text of a 64-bit number gives that number back.
pub proof fn lemma_decimal_roundtrip(v: u64)
    ensures
        parse_u64_spec(decimal(v as nat)) == Some(v),
{
    lemma_decimal_digits(v as nat);
    let s = decimal(v as nat);
    assert(is_digit(s[0]));
    assert(unsigned_part(s) == s);
}

/// `s` is written as `decimal` writes: digits only, at least one, and no
/// leading zero but in the text of 0 itself.
pub open spec fn is_canonical(s: Seq<char>) -> bool {
    &&& s.len() > 0
    &&& all_digits(s)
    &&& s.len() > 1 ==> s[0] != '0'
}

/// Digits that do not start with a zero write a number above zero.
proof fn lemma_digits_value_positive(s: Seq<char>)
    requires
        s.len() > 0,
        all_digits(s),
        s[0] != '0',
    ensures
        digits_value(s) >= 1,
    decreases s.len(),
{
    if s.len() == 1 {
        assert(s.drop_last().len() == 0);
        assert(digits_value(s.drop_last()) == 0);
        assert(is_digit(s[0]));
    } else {
        let front = s.drop_last();
        assert(front[0] == s[0]);
        assert forall|i: int| 0 <= i < front.len() implies is_digit(#[trigger] front[i]) by {
            assert(front[i] == s[i]);
        }
        lemma_digits_value_positive(front);
    }
}

/// The decimal text of a number is canonical.
pub proof fn lemma_decimal_is_canonical(v: nat)
    ensures
        is_canonical(decimal(v)),
    decreases v,
{
    lemma_decimal_digits(v);
    if v >= 10 {
        lemma_decimal_is_canonical(v / 10);
        lemma_decimal_digits(v / 10);
        let front = decimal(v / 10);
        assert(decimal(v)[0] == front[0]);
        if front.len() == 1 {
            assert(front.drop_last().len() == 0);
            assert(digits_value(front.drop_last()) == 0);
            assert(digits_value(front) == digit_value(front[0]));
            assert(is_digit(front[0]));
        }
    }
}

/// A canonical text is, letter for letter, the decimal text of the number that it writes.
pub proof fn lemma_canonical_roundtrip(s: Seq<char>)
    requires
        is_canonical(s),
    ensures
        decimal(digits_value(s)) == s,
    decreases s.len(),
{
    let last = s.last();
    assert(is_digit(last));
    assert(digit_char(digit_value(last)) == last);
    if s.len() == 1 {
        assert(s.drop_last().len() == 0);
        assert(digits_value(s.drop_last()) == 0);
        assert(decimal(digits_value(s)) =~= s);
    } else {
        let front = s.drop_last();
        assert(front[0] == s[0]);
        assert forall|i: int| 0 <= i < front.len() implies is_digit(#[trigger] front[i]) by {
            assert(front[i] == s[i]);
        }
        lemma_digits_value_positive(front);
        lemma_canonical_roundtrip(front);
        let v = digits_value(s);
        assert(v == digits_value(front) * 10 + digit_value(last));
        assert(v / 10 == digits_value(front));
        assert(v % 10 == digit_value(last));
        assert(decimal(v) =~= s);
    }
}

/// The digits read so far never write more than the whole text does.
pub proof fn lemma_digits_value_prefix(s: Seq<char>, k: int)
    requires
        0 <= k <= s.len(),
    ensures
        digits_value(s.subrange(0, k)) <= digits_value(s),
    decreases s.len() - k,
{
    if k == s.len() {
        assert(s.subrange(0, k) =~= s);
    } else {
        lemma_digits_value_prefix(s.drop_last(), k);
        assert(s.drop_last().subrange(0, k) =~= s.subrange(0, k));
    }
}

/// The decimal digit of `c`, if it is one.
pub fn digit_of(c: char) -> (d: Option<u8>)
    ensures
        d is Some <==> is_digit(c),
        d matches Some(v) ==> v as nat == digit_value(c) && v < 10,
{
    if c >= '0' && c <= '9' {
        Some((c as u32 - 48) as u8)
    } else {
        None
    }
}

/// The one-character text of the digit `d`.
fn digit_text(d: u8) -> (s: &'static str)
    requires
        d < 10,
    ensures
        s@ == seq![digit_char(d as nat)],
{
    proof {
        reveal_strlit("0");
        reveal_strlit("1");
        reveal_strlit("2");
        reveal_strlit("3");
        reveal_strlit("4");
        reveal_strlit("5");
        reveal_strlit("6");
        reveal_strlit("7");
        reveal_strlit("8");
        reveal_strlit("9");
    }
    let s = if d == 0 {
        "0"
    } else if d == 1 {
        "1"
    } else if d == 2 {
        "2"
    } else if d == 3 {
        "3"
    } else if d == 4 {
        "4"
    } else if d == 5 {
        "5"
    } else if d == 6 {
        "6"
    } else if d == 7 {
        "7"
    } else if d == 8 {
        "8"
    } else {
        "9"
    };
    assert(s@ =~= seq![digit_char(d as nat)]);
    s
}

/// Writes `v` in decimal.
pub fn decimal_string(v: u64) -> (s: String)
    ensures
        s@ == decimal(v as nat),
{
    let mut acc = String::from_str(digit_text((v % 10) as u8));
    let mut rest: u64 = v / 10;
    assert(v < 10 ==> rest == 0);
    while rest > 0
        invariant
            rest == 0 ==> decimal(v as nat) == acc@,
            rest > 0 ==> decimal(v as nat) == decimal(rest as nat) + acc@,
        decreases rest,
    {
        let digit = String::from_str(digit_text((rest % 10) as u8));
        let ghost before = acc@;
        acc = digit.concat(acc.as_str());
        proof {
            let r = rest as nat;
            if r < 10 {
                assert(decimal(r) =~= seq![digit_char(r % 10)]);
            } else {
                assert(decimal(r) =~= decimal(r / 10) + seq![digit_char(r % 10)]);
                assert(decimal(r / 10) + seq![digit_char(r % 10)] + before =~= decimal(r / 10) + (
                seq![digit_char(r % 10)] + before));
            }
        }
        rest = rest / 10;
    }
    acc
}

/// Reads a 64-bit unsigned number from its decimal text.
pub fn parse_u64(s: &str) -> (r: Option<u64>)
    ensures
        r == parse_u64_spec(s@),
{
    let mut acc: u64 = 0;
    let mut first = true;
    let mut signed = false;
    let mut any = false;
    for c in it: s.chars()
        invariant
            it.seq() == s@,
            first == (it.index() == 0),
            signed == (it.index() > 0 && s@[0] == '+'),
            any == (it.index() > (if signed { 1int } else { 0int })),
            ({
                let start: int = if signed { 1 } else { 0 };
                let read = s@.subrange(start, it.index() as int);
                &&& all_digits(read)
                &&& acc == digits_value(read)
            }),
    {
        let ghost k = it.index() as int;
        let ghost start: int = if signed { 1 } else { 0 };
        if first && c == '+' {
            first = false;
            signed = true;
            assert(s@.subrange(1, 1) =~= Seq::<char>::empty());
        } else {
            first = false;
            let ghost digits = unsigned_part(s@);
            assert(digits[k - start] == c);
            match digit_of(c) {
                None => {
                    return None;
                },
                Some(d) => {
                    let ghost read = s@.subrange(start, k);
                    let ghost next = s@.subrange(start, k + 1);
                    proof {
                        assert(next.drop_last() =~= read);
                        assert(next.last() == c);
                        assert(next =~= digits.subrange(0, k + 1 - start));
                        if all_digits(digits) {
                            lemma_digits_value_prefix(digits, k + 1 - start);
                        }
                    }
                    if acc > (u64::MAX - d as u64) / 10 {
                        return None;
                    }
                    acc = acc * 10 + d as u64;
                    any = true;
                },
            }
        }
    }
    proof {
        let start: int = if signed { 1 } else { 0 };
        assert(s@.subrange(start, s@.len() as int) =~= unsigned_part(s@));
    }
    if !any {
        None
    } else {
        Some(acc)
    }
}

/// Writes the strings of `parts` one after another with `sep` between neighbours.
pub fn join(parts: &Vec<String>, sep: &str) -> (joined: String)
    ensures
        joined@ == join_spec(texts(parts@), sep@),
{
    let mut joined = String::new();
    let mut i: usize = 0;
    while i < parts.len()
        invariant
            i <= parts.len(),
            joined@ == join_spec(texts(parts@).subrange(0, i as int), sep@),
        decreases parts.len() - i,
    {
        let ghost before = texts(parts@).subrange(0, i as int);
        let ghost after = texts(parts@).subrange(0, i + 1);
        proof {
            assert(after.drop_last() =~= before);
            assert(after.last() == parts@[i as int]@);
        }
        if i > 0 {
            joined.append(sep);
        }
        joined.append(parts[i].as_str());
        proof {
            if i == 0 {
                assert(after[0] == parts@[0]@);
                assert(Seq::<char>::empty() + parts@[0]@ =~= parts@[0]@);
            }
        }
        i = i + 1;
    }
    assert(texts(parts@).subrange(0, parts@.len() as int) =~= texts(parts@));
    joined
}

/// Writes the string slices of `parts` one after another with `sep` between neighbours.
pub fn join_slices(parts: &[&str], sep: &str) -> (joined: String)
    ensures
        joined@ == join_spec(slice_texts(parts@), sep@),
{
    let mut joined = String::new();
    let mut i: usize = 0;
    while i < parts.len()
        invariant
            i <= parts.len(),
            joined@ == join_spec(slice_texts(parts@).subrange(0, i as int), sep@),
        decreases parts.len() - i,
    {
        let ghost before = slice_texts(parts@).subrange(0, i as int);
        let ghost after = slice_texts(parts@).subrange(0, i + 1);
        proof {
            assert(after.drop_last() =~= before);
            assert(after.last() == parts@[i as int]@);
        }
        if i > 0 {
            joined.append(sep);
        }
        joined.append(parts[i]);
        proof {
            if i == 0 {
                assert(after[0] == parts@[0]@);
                assert(Seq::<char>::empty() + parts@[0]@ =~= parts@[0]@);
            }
        }
        i = i + 1;
    }
    assert(slice_texts(parts@).subrange(0, parts@.len() as int) =~= slice_texts(parts@));
    joined
}

/// The capital letter of a small letter; any other character is left as it is.
pub open spec fn upper(c: char) -> char {
    if 'a' <= c && c <= 'z' {
        ((c as u32 - 32) as u8) as char
    } else {
        c
    }
}

/// The name `name` from position `at` on, in camel case: an underscore is
/// dropped and the letter after it is written as a capital.
pub open spec fn camel_from(name: Seq<char>, at: int) -> Seq<char>
    decreases name.len() - at,
{
    if at < 0 || at >= name.len() {
        Seq::empty()
    } else if name[at] == '_' && at + 1 < name.len() {
        seq![upper(name[at + 1])] + camel_from(name, at + 2)
    } else {
        seq![name[at]] + camel_from(name, at + 1)
    }
}

/// The name that a field bears on the wire: the field's own name, written
/// with words divided by underscores, in lower camel case.
pub open spec fn camel_case(name: Seq<char>) -> Seq<char> {
    camel_from(name, 0)
}

/// The text of a truth value in a query: `true` or `false`.
pub open spec fn bool_text(flag: bool) -> Seq<char> {
    if flag {
        "true"@
    } else {
        "false"@
    }
}

/// The text of a truth value in a query.
pub fn bool_to_str(flag: bool) -> (text: &'static str)
    ensures
        text@ == bool_text(flag),
{
    if flag {
        "true"
    } else {
        "false"
    }
}

/// The model of a string that may be there.
pub open spec fn optional_text_view(text: Option<String>) -> Option<Seq<char>> {
    match text {
        Some(t) => Some(t@),
        None => None,
    }
}

/// Whether two string slices hold the same characters.
///
/// Trusted: stands for `==` of `str` in the standard library, which compares
/// the two slices character by character.
#[verifier::external_body]
pub(crate) fn str_eq(a: &str, b: &str) -> (same: bool)
    ensures
        same == (a@ == b@),
{
    a == b
}

} // verus!
