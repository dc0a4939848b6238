//! Text helpers: decimal rendering of integers and small string tests.

use vstd::prelude::*;
use vstd::string::*;

verus! {

/// What an optional string holds, as a sequence of characters.
pub open spec fn opt_text(s: Option<String>) -> Option<Seq<char>> {
    match s {
        Some(t) => Some(t@),
        None => None,
    }
}

/// A copy of an optional string.
pub fn clone_opt_text(s: &Option<String>) -> (copy: Option<String>)
    ensures
        copy == *s,
{
    match s {
        Some(t) => Some(t.clone()),
        None => None,
    }
}

/// Whether `needle` occurs in `haystack` at the position `at`.
pub open spec fn occurs_at(haystack: Seq<char>, needle: Seq<char>, at: int) -> bool {
    0 <= at && at + needle.len() <= haystack.len() && haystack.subrange(
        at,
        at + needle.len(),
    ) == needle
}

/// Whether `needle` occurs somewhere in `haystack`.
pub open spec fn contains_text(haystack: Seq<char>, needle: Seq<char>) -> bool {
    exists|at: int| occurs_at(haystack, needle, at)
}

/// The characters of a text, one by one.
pub fn characters(text: &str) -> (chars: Vec<char>)
    ensures
        chars@ == text@,
{
    let len = text.unicode_len();
    let mut chars: Vec<char> = Vec::new();
    let mut i: usize = 0;
    while i < len
        invariant
            i <= len,
            len == text@.len(),
            chars@.len() == i,
            forall|j: int| 0 <= j < i ==> chars@[j] == text@[j],
        decreases len - i,
    {
        chars.push(text.get_char(i));
        i += 1;
    }
    assert(chars@ =~= text@);
    chars
}

/// Whether `needle` occurs somewhere in `haystack`.
pub fn contains(haystack: &str, needle: &str) -> (found: bool)
    ensures
        found == contains_text(haystack@, needle@),
{
    let hay = characters(haystack);
    let pat = characters(needle);
    if pat.len() > hay.len() {
        assert forall|at: int| !occurs_at(haystack@, needle@, at) by {}
        return false;
    }
    let last = hay.len() - pat.len();
    let mut at: usize = 0;
    while at <= last
        invariant
            at <= last + 1,
            last == hay@.len() - pat@.len(),
            hay@.len() <= usize::MAX,
            hay@ == haystack@,
            pat@ == needle@,
            forall|k: int| 0 <= k < at ==> !occurs_at(haystack@, needle@, k),
        decreases last + 1 - at,
    {
        let mut i: usize = 0;
        let mut same = true;
        while i < pat.len()
            invariant
                i <= pat.len(),
                at <= last,
                last == hay@.len() - pat@.len(),
                hay@.len() <= usize::MAX,
                same ==> forall|j: int| 0 <= j < i ==> hay@[at + j] == pat@[j],
                !same ==> exists|j: int| 0 <= j < pat@.len() && hay@[at + j] != pat@[j],
            decreases pat.len() - i,
        {
            if hay[at + i] != pat[i] {
                same = false;
            }
            i += 1;
        }
        if same {
            assert(hay@.subrange(at as int, at + pat@.len()) =~= pat@);
            assert(occurs_at(haystack@, needle@, at as int));
            return true;
        }
        proof {
            let j = choose|j: int| 0 <= j < pat@.len() && hay@[at + j] != pat@[j];
            assert(hay@.subrange(at as int, at + pat@.len())[j] == hay@[at + j]);
        }
        at += 1;
    }
    assert forall|k: int| !occurs_at(haystack@, needle@, k) by {}
    false
}

/// The character that stands for the digit `d`.
pub open spec fn digit_char(d: nat) -> char {
    if d == 0 {
        '0'
    } else if d == 1 {
        '1'
    } else if d == 2 {
        '2'
    } else if d == 3 {
        '3'
    } else if d == 4 {
        '4'
    } else if d == 5 {
        '5'
    } else if d == 6 {
        '6'
    } else if d == 7 {
        '7'
    } else if d == 8 {
        '8'
    } else {
        '9'
    }
}

/// The decimal digits of `n`, most significant first, without leading zeros.
pub open spec fn decimal(n: nat) -> Seq<char>
    decreases n,
{
    if n < 10 {
        seq![digit_char(n)]
    } else {
        decimal(n / 10).push(digit_char(n % 10))
    }
}

/// The decimal form of a signed number: a minus sign before the digits of a
/// negative one.
pub open spec fn signed_decimal(n: int) -> Seq<char> {
    if n < 0 {
        seq!['-'] + decimal((-n) as nat)
    } else {
        decimal(n as nat)
    }
}

/// The digit that a character stands for, if it is a decimal digit.
pub open spec fn digit_value(c: char) -> Option<nat> {
    if c == '0' {
        Some(0)
    } else if c == '1' {
        Some(1)
    } else if c == '2' {
        Some(2)
    } else if c == '3' {
        Some(3)
    } else if c == '4' {
        Some(4)
    } else if c == '5' {
        Some(5)
    } else if c == '6' {
        Some(6)
    } else if c == '7' {
        Some(7)
    } else if c == '8' {
        Some(8)
    } else if c == '9' {
        Some(9)
    } else {
        None
    }
}

/// The number that a text of decimal digits stands for. A text that is empty
/// or holds anything but digits stands for none.
pub open spec fn digits_value(s: Seq<char>) -> Option<nat>
    decreases s.len(),
{
    if s.len() == 0 {
        None
    } else {
        match digit_value(s.last()) {
            None => None,
            Some(d) => if s.len() == 1 {
                Some(d)
            } else {
                match digits_value(s.drop_last()) {
                    Some(v) => Some(v * 10 + d),
                    None => None,
                }
            },
        }
    }
}

/// The decimal digits of a number stand for that number.
pub proof fn lemma_decimal_round_trip(n: nat)
    ensures
        digits_value(decimal(n)) == Some(n),
    decreases n,
{
    if n < 10 {
        assert(decimal(n).last() == digit_char(n));
    } else {
        lemma_decimal_round_trip(n / 10);
        let s = decimal(n);
        assert(s.drop_last() =~= decimal(n / 10));
        assert(s.last() == digit_char(n % 10));
        assert(s.len() >= 2);
    }
}

fn digit_of(c: char) -> (d: Option<u64>)
    ensures
        match d {
            Some(v) => digit_value(c) == Some(v as nat) && v < 10,
            None => digit_value(c) is None,
        },
{
    if c == '0' {
        Some(0)
    } else if c == '1' {
        Some(1)
    } else if c == '2' {
        Some(2)
    } else if c == '3' {
        Some(3)
    } else if c == '4' {
        Some(4)
    } else if c == '5' {
        Some(5)
    } else if c == '6' {
        Some(6)
    } else if c == '7' {
        Some(7)
    } else if c == '8' {
        Some(8)
    } else if c == '9' {
        Some(9)
    } else {
        None
    }
}

/// A text of digits stands for at least as much as any of its beginnings.
proof fn lemma_digits_grow(s: Seq<char>, i: int)
    requires
        1 <= i <= s.len(),
        digits_value(s) is Some,
    ensures
        digits_value(s.subrange(0, i)) is Some,
        digits_value(s.subrange(0, i))->0 <= digits_value(s)->0,
    decreases s.len(),
{
    if i == s.len() {
        assert(s.subrange(0, i) =~= s);
    } else {
        assert(s.drop_last().subrange(0, i) =~= s.subrange(0, i));
        lemma_digits_grow(s.drop_last(), i);
    }
}

/// Reads a number from its decimal digits. A text that is empty, holds
/// anything but digits, or stands for more than fits, is no number.
pub fn parse_u64(s: &str) -> (n: Option<u64>)
    ensures
        match n {
            Some(v) => digits_value(s@) == Some(v as nat),
            None => digits_value(s@) is None || digits_value(s@)->0 > u64::MAX,
        },
{
    let len = s.unicode_len();
    if len == 0 {
        return None;
    }
    let mut value: u64 = 0;
    let mut i: usize = 0;
    while i < len
        invariant
            i <= len,
            len == s@.len(),
            i > 0 ==> digits_value(s@.subrange(0, i as int)) == Some(value as nat),
            i == 0 ==> value == 0,
        decreases len - i,
    {
        let c = s.get_char(i);
        let ghost head = s@.subrange(0, i as int);
        let ghost next = s@.subrange(0, i + 1);
        proof {
            assert(next.last() == c);
            assert(next.drop_last() =~= head);
        }
        let d = match digit_of(c) {
            Some(d) => d,
            None => {
                proof {
                    if digits_value(s@) is Some {
                        lemma_digits_grow(s@, i + 1);
                    }
                }
                return None;
            },
        };
        if value > (u64::MAX - d) / 10 {
            proof {
                assert(value * 10 + d > u64::MAX);
                if digits_value(s@) is Some {
                    lemma_digits_grow(s@, i + 1);
                }
            }
            return None;
        }
        value = value * 10 + d;
        i += 1;
    }
    assert(s@.subrange(0, len as int) =~= s@);
    Some(value)
}

fn digit_text(d: u64) -> (s: &'static str)
    requires
        d < 10,
    ensures
        s@ == seq![digit_char(d as nat)],
{
    proof {
        reveal_strlit("0");
        reveal_strlit("1");
        reveal_strlit("2");
        reveal_strlit("3");
        reveal_strlit("4");
        reveal_strlit("5");
        reveal_strlit("6");
        reveal_strlit("7");
        reveal_strlit("8");
        reveal_strlit("9");
    }
    let s = if d == 0 {
        "0"
    } else if d == 1 {
        "1"
    } else if d == 2 {
        "2"
    } else if d == 3 {
        "3"
    } else if d == 4 {
        "4"
    } else if d == 5 {
        "5"
    } else if d == 6 {
        "6"
    } else if d == 7 {
        "7"
    } else if d == 8 {
        "8"
    } else {
        "9"
    };
    assert(s@ =~= seq![digit_char(d as nat)]);
    s
}

/// Renders `n` in decimal.
pub fn render_u64(n: u64) -> (s: String)
    ensures
        s@ == decimal(n as nat),
    decreases n,
{
    if n < 10 {
        String::from_str(digit_text(n))
    } else {
        let mut s = render_u64(n / 10);
        s.append(digit_text(n % 10));
        assert(s@ =~= decimal(n as nat));
        s
    }
}

/// Renders `n` in decimal, with a leading minus sign when it is negative.
pub fn render_i64(n: i64) -> (s: String)
    ensures
        s@ == signed_decimal(n as int),
{
    if n < 0 {
        let magnitude: u64 = ((-(n + 1)) as u64) + 1;
        let mut s = String::from_str("-");
        let digits = render_u64(magnitude);
        s.append(digits.as_str());
        proof {
            reveal_strlit("-");
            assert(s@ =~= signed_decimal(n as int));
        }
        s
    } else {
        render_u64(n as u64)
    }
}

} // verus!
