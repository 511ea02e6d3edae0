//! Whole numbers as decimal text, written and read.

use crate::text;
use vstd::prelude::*;

verus! {

/// The character of the digit `d`.
pub open spec fn digit(d: int) -> char {
    if d == 0 {
        '0'
    } else if d == 1 {
        '1'
    } else if d == 2 {
        '2'
    } else if d == 3 {
        '3'
    } else if d == 4 {
        '4'
    } else if d == 5 {
        '5'
    } else if d == 6 {
        '6'
    } else if d == 7 {
        '7'
    } else if d == 8 {
        '8'
    } else {
        '9'
    }
}

/// `n` in decimal, without leading zeros.
pub open spec fn decimal(n: nat) -> Seq<char>
    decreases n,
{
    if n < 10 {
        seq![digit(n as int)]
    } else {
        decimal(n / 10).push(digit((n % 10) as int))
    }
}

/// `n` in decimal, with a minus sign in front where it is negative.
pub open spec fn signed_decimal(n: int) -> Seq<char> {
    if n < 0 {
        seq!['-'] + decimal((-n) as nat)
    } else {
        decimal(n as nat)
    }
}

fn digit_text(d: u64) -> (r: &'static str)
    requires
        d < 10,
    ensures
        r@ == seq![digit(d as int)],
{
    proof {
        reveal_strlit("0");
        reveal_strlit("1");
        reveal_strlit("2");
        reveal_strlit("3");
        reveal_strlit("4");
        reveal_strlit("5");
        reveal_strlit("6");
        reveal_strlit("7");
        reveal_strlit("8");
        reveal_strlit("9");
    }
    let r = if d == 0 {
        "0"
    } else if d == 1 {
        "1"
    } else if d == 2 {
        "2"
    } else if d == 3 {
        "3"
    } else if d == 4 {
        "4"
    } else if d == 5 {
        "5"
    } else if d == 6 {
        "6"
    } else if d == 7 {
        "7"
    } else if d == 8 {
        "8"
    } else {
        "9"
    };
    assert(r@ =~= seq![digit(d as int)]);
    r
}

/// Writes `n` in decimal.
pub fn to_decimal(n: u64) -> (r: String)
    ensures
        r@ == decimal(n as nat),
    decreases n,
{
    if n < 10 {
        digit_text(n).to_string()
    } else {
        let mut r = to_decimal(n / 10);
        r.append(digit_text(n % 10));
        assert(r@ =~= decimal((n / 10) as nat).push(digit((n % 10) as int)));
        r
    }
}

/// Writes `n` in decimal, with its sign where it is negative.
pub fn to_signed_decimal(n: i32) -> (r: String)
    ensures
        r@ == signed_decimal(n as int),
{
    if n < 0 {
        let magnitude: u64 = (-(n as i64)) as u64;
        let mut r = String::new();
        r.append("-");
        r.append(to_decimal(magnitude).as_str());
        proof {
            reveal_strlit("-");
            assert(r@ =~= seq!['-'] + decimal((-n) as nat));
        }
        r
    } else {
        to_decimal(n as u64)
    }
}

/// Whether `c` is one of the ten digits.
pub open spec fn is_digit(c: char) -> bool {
    '0' <= c <= '9'
}

/// The value of a digit.
pub open spec fn digit_value(c: char) -> nat {
    (c as int - '0' as int) as nat
}

/// Whether `s` is made of digits alone, at least one of them.
pub open spec fn is_number(s: Seq<char>) -> bool {
    s.len() > 0 && forall|i: int| 0 <= i < s.len() ==> is_digit(#[trigger] s[i])
}

/// The value of a run of digits.
pub open spec fn value(s: Seq<char>) -> nat
    decreases s.len(),
{
    if s.len() == 0 {
        0
    } else {
        value(s.drop_last()) * 10 + digit_value(s.last())
    }
}

/// What `s` says as a number without a sign, or with a plus sign, that is at
/// most `max`.
pub open spec fn unsigned(s: Seq<char>, max: nat) -> Option<nat> {
    let body = if s.len() > 0 && s.first() == '+' {
        s.drop_first()
    } else {
        s
    };
    if is_number(body) && value(body) <= max {
        Some(value(body))
    } else {
        None
    }
}

/// What `s` says as a number of 32 bits with an optional sign.
pub open spec fn signed(s: Seq<char>) -> Option<int> {
    if s.len() > 0 && s.first() == '-' {
        let body = s.drop_first();
        if is_number(body) && value(body) <= 0x8000_0000 {
            Some(-(value(body) as int))
        } else {
            None
        }
    } else {
        match unsigned(s, 0x7fff_ffff) {
            Some(n) => Some(n as int),
            None => None,
        }
    }
}

proof fn lemma_value_grows(s: Seq<char>, i: int)
    requires
        0 <= i <= s.len(),
        forall|j: int| 0 <= j < s.len() ==> is_digit(#[trigger] s[j]),
    ensures
        value(s.take(i)) <= value(s),
    decreases s.len(),
{
    if i < s.len() {
        assert(s.drop_last().take(i) =~= s.take(i));
        lemma_value_grows(s.drop_last(), i);
    } else {
        assert(s.take(i) =~= s);
    }
}

/// Reads the digits of `cs` from place `from` on.
fn read_digits(cs: &Vec<char>, from: usize, max: u64) -> (r: Option<u64>)
    requires
        from <= cs.len(),
        max <= 0x1_0000_0000,
    ensures
        match r {
            Some(n) => is_number(cs@.skip(from as int)) && value(cs@.skip(from as int)) == n && n
                <= max,
            None => !is_number(cs@.skip(from as int)) || value(cs@.skip(from as int)) > max,
        },
{
    let ghost body = cs@.skip(from as int);
    if from == cs.len() {
        return None;
    }
    let mut total: u64 = 0;
    let mut i: usize = from;
    while i < cs.len()
        invariant
            from <= i <= cs.len(),
            body == cs@.skip(from as int),
            max <= 0x1_0000_0000,
            total <= max,
            total == value(body.take(i - from)),
            forall|j: int| 0 <= j < i - from ==> is_digit(#[trigger] body[j]),
        decreases cs.len() - i,
    {
        let c = cs[i];
        assert(c == body[i - from]);
        if c < '0' || c > '9' {
            return None;
        }
        let d: u64 = (c as u32 - '0' as u32) as u64;
        let next: u64 = total * 10 + d;
        proof {
            assert(body.take(i + 1 - from).drop_last() =~= body.take(i - from));
            assert(body.take(i + 1 - from).last() == c);
        }
        if next > max {
            proof {
                if is_number(body) {
                    lemma_value_grows(body, i + 1 - from);
                }
            }
            return None;
        }
        total = next;
        i += 1;
    }
    assert(body.take(i - from) =~= body);
    Some(total)
}

/// Reads `s` as a number that is at most `max`.
fn read_unsigned(s: &str, max: u64) -> (r: Option<u64>)
    requires
        max <= 0x1_0000_0000,
    ensures
        match r {
            Some(n) => unsigned(s@, max as nat) == Some(n as nat),
            None => unsigned(s@, max as nat) is None,
        },
{
    let cs = text::characters(s);
    if cs.len() > 0 && cs[0] == '+' {
        assert(cs@.skip(1) =~= s@.drop_first());
        read_digits(&cs, 1, max)
    } else {
        assert(cs@.skip(0) =~= s@);
        read_digits(&cs, 0, max)
    }
}

/// Reads `s` as a number of 32 bits without a minus sign.
pub fn parse_u32(s: &str) -> (r: Option<u32>)
    ensures
        match r {
            Some(n) => unsigned(s@, u32::MAX as nat) == Some(n as nat),
            None => unsigned(s@, u32::MAX as nat) is None,
        },
{
    match read_unsigned(s, u32::MAX as u64) {
        Some(n) => Some(n as u32),
        None => None,
    }
}

/// Reads `s` as a number of 16 bits without a minus sign.
pub fn parse_u16(s: &str) -> (r: Option<u16>)
    ensures
        match r {
            Some(n) => unsigned(s@, u16::MAX as nat) == Some(n as nat),
            None => unsigned(s@, u16::MAX as nat) is None,
        },
{
    match read_unsigned(s, u16::MAX as u64) {
        Some(n) => Some(n as u16),
        None => None,
    }
}

/// Reads `s` as a number of 32 bits with an optional sign.
pub fn parse_i32(s: &str) -> (r: Option<i32>)
    ensures
        match r {
            Some(n) => signed(s@) == Some(n as int),
            None => signed(s@) is None,
        },
{
    let cs = text::characters(s);
    if cs.len() > 0 && cs[0] == '-' {
        assert(cs@.skip(1) =~= s@.drop_first());
        match read_digits(&cs, 1, 0x8000_0000) {
            Some(n) => Some((-(n as i64)) as i32),
            None => None,
        }
    } else {
        match read_unsigned(s, 0x7fff_ffff) {
            Some(n) => Some(n as i32),
            None => None,
        }
    }
}

/// Reading gives back what was written: the decimal text of a number within the
/// bound reads as that number.
pub proof fn decimal_reads_back(n: nat, max: nat)
    requires
        n <= max,
    ensures
        unsigned(decimal(n), max) == Some(n),
{
    lemma_decimal(n);
    let s = decimal(n);
    assert(is_digit(s[0]));
    assert(s.first() != '+');
}

/// The decimal text of a number is made of digits, and its value is the number.
pub proof fn lemma_decimal(n: nat)
    ensures
        is_number(decimal(n)),
        value(decimal(n)) == n,
    decreases n,
{
    if n < 10 {
        let s = decimal(n);
        assert(s.drop_last() =~= Seq::<char>::empty());
        assert(value(s.drop_last()) == 0);
    } else {
        lemma_decimal(n / 10);
        let s = decimal(n);
        assert(s.drop_last() =~= decimal(n / 10));
        assert(s.last() == digit((n % 10) as int));
    }
}

} // verus!
