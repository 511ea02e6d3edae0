//! What holds of texts, numbers and their order, in terms of the characters that they
//! are made of.

use crate::number;
use crate::order;
use crate::text;
use vstd::prelude::*;

verus! {

/// Trimming takes white space off both ends and nothing else: what it leaves stands in
/// the text, all that stands around it is white space, and it neither begins nor ends
/// with white space.
pub proof fn trimming_takes_white_space_off_both_ends(s: Seq<char>)
    ensures
        ({
            let t = text::trimmed(s);
            &&& t.len() > 0 ==> !text::is_space(t.first()) && !text::is_space(t.last())
            &&& exists|before: Seq<char>, after: Seq<char>|
                s == #[trigger] (before + t + after) && is_blank(before) && is_blank(after)
        }),
{
    let l = text::left_trimmed(s);
    let t = text::trimmed(s);
    lemma_left(s);
    lemma_right(l);
    let before = s.take(s.len() - l.len());
    let after = l.skip(t.len() as int);
    assert(s =~= before + t + after);
    if t.len() > 0 {
        assert(l.len() > 0);
        assert(t.first() == l.first());
    }
}

/// Whether a text is white space alone.
pub open spec fn is_blank(s: Seq<char>) -> bool {
    forall|j: int| 0 <= j < s.len() ==> text::is_space(#[trigger] s[j])
}

proof fn lemma_left(s: Seq<char>)
    ensures
        ({
            let l = text::left_trimmed(s);
            &&& l.len() <= s.len()
            &&& l == s.skip(s.len() - l.len())
            &&& is_blank(s.take(s.len() - l.len()))
            &&& l.len() > 0 ==> !text::is_space(l.first())
        }),
    decreases s.len(),
{
    let l = text::left_trimmed(s);
    if s.len() > 0 && text::is_space(s.first()) {
        let rest = s.drop_first();
        lemma_left(rest);
        let k = s.len() - l.len();
        assert(l =~= s.skip(k));
        assert forall|j: int| 0 <= j < k implies text::is_space(#[trigger] s.take(k)[j]) by {
            if j > 0 {
                assert(rest.take(k - 1)[j - 1] == s[j]);
            }
        }
    } else {
        assert(s.skip(0) =~= s);
    }
}

proof fn lemma_right(s: Seq<char>)
    ensures
        ({
            let r = text::right_trimmed(s);
            &&& r.len() <= s.len()
            &&& r == s.take(r.len() as int)
            &&& is_blank(s.skip(r.len() as int))
            &&& r.len() > 0 ==> !text::is_space(r.last())
        }),
    decreases s.len(),
{
    let r = text::right_trimmed(s);
    if s.len() > 0 && text::is_space(s.last()) {
        let front = s.drop_last();
        lemma_right(front);
        assert(r =~= s.take(r.len() as int));
        assert forall|j: int| 0 <= j < s.len() - r.len() implies text::is_space(
            #[trigger] s.skip(r.len() as int)[j],
        ) by {
            if j < front.len() - r.len() {
                assert(front.skip(r.len() as int)[j] == s[j + r.len()]);
            }
        }
    } else {
        assert(s.take(s.len() as int) =~= s);
    }
}

/// A text that neither begins nor ends with white space is what trimming leaves of it,
/// whatever white space stands around it.
pub proof fn trimming_finds_the_text(before: Seq<char>, s: Seq<char>, after: Seq<char>)
    requires
        is_blank(before),
        is_blank(after),
        s.len() > 0 ==> !text::is_space(s.first()) && !text::is_space(s.last()),
    ensures
        text::trimmed(before + s + after) == s,
    decreases before.len(),
{
    let all = before + s + after;
    if before.len() > 0 {
        let rest = before.drop_first();
        assert forall|j: int| 0 <= j < rest.len() implies text::is_space(#[trigger] rest[j]) by {
            assert(rest[j] == before[j + 1]);
        }
        trimming_finds_the_text(rest, s, after);
        assert(all.first() == before[0]);
        assert(all.drop_first() =~= rest + s + after);
    } else if s.len() > 0 {
        text::lemma_trims_line(s, after);
        assert(all =~= s + after);
    } else {
        assert(all =~= after);
        lemma_blank_is_trimmed(after);
    }
}

proof fn lemma_blank_is_trimmed(s: Seq<char>)
    requires
        is_blank(s),
    ensures
        text::trimmed(s) == Seq::<char>::empty(),
    decreases s.len(),
{
    if s.len() > 0 {
        let rest = s.drop_first();
        assert forall|j: int| 0 <= j < rest.len() implies text::is_space(#[trigger] rest[j]) by {
            assert(rest[j] == s[j + 1]);
        }
        lemma_blank_is_trimmed(rest);
        assert(text::is_space(s[0]));
    } else {
        assert(s =~= Seq::<char>::empty());
    }
}

/// Splitting at a separator loses nothing: joined with the separator the fields are the
/// text again, and none of them holds the separator.
pub proof fn joining_undoes_splitting(s: Seq<char>, sep: char)
    ensures
        text::fields(s, sep).len() > 0,
        text::joined(text::fields(s, sep), seq![sep]) == s,
        forall|i: int, j: int|
            0 <= i < text::fields(s, sep).len() && 0 <= j < text::fields(s, sep)[i].len()
                ==> #[trigger] text::fields(s, sep)[i][j] != sep,
    decreases s.len(),
{
    let p = text::just(sep);
    let all = text::fields(s, sep);
    text::lemma_find(s, p);
    let k = text::find(s, p);
    if k < s.len() {
        let head = s.take(k);
        let tail = s.skip(k + 1);
        let rest = text::fields(tail, sep);
        joining_undoes_splitting(tail, sep);
        assert(all == seq![head] + rest);
        assert(all.drop_first() =~= rest);
        text::lemma_joined_front(all, seq![sep]);
        assert(s =~= head + seq![sep] + tail);
        assert forall|i: int, j: int| 0 <= i < all.len() && 0 <= j < all[i].len() implies #[trigger] all[i][j]
            != sep by {
            if i == 0 {
                assert(all[0][j] == s[j]);
            } else {
                assert(rest[i - 1][j] != sep);
            }
        }
    } else {
        assert(all == seq![s]);
        assert forall|i: int, j: int| 0 <= i < all.len() && 0 <= j < all[i].len() implies #[trigger] all[i][j]
            != sep by {
            assert(!p(s[j]));
        }
    }
}

/// White space has no words; in front of a text it adds none, and a text without white
/// space in front of white space, or of nothing, is a word.
pub proof fn words_stand_between_white_space(blank: Seq<char>, word: Seq<char>, s: Seq<char>)
    requires
        is_blank(blank),
        word.len() > 0,
        forall|j: int| 0 <= j < word.len() ==> !text::is_space(#[trigger] word[j]),
        s.len() > 0 ==> text::is_space(s[0]),
    ensures
        text::words(blank) == Seq::<Seq<char>>::empty(),
        text::words(blank + s) == text::words(s),
        text::words(word + s) == seq![word] + text::words(s),
{
    text::lemma_words_after_space(blank, s);
    text::lemma_first_word(word, s);
    text::lemma_words_after_space(blank, Seq::empty());
    assert(blank + Seq::<char>::empty() =~= blank);
    lemma_no_words();
}

/// The words of a text with white space and another text behind it are those of the one
/// and then those of the other.
pub proof fn words_of_two_texts(a: Seq<char>, b: Seq<char>)
    requires
        b.len() > 0 ==> text::is_space(b[0]),
    ensures
        text::words(a + b) == text::words(a) + text::words(b),
    decreases a.len(),
{
    let p = text::space();
    let none = Seq::<char>::empty();
    if a.len() == 0 {
        assert(a + b =~= b);
        assert(a =~= none);
        lemma_no_words();
        assert(text::words(a) + text::words(b) =~= text::words(b));
    } else if text::is_space(a[0]) {
        let rest = a.skip(1);
        words_of_two_texts(rest, b);
        text::lemma_words_after_space(seq![a[0]], rest);
        text::lemma_words_after_space(seq![a[0]], rest + b);
        assert(seq![a[0]] + rest =~= a);
        assert(seq![a[0]] + (rest + b) =~= a + b);
    } else {
        text::lemma_find(a, p);
        let k = text::find(a, p);
        let word = a.take(k);
        let rest = a.skip(k);
        if k == 0 {
            assert(p(a[0]));
        }
        assert forall|j: int| 0 <= j < word.len() implies !text::is_space(#[trigger] word[j]) by {
            assert(!p(a[j]));
        }
        if rest.len() > 0 {
            assert(rest[0] == a[k]);
            assert(p(a[k]));
            assert((rest + b)[0] == rest[0]);
        } else {
            assert(rest + b =~= b);
        }
        words_of_two_texts(rest, b);
        text::lemma_first_word(word, rest);
        text::lemma_first_word(word, rest + b);
        assert(word + rest =~= a);
        assert(word + (rest + b) =~= a + b);
        assert(text::words(a + b) =~= text::words(a) + text::words(b));
    }
}

proof fn lemma_no_words()
    ensures
        text::words(Seq::<char>::empty()) == Seq::<Seq<char>>::empty(),
{
    let none = Seq::<char>::empty();
    let p = text::space();
    text::lemma_find_is(none, p, 0);
    let list = text::pieces(none, p);
    assert(list == seq![none]);
    reveal(Seq::filter);
    let keep = |t: Seq<char>| t.len() > 0;
    let nothing = Seq::<Seq<char>>::empty();
    assert(list.drop_last() =~= nothing);
    assert(nothing.filter(keep) =~= nothing);
    assert(list.last() == none);
    assert(!keep(none));
    assert(list.filter(keep) =~= nothing);
}

/// A line ends at the first line feed, which does not belong to it, nor does a carriage
/// return in front of that. What no line feed follows is a line where it is not empty.
pub proof fn lines_end_at_line_feeds(line: Seq<char>, rest: Seq<char>)
    requires
        forall|j: int| 0 <= j < line.len() ==> #[trigger] line[j] != '\n',
    ensures
        line.len() == 0 || line.last() != '\r' ==> text::lines_of(line + seq!['\n'] + rest)
            == seq![line] + text::lines_of(rest),
        text::lines_of(line + seq!['\r', '\n'] + rest) == seq![line] + text::lines_of(rest),
        line.len() > 0 ==> text::lines_of(line) == seq![line],
        text::lines_of(Seq::<char>::empty()) == Seq::<Seq<char>>::empty(),
{
    let p = text::just('\n');
    let k = line.len() as int;
    assert forall|j: int| 0 <= j < k implies !p(#[trigger] line[j]) by {}
    text::lemma_find_is(line, p, k);
    let s = line + seq!['\n'] + rest;
    assert forall|j: int| 0 <= j < k implies !p(#[trigger] s[j]) by {
        assert(s[j] == line[j]);
    }
    assert(p(s[k]));
    text::lemma_find_is(s, p, k);
    assert(s.take(k) =~= line);
    assert(s.skip(k + 1) =~= rest);
    let t = line + seq!['\r', '\n'] + rest;
    assert forall|j: int| 0 <= j < k + 1 implies !p(#[trigger] t[j]) by {
        if j < k {
            assert(t[j] == line[j]);
        } else {
            assert(t[j] == '\r');
        }
    }
    assert(p(t[k + 1]));
    text::lemma_find_is(t, p, k + 1);
    assert(t.take(k + 1).last() == '\r');
    assert(t.take(k + 1).drop_last() =~= line);
    assert(t.skip(k + 2) =~= rest);
}

/// The first line is the first of the lines, or nothing where there is none.
pub proof fn the_first_line_is_the_first_of_the_lines(s: Seq<char>)
    ensures
        text::lines_of(s).len() > 0 ==> text::first_line_of(s) == text::lines_of(s)[0],
        text::lines_of(s).len() == 0 ==> text::first_line_of(s).len() == 0,
        text::lines_of(s).len() == 0 <==> s.len() == 0,
{
}

/// A text holds another exactly where it is something, that other text, and something.
pub proof fn a_text_holds_what_stands_in_it(s: Seq<char>, needle: Seq<char>)
    ensures
        text::holds(s, needle) <==> exists|before: Seq<char>, after: Seq<char>|
            s == #[trigger] (before + needle + after),
{
    if text::holds(s, needle) {
        let i = choose|i: int| #[trigger] text::stands_at(s, needle, i);
        let before = s.take(i);
        let after = s.skip(i + needle.len());
        assert(s.subrange(i, i + needle.len()) == needle);
        assert(s =~= before + needle + after);
    }
    if exists|before: Seq<char>, after: Seq<char>| s == #[trigger] (before + needle + after) {
        let (before, after) = choose|before: Seq<char>, after: Seq<char>|
            s == #[trigger] (before + needle + after);
        let i = before.len() as int;
        assert(s.subrange(i, i + needle.len()) =~= needle);
        assert(text::stands_at(s, needle, i));
    }
}

/// Joining puts the separator between the texts and nowhere else.
pub proof fn joining_puts_separators_between(
    list: Seq<Seq<char>>,
    x: Seq<char>,
    sep: Seq<char>,
)
    ensures
        text::joined(Seq::<Seq<char>>::empty(), sep) == Seq::<char>::empty(),
        text::joined(seq![x], sep) == x,
        list.len() > 0 ==> text::joined(seq![x] + list, sep) == x + sep + text::joined(list, sep),
        list.len() > 0 ==> text::joined(list.push(x), sep) == text::joined(list, sep) + sep + x,
{
    if list.len() > 0 {
        let all = seq![x] + list;
        text::lemma_joined_front(all, sep);
        assert(all.drop_first() =~= list);
        assert(list.push(x).drop_last() =~= list);
    }
}

/// The decimal text of a number is that of its tenth part, rounded down, with the last
/// digit behind it, and a single digit is the character that many places behind `0`.
pub proof fn decimals_are_written_digit_by_digit(n: nat, d: nat)
    requires
        d < 10,
    ensures
        n > 0 ==> number::decimal(n * 10 + d) == number::decimal(n) + number::decimal(d),
        number::decimal(d) == seq![(('0' as u32) + d) as char],
{
    if n > 0 {
        assert((n * 10 + d) / 10 == n);
        assert((n * 10 + d) % 10 == d);
        assert(number::decimal(n * 10 + d) =~= number::decimal(n) + number::decimal(d));
    }
}

/// A negative number is written as its size with a minus sign in front.
pub proof fn a_negative_number_has_a_minus_sign(n: nat)
    ensures
        number::signed_decimal(n as int) == number::decimal(n),
        n > 0 ==> number::signed_decimal(-(n as int)) == seq!['-'] + number::decimal(n),
{
}

/// So many zeros.
pub open spec fn zeros(k: nat) -> Seq<char> {
    Seq::new(k, |i: int| '0')
}

proof fn lemma_zeros(k: nat, n: nat)
    ensures
        number::is_number(zeros(k) + number::decimal(n)),
        number::value(zeros(k) + number::decimal(n)) == n,
    decreases n,
{
    let s = zeros(k) + number::decimal(n);
    number::lemma_decimal(n);
    assert forall|i: int| 0 <= i < s.len() implies number::is_digit(#[trigger] s[i]) by {
        if i >= k {
            assert(s[i] == number::decimal(n)[i - k]);
        } else {
            assert(s[i] == '0');
        }
    }
    if n < 10 {
        lemma_zero(k);
        assert(s.drop_last() =~= zeros(k));
        assert(s.last() == number::digit(n as int));
    } else {
        lemma_zeros(k, n / 10);
        assert(s.drop_last() =~= zeros(k) + number::decimal(n / 10));
        assert(s.last() == number::digit((n % 10) as int));
    }
}

proof fn lemma_zero(k: nat)
    ensures
        number::value(zeros(k)) == 0,
    decreases k,
{
    if k > 0 {
        lemma_zero((k - 1) as nat);
        assert(zeros(k).drop_last() =~= zeros((k - 1) as nat));
        assert(zeros(k).last() == '0');
    }
}

/// A number is read whatever zeros stand in front of it, with a plus sign or without,
/// exactly where it is within the bound.
pub proof fn numbers_are_read_within_the_bound(k: nat, n: nat, max: nat)
    ensures
        ({
            let s = zeros(k) + number::decimal(n);
            let expected = if n <= max {
                Some(n)
            } else {
                None
            };
            &&& number::unsigned(s, max) == expected
            &&& number::unsigned(seq!['+'] + s, max) == expected
        }),
{
    let s = zeros(k) + number::decimal(n);
    lemma_zeros(k, n);
    assert(number::is_digit(s[0]));
    assert(s.first() != '+');
    let t = seq!['+'] + s;
    assert(t.drop_first() =~= s);
}

/// A number with a sign is read as far as it fits into 32 bits: without a sign or with a
/// plus sign up to 2147483647, with a minus sign up to 2147483648.
pub proof fn signed_numbers_are_read_within_their_bounds(k: nat, n: nat)
    ensures
        ({
            let s = zeros(k) + number::decimal(n);
            let expected = if n <= 2147483647 {
                Some(n as int)
            } else {
                None
            };
            &&& number::signed(s) == expected
            &&& number::signed(seq!['+'] + s) == expected
            &&& number::signed(seq!['-'] + s) == (if n <= 2147483648 {
                Some(-(n as int))
            } else {
                None
            })
        }),
{
    let s = zeros(k) + number::decimal(n);
    lemma_zeros(k, n);
    numbers_are_read_within_the_bound(k, n, 0x7fff_ffff);
    assert(number::is_digit(s[0]));
    assert(s.first() != '-');
    let t = seq!['-'] + s;
    assert(t.drop_first() =~= s);
}

/// Nothing but digits, with one sign in front, is read as a number, and there must be a
/// digit.
pub proof fn only_digits_are_read(s: Seq<char>, i: int, max: nat)
    requires
        0 <= i < s.len(),
        !('0' <= s[i] <= '9'),
    ensures
        i > 0 || s[i] != '+' ==> number::unsigned(s, max) is None,
        i > 0 || (s[i] != '+' && s[i] != '-') ==> number::signed(s) is None,
        s.len() == 1 ==> number::unsigned(s, max) is None && number::signed(s) is None,
        number::unsigned(Seq::<char>::empty(), max) is None,
        number::signed(Seq::<char>::empty()) is None,
{
    assert(!number::is_digit(s[i]));
    if i > 0 {
        let rest = s.drop_first();
        assert(rest[i - 1] == s[i]);
        assert(!number::is_number(rest));
    }
    assert(!number::is_number(s));
}

/// The first character in which two texts differ decides which comes first, and a text
/// comes before what it is the beginning of.
pub proof fn the_first_difference_decides(
    common: Seq<char>,
    x: char,
    y: char,
    a: Seq<char>,
    b: Seq<char>,
)
    ensures
        order::not_after(common, common + b),
        b.len() > 0 ==> !order::not_after(common + b, common),
        x != y ==> (order::not_after(common + seq![x] + a, common + seq![y] + b) <==> x < y),
    decreases common.len(),
{
    let s = common + seq![x] + a;
    let t = common + seq![y] + b;
    if common.len() > 0 {
        let rest = common.drop_first();
        the_first_difference_decides(rest, x, y, a, b);
        assert(s.drop_first() =~= rest + seq![x] + a);
        assert(t.drop_first() =~= rest + seq![y] + b);
        assert(s.first() == common.first());
        assert(t.first() == common.first());
        assert((common + b).drop_first() =~= rest + b);
        assert((common + b).first() == common.first());
    } else {
        assert(s.first() == x);
        assert(t.first() == y);
    }
}

} // verus!
