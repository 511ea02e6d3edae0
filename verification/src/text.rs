//! Text as sequences of characters: trimming, splitting, searching, joining.

use vstd::prelude::*;

verus! {

/// The characters with the Unicode property `White_Space`.
pub open spec fn is_space(c: char) -> bool {
    ||| '\u{9}' <= c <= '\u{d}'
    ||| c == ' '
    ||| c == '\u{85}'
    ||| c == '\u{a0}'
    ||| c == '\u{1680}'
    ||| '\u{2000}' <= c <= '\u{200a}'
    ||| c == '\u{2028}'
    ||| c == '\u{2029}'
    ||| c == '\u{202f}'
    ||| c == '\u{205f}'
    ||| c == '\u{3000}'
}

/// Whether `c` is white space.
pub fn is_whitespace(c: char) -> (b: bool)
    ensures
        b == is_space(c),
{
    ('\u{9}' <= c && c <= '\u{d}') || c == ' ' || c == '\u{85}' || c == '\u{a0}' || c == '\u{1680}'
        || ('\u{2000}' <= c && c <= '\u{200a}') || c == '\u{2028}' || c == '\u{2029}'
        || c == '\u{202f}' || c == '\u{205f}' || c == '\u{3000}'
}

/// The characters of `s`, in order.
pub fn characters(s: &str) -> (cs: Vec<char>)
    ensures
        cs@ == s@,
{
    let mut cs: Vec<char> = Vec::new();
    for c in it: s.chars()
        invariant
            cs@ == s@.take(it.index() as int),
            it.seq() == s@,
    {
        cs.push(c);
    }
    cs
}

/// Whether two texts hold the same characters.
pub fn same(a: &str, b: &str) -> (r: bool)
    ensures
        r == (a@ == b@),
{
    a.to_string() == b.to_string()
}

/// `s` without its leading white space.
pub open spec fn left_trimmed(s: Seq<char>) -> Seq<char>
    decreases s.len(),
{
    if s.len() > 0 && is_space(s.first()) {
        left_trimmed(s.drop_first())
    } else {
        s
    }
}

/// `s` without its trailing white space.
pub open spec fn right_trimmed(s: Seq<char>) -> Seq<char>
    decreases s.len(),
{
    if s.len() > 0 && is_space(s.last()) {
        right_trimmed(s.drop_last())
    } else {
        s
    }
}

/// `s` without white space at either end.
pub open spec fn trimmed(s: Seq<char>) -> Seq<char> {
    right_trimmed(left_trimmed(s))
}

/// Removes the white space at both ends of `s`.
pub fn trim<'a>(s: &'a str) -> (r: &'a str)
    ensures
        r@ == trimmed(s@),
{
    let cs = characters(s);
    let mut i: usize = 0;
    assert(s@.skip(0) =~= s@);
    while i < cs.len() && is_whitespace(cs[i])
        invariant
            0 <= i <= cs.len(),
            cs@ == s@,
            left_trimmed(s@) == left_trimmed(s@.skip(i as int)),
        decreases cs.len() - i,
    {
        assert(s@.skip(i as int).drop_first() =~= s@.skip(i + 1));
        i += 1;
    }
    assert(left_trimmed(s@) == s@.skip(i as int));
    let mut j: usize = cs.len();
    assert(s@.subrange(i as int, j as int) =~= s@.skip(i as int));
    while j > i && is_whitespace(cs[j - 1])
        invariant
            i <= j <= cs.len(),
            cs@ == s@,
            right_trimmed(s@.skip(i as int)) == right_trimmed(s@.subrange(i as int, j as int)),
        decreases j,
    {
        assert(s@.subrange(i as int, j as int).drop_last() =~= s@.subrange(i as int, j - 1));
        j -= 1;
    }
    assert(right_trimmed(s@.subrange(i as int, j as int)) == s@.subrange(i as int, j as int));
    s.substring_char(i, j)
}

/// The place of the first character of `s` that `p` accepts, or the length of
/// `s` where it accepts none.
pub open spec fn find(s: Seq<char>, p: spec_fn(char) -> bool) -> int
    decreases s.len(),
{
    if s.len() == 0 || p(s.first()) {
        0
    } else {
        1 + find(s.drop_first(), p)
    }
}

/// What comes before the place that `find` gives is not accepted, and what stands
/// there is.
pub proof fn lemma_find(s: Seq<char>, p: spec_fn(char) -> bool)
    ensures
        0 <= find(s, p) <= s.len(),
        forall|j: int| 0 <= j < find(s, p) ==> !p(#[trigger] s[j]),
        find(s, p) < s.len() ==> p(s[find(s, p)]),
    decreases s.len(),
{
    if s.len() != 0 && !p(s.first()) {
        let rest = s.drop_first();
        lemma_find(rest, p);
        assert forall|j: int| 0 <= j < find(s, p) implies !p(#[trigger] s[j]) by {
            if j > 0 {
                assert(s[j] == rest[j - 1]);
            }
        }
        if find(s, p) < s.len() {
            assert(s[find(s, p)] == rest[find(s, p) - 1]);
        }
    }
}

/// `find` is the only place with nothing accepted before it and, unless it is
/// the end, something accepted at it.
pub proof fn lemma_find_is(s: Seq<char>, p: spec_fn(char) -> bool, k: int)
    requires
        0 <= k <= s.len(),
        forall|j: int| 0 <= j < k ==> !p(#[trigger] s[j]),
        k < s.len() ==> p(s[k]),
    ensures
        find(s, p) == k,
    decreases s.len(),
{
    if k > 0 {
        assert(!p(s[0]));
        let t = s.drop_first();
        assert forall|j: int| 0 <= j < k - 1 implies !p(#[trigger] t[j]) by {
            assert(t[j] == s[j + 1]);
        }
        lemma_find_is(t, p, k - 1);
    }
}

/// The pieces of `s` between the characters that `p` accepts. There is always
/// at least one piece, and pieces may be empty.
pub open spec fn pieces(s: Seq<char>, p: spec_fn(char) -> bool) -> Seq<Seq<char>>
    decreases s.len(),
{
    let k = find(s, p);
    if 0 <= k < s.len() {
        seq![s.take(k)] + pieces(s.skip(k + 1), p)
    } else {
        seq![s]
    }
}

/// The texts of a list that are not empty, in order.
pub open spec fn nonempty(list: Seq<Seq<char>>) -> Seq<Seq<char>> {
    list.filter(|t: Seq<char>| t.len() > 0)
}

/// The predicate that accepts white space.
pub open spec fn space() -> spec_fn(char) -> bool {
    |c: char| is_space(c)
}

/// The predicate that accepts `x` alone.
pub open spec fn just(x: char) -> spec_fn(char) -> bool {
    |c: char| c == x
}

/// The words of `s`: its pieces between white space, the empty ones left out.
pub open spec fn words(s: Seq<char>) -> Seq<Seq<char>> {
    nonempty(pieces(s, space()))
}

/// The pieces of `s` between the occurrences of `sep`.
pub open spec fn fields(s: Seq<char>, sep: char) -> Seq<Seq<char>> {
    pieces(s, just(sep))
}

/// What a text is split at.
#[derive(Clone, Copy)]
enum Boundary {
    Space,
    At(char),
}

impl Boundary {
    spec fn predicate(self) -> spec_fn(char) -> bool {
        match self {
            Boundary::Space => space(),
            Boundary::At(x) => just(x),
        }
    }

    fn accepts(self, c: char) -> (b: bool)
        ensures
            b == (self.predicate())(c),
    {
        match self {
            Boundary::Space => is_whitespace(c),
            Boundary::At(x) => c == x,
        }
    }
}

/// Splits `s` at every character that the boundary accepts.
fn split_where(s: &str, boundary: Boundary) -> (r: Vec<String>)
    ensures
        r.deep_view() == pieces(s@, boundary.predicate()),
{
    let ghost p = boundary.predicate();
    let cs = characters(s);
    let mut r: Vec<String> = Vec::new();
    let mut start: usize = 0;
    let mut i: usize = 0;
    assert(s@.skip(0) =~= s@);
    assert(r.deep_view() + pieces(s@, p) =~= pieces(s@, p));
    while i < cs.len()
        invariant
            cs@ == s@,
            0 <= start <= i <= cs.len(),
            p == boundary.predicate(),
            forall|j: int| start <= j < i ==> !p(#[trigger] s@[j]),
            r.deep_view() + pieces(s@.skip(start as int), p) == pieces(s@, p),
        decreases cs.len() - i,
    {
        if boundary.accepts(cs[i]) {
            let ghost rest = s@.skip(start as int);
            let ghost before = r.deep_view();
            r.push(s.substring_char(start, i).to_string());
            proof {
                let k = i - start;
                assert forall|j: int| 0 <= j < k implies !p(#[trigger] rest[j]) by {
                    assert(rest[j] == s@[start + j]);
                }
                assert(p(rest[k]));
                lemma_find_is(rest, p, k);
                assert(rest.take(k) =~= s@.subrange(start as int, i as int));
                assert(rest.skip(k + 1) =~= s@.skip(i + 1));
                assert(r.deep_view() =~= before.push(rest.take(k)));
                assert(r.deep_view() + pieces(s@.skip(i + 1), p) =~= before + pieces(rest, p));
            }
            start = i + 1;
        }
        i += 1;
    }
    let ghost rest = s@.skip(start as int);
    let ghost before = r.deep_view();
    r.push(s.substring_char(start, cs.len()).to_string());
    proof {
        assert forall|j: int| 0 <= j < rest.len() implies !p(#[trigger] rest[j]) by {
            assert(rest[j] == s@[start + j]);
        }
        lemma_find_is(rest, p, rest.len() as int);
        assert(rest =~= s@.subrange(start as int, s@.len() as int));
        assert(r.deep_view() =~= before + seq![rest]);
    }
    r
}

/// Splits `s` at every occurrence of `sep`.
pub fn split_char(s: &str, sep: char) -> (r: Vec<String>)
    ensures
        r.deep_view() == fields(s@, sep),
{
    split_where(s, Boundary::At(sep))
}

/// Keeps the texts of a list that are not empty.
pub fn keep_nonempty(list: Vec<String>) -> (r: Vec<String>)
    ensures
        r.deep_view() == nonempty(list.deep_view()),
{
    let ghost f = |t: Seq<char>| t.len() > 0;
    let ghost all = list.deep_view();
    let mut r: Vec<String> = Vec::new();
    assert(all.take(0).filter(f) =~= Seq::empty()) by {
        reveal(Seq::filter);
    }
    assert(r.deep_view() =~= Seq::<Seq<char>>::empty());
    let mut i: usize = 0;
    while i < list.len()
        invariant
            0 <= i <= list.len(),
            all == list.deep_view(),
            f == (|t: Seq<char>| t.len() > 0),
            r.deep_view() == all.take(i as int).filter(f),
        decreases list.len() - i,
    {
        let ghost before = r.deep_view();
        if !list[i].as_str().is_empty() {
            r.push(list[i].clone());
            assert(r.deep_view() =~= before.push(all[i as int]));
        }
        proof {
            reveal(Seq::filter);
            assert(all.take(i + 1).drop_last() =~= all.take(i as int));
            assert(all.take(i + 1).last() == list[i as int]@);
        }
        i += 1;
    }
    assert(all.take(list.len() as int) =~= all);
    r
}

/// Splits `s` into its words.
pub fn split_whitespace(s: &str) -> (r: Vec<String>)
    ensures
        r.deep_view() == words(s@),
{
    keep_nonempty(split_where(s, Boundary::Space))
}

/// A line without the carriage return at its end, where it has one.
pub open spec fn without_cr(s: Seq<char>) -> Seq<char> {
    if s.len() > 0 && s.last() == '\r' {
        s.drop_last()
    } else {
        s
    }
}

/// The lines of `s`. A line ends at a line feed, or at a carriage return and a
/// line feed; neither belongs to it. What follows the last line feed is a line
/// only where it is not empty.
pub open spec fn lines_of(s: Seq<char>) -> Seq<Seq<char>>
    decreases s.len(),
{
    let k = find(s, just('\n'));
    if s.len() == 0 {
        seq![]
    } else if 0 <= k < s.len() {
        seq![without_cr(s.take(k))] + lines_of(s.skip(k + 1))
    } else {
        seq![s]
    }
}

/// Splits `s` into its lines.
pub fn lines(s: &str) -> (r: Vec<String>)
    ensures
        r.deep_view() == lines_of(s@),
{
    let ghost p = just('\n');
    let cs = characters(s);
    let mut r: Vec<String> = Vec::new();
    let mut start: usize = 0;
    let mut i: usize = 0;
    assert(s@.skip(0) =~= s@);
    assert(r.deep_view() + lines_of(s@) =~= lines_of(s@));
    while i < cs.len()
        invariant
            cs@ == s@,
            0 <= start <= i <= cs.len(),
            p == just('\n'),
            forall|j: int| start <= j < i ==> !p(#[trigger] s@[j]),
            r.deep_view() + lines_of(s@.skip(start as int)) == lines_of(s@),
        decreases cs.len() - i,
    {
        if cs[i] == '\n' {
            let ghost rest = s@.skip(start as int);
            let ghost before = r.deep_view();
            let end: usize = if i > start && cs[i - 1] == '\r' { i - 1 } else { i };
            r.push(s.substring_char(start, end).to_string());
            proof {
                let k = i - start;
                assert forall|j: int| 0 <= j < k implies !p(#[trigger] rest[j]) by {
                    assert(rest[j] == s@[start + j]);
                }
                assert(p(rest[k]));
                lemma_find_is(rest, p, k);
                assert(without_cr(rest.take(k)) =~= s@.subrange(start as int, end as int));
                assert(rest.skip(k + 1) =~= s@.skip(i + 1));
                assert(r.deep_view() =~= before.push(without_cr(rest.take(k))));
                assert(r.deep_view() + lines_of(s@.skip(i + 1)) =~= before + lines_of(rest));
            }
            start = i + 1;
        }
        i += 1;
    }
    let ghost rest = s@.skip(start as int);
    let ghost before = r.deep_view();
    proof {
        assert forall|j: int| 0 <= j < rest.len() implies !p(#[trigger] rest[j]) by {
            assert(rest[j] == s@[start + j]);
        }
        lemma_find_is(rest, p, rest.len() as int);
    }
    if start < cs.len() {
        r.push(s.substring_char(start, cs.len()).to_string());
        assert(rest =~= s@.subrange(start as int, s@.len() as int));
        assert(r.deep_view() =~= before + seq![rest]);
    } else {
        assert(before + lines_of(rest) =~= before);
    }
    r
}

/// The first line of `s`, or nothing where `s` has no line.
pub open spec fn first_line_of(s: Seq<char>) -> Seq<char> {
    if s.len() == 0 {
        s
    } else {
        lines_of(s)[0]
    }
}

/// The first line of `s`.
pub fn first_line(s: &str) -> (r: String)
    ensures
        r@ == first_line_of(s@),
{
    let all = lines(s);
    assert(all.deep_view().len() == all.len());
    if all.len() == 0 {
        assert(s@ =~= Seq::<char>::empty()) by {
            if s@.len() != 0 {
                assert(lines_of(s@).len() > 0);
            }
        }
        String::new()
    } else {
        assert(all.deep_view()[0] == all[0]@);
        all[0].clone()
    }
}

/// Whether `s` begins with `prefix`.
pub fn starts_with(s: &str, prefix: &str) -> (r: bool)
    ensures
        r == prefix@.is_prefix_of(s@),
{
    let cs = characters(s);
    let ps = characters(prefix);
    if ps.len() > cs.len() {
        return false;
    }
    let mut i: usize = 0;
    while i < ps.len()
        invariant
            0 <= i <= ps.len() <= cs.len(),
            cs@ == s@,
            ps@ == prefix@,
            forall|j: int| 0 <= j < i ==> ps@[j] == cs@[j],
        decreases ps.len() - i,
    {
        if ps[i] != cs[i] {
            assert(s@.subrange(0, prefix@.len() as int)[i as int] != prefix@[i as int]);
            return false;
        }
        i += 1;
    }
    assert(prefix@ =~= s@.subrange(0, prefix@.len() as int));
    true
}

/// Whether `s` ends with `suffix`.
pub fn ends_with(s: &str, suffix: &str) -> (r: bool)
    ensures
        r == suffix@.is_suffix_of(s@),
{
    let cs = characters(s);
    let ps = characters(suffix);
    if ps.len() > cs.len() {
        return false;
    }
    let from: usize = cs.len() - ps.len();
    let mut i: usize = 0;
    while i < ps.len()
        invariant
            0 <= i <= ps.len(),
            from + ps.len() == cs.len(),
            cs@ == s@,
            ps@ == suffix@,
            forall|j: int| 0 <= j < i ==> ps@[j] == cs@[from + j],
        decreases ps.len() - i,
    {
        if ps[i] != cs[from + i] {
            assert(s@.subrange(from as int, s@.len() as int)[i as int] != suffix@[i as int]);
            return false;
        }
        i += 1;
    }
    assert(suffix@ =~= s@.subrange(from as int, s@.len() as int));
    true
}

/// Whether `needle` stands in `s` at place `i`.
pub open spec fn stands_at(s: Seq<char>, needle: Seq<char>, i: int) -> bool {
    &&& 0 <= i
    &&& i + needle.len() <= s.len()
    &&& s.subrange(i, i + needle.len()) == needle
}

/// Whether `needle` stands somewhere in `s`.
pub open spec fn holds(s: Seq<char>, needle: Seq<char>) -> bool {
    exists|i: int| #[trigger] stands_at(s, needle, i)
}

/// Whether `needle` stands somewhere in `s`.
pub fn contains(s: &str, needle: &str) -> (r: bool)
    ensures
        r == holds(s@, needle@),
{
    let cs = characters(s);
    let ns = characters(needle);
    if ns.len() > cs.len() {
        return false;
    }
    let last: usize = cs.len() - ns.len();
    let mut i: usize = 0;
    loop
        invariant
            0 <= i <= last,
            last + ns.len() == cs.len(),
            cs@ == s@,
            ns@ == needle@,
            forall|j: int| 0 <= j < i ==> !#[trigger] stands_at(s@, needle@, j),
        decreases last - i,
    {
        let part = s.substring_char(i, i + ns.len());
        if same(part, needle) {
            assert(stands_at(s@, needle@, i as int));
            return true;
        }
        if i == last {
            return false;
        }
        i += 1;
    }
}

/// The texts of `list`, one after the other, with `sep` between them.
pub open spec fn joined(list: Seq<Seq<char>>, sep: Seq<char>) -> Seq<char>
    decreases list.len(),
{
    if list.len() == 0 {
        seq![]
    } else if list.len() == 1 {
        list[0]
    } else {
        joined(list.drop_last(), sep) + sep + list.last()
    }
}

/// Joins the texts of `list` with `sep` between them.
pub fn join(list: &Vec<String>, sep: &str) -> (r: String)
    ensures
        r@ == joined(list.deep_view(), sep@),
{
    let ghost all = list.deep_view();
    let mut r = String::new();
    let mut i: usize = 0;
    while i < list.len()
        invariant
            0 <= i <= list.len(),
            all == list.deep_view(),
            r@ == joined(all.take(i as int), sep@),
        decreases list.len() - i,
    {
        if i > 0 {
            r.append(sep);
        }
        r.append(list[i].as_str());
        proof {
            assert(all.take(i + 1).drop_last() =~= all.take(i as int));
            assert(all.take(i + 1).last() == list[i as int]@);
            if i == 0 {
                assert(r@ =~= all.take(1)[0]);
            }
        }
        i += 1;
    }
    assert(all.take(list.len() as int) =~= all);
    r
}

/// One text, and another behind it.
pub fn followed_by(first: &str, second: &str) -> (r: String)
    ensures
        r@ == first@ + second@,
{
    let mut r = first.to_string();
    r.append(second);
    r
}

/// Whether a list of texts holds `text`.
pub fn list_has(list: &Vec<String>, text: &str) -> (r: bool)
    ensures
        r == list.deep_view().contains(text@),
{
    let ghost all = list.deep_view();
    let mut i: usize = 0;
    while i < list.len()
        invariant
            0 <= i <= list.len(),
            all == list.deep_view(),
            forall|j: int| 0 <= j < i ==> all[j] != text@,
        decreases list.len() - i,
    {
        if same(list[i].as_str(), text) {
            assert(all[i as int] == text@);
            return true;
        }
        i += 1;
    }
    false
}

/// A copy of a list of texts.
pub fn copy_list(list: &Vec<String>) -> (r: Vec<String>)
    ensures
        r.deep_view() == list.deep_view(),
{
    let mut r: Vec<String> = Vec::new();
    let mut i: usize = 0;
    while i < list.len()
        invariant
            0 <= i <= list.len(),
            r.deep_view() == list.deep_view().take(i as int),
        decreases list.len() - i,
    {
        let ghost before = r.deep_view();
        r.push(list[i].clone());
        assert(r.deep_view() =~= before.push(list[i as int]@));
        assert(list.deep_view().take(i + 1) =~= list.deep_view().take(i as int).push(list[i as int]@));
        i += 1;
    }
    assert(list.deep_view().take(list.len() as int) =~= list.deep_view());
    r
}

proof fn lemma_first_piece(a: Seq<char>, c: char, b: Seq<char>, p: spec_fn(char) -> bool)
    requires
        forall|j: int| 0 <= j < a.len() ==> !p(#[trigger] a[j]),
        p(c),
    ensures
        pieces(a + seq![c] + b, p) == seq![a] + pieces(b, p),
{
    let s = a + seq![c] + b;
    let k = a.len() as int;
    assert forall|j: int| 0 <= j < k implies !p(#[trigger] s[j]) by {
        assert(s[j] == a[j]);
    }
    assert(s[k] == c);
    lemma_find_is(s, p, k);
    assert(s.take(k) =~= a);
    assert(s.skip(k + 1) =~= b);
}

/// A text without the separator is the first field, up to the separator or the end.
pub proof fn lemma_first_field(a: Seq<char>, b: Seq<char>, sep: char)
    requires
        forall|j: int| 0 <= j < a.len() ==> #[trigger] a[j] != sep,
        b.len() > 0 ==> b[0] == sep,
    ensures
        b.len() > 0 ==> fields(a + b, sep) == seq![a] + fields(b.skip(1), sep),
        b.len() == 0 ==> fields(a + b, sep) == seq![a],
{
    let p = just(sep);
    assert forall|j: int| 0 <= j < a.len() implies !p(#[trigger] a[j]) by {}
    if b.len() > 0 {
        lemma_first_piece(a, sep, b.skip(1), p);
        assert(a + seq![sep] + b.skip(1) =~= a + b);
    } else {
        assert(a + b =~= a);
        lemma_find_is(a, p, a.len() as int);
    }
}

/// Leaving out the empty texts of a list is leaving them out of its first text and of
/// the others.
proof fn lemma_nonempty_front(first: Seq<char>, rest: Seq<Seq<char>>)
    ensures
        first.len() > 0 ==> nonempty(seq![first] + rest) == seq![first] + nonempty(rest),
        first.len() == 0 ==> nonempty(seq![first] + rest) == nonempty(rest),
{
    let keep = |t: Seq<char>| t.len() > 0;
    let none = Seq::<Seq<char>>::empty();
    Seq::filter_distributes_over_add(seq![first], rest, keep);
    reveal(Seq::filter);
    assert(seq![first].drop_last() =~= none);
    assert(none.filter(keep) =~= none);
    assert(seq![first].last() == first);
    if first.len() > 0 {
        assert(seq![first].filter(keep) =~= seq![first]);
    } else {
        assert(!keep(first));
        assert(seq![first].filter(keep) =~= none);
        assert(none + nonempty(rest) =~= nonempty(rest));
    }
}

/// White space in front of a text adds no word.
pub proof fn lemma_words_after_space(before: Seq<char>, s: Seq<char>)
    requires
        forall|j: int| 0 <= j < before.len() ==> is_space(#[trigger] before[j]),
    ensures
        words(before + s) == words(s),
    decreases before.len(),
{
    if before.len() == 0 {
        assert(before + s =~= s);
    } else {
        let rest = before.skip(1);
        assert forall|j: int| 0 <= j < rest.len() implies is_space(#[trigger] rest[j]) by {
            assert(rest[j] == before[j + 1]);
        }
        lemma_words_after_space(rest, s);
        let none = Seq::<char>::empty();
        lemma_first_piece(none, before[0], rest + s, space());
        assert(none + seq![before[0]] + (rest + s) =~= before + s);
        lemma_nonempty_front(none, pieces(rest + s, space()));
    }
}

/// A text without white space is the first word, up to white space or the end.
pub proof fn lemma_first_word(word: Seq<char>, s: Seq<char>)
    requires
        word.len() > 0,
        forall|j: int| 0 <= j < word.len() ==> !is_space(#[trigger] word[j]),
        s.len() > 0 ==> is_space(s[0]),
    ensures
        words(word + s) == seq![word] + words(s),
{
    let p = space();
    assert forall|j: int| 0 <= j < word.len() implies !p(#[trigger] word[j]) by {}
    if s.len() > 0 {
        let tail = s.skip(1);
        lemma_first_piece(word, s[0], tail, p);
        assert(word + seq![s[0]] + tail =~= word + s);
        lemma_nonempty_front(word, pieces(tail, p));
        lemma_words_after_space(seq![s[0]], tail);
        assert(seq![s[0]] + tail =~= s);
    } else {
        let none = Seq::<Seq<char>>::empty();
        assert(word + s =~= word);
        lemma_find_is(word, p, word.len() as int);
        lemma_find_is(s, p, 0);
        lemma_nonempty_front(word, none);
        lemma_nonempty_front(s, none);
        assert(seq![word] + none =~= seq![word]);
        assert(seq![s] + none =~= seq![s]);
    }
}

/// A list of two texts or more, joined, begins with its first text and a
/// separator.
pub proof fn lemma_joined_front(list: Seq<Seq<char>>, sep: Seq<char>)
    requires
        list.len() >= 2,
    ensures
        joined(list, sep) == list[0] + sep + joined(list.drop_first(), sep),
    decreases list.len(),
{
    let rest = list.drop_first();
    if list.len() == 2 {
        assert(list.drop_last().len() == 1);
        assert(list.drop_last()[0] == list[0]);
        assert(rest[0] == list.last());
        assert(joined(list.drop_last(), sep) == list[0]);
        assert(joined(rest, sep) == list.last());
    } else {
        lemma_joined_front(list.drop_last(), sep);
        assert(list.drop_last().drop_first() =~= rest.drop_last());
        assert(list.drop_last()[0] == list[0]);
        assert(joined(list, sep) =~= list[0] + sep + joined(rest, sep));
    }
}

/// Splitting at a separator undoes joining with it, where no text holds the
/// separator.
pub proof fn splitting_undoes_joining(list: Seq<Seq<char>>, sep: char)
    requires
        list.len() > 0,
        forall|i: int, j: int|
            0 <= i < list.len() && 0 <= j < list[i].len() ==> (#[trigger] list[i][j]) != sep,
    ensures
        fields(joined(list, seq![sep]), sep) == list,
    decreases list.len(),
{
    let p = just(sep);
    let first = list[0];
    assert forall|j: int| 0 <= j < first.len() implies !p(#[trigger] first[j]) by {
        assert(list[0][j] != sep);
    }
    if list.len() == 1 {
        lemma_find_is(first, p, first.len() as int);
        assert(seq![first] =~= list);
    } else {
        let rest = list.drop_first();
        lemma_joined_front(list, seq![sep]);
        assert forall|i: int, j: int| 0 <= i < rest.len() && 0 <= j < rest[i].len() implies (
        #[trigger] rest[i][j]) != sep by {
            assert(list[i + 1][j] != sep);
        }
        splitting_undoes_joining(rest, sep);
        lemma_first_piece(first, sep, joined(rest, seq![sep]), p);
        assert(seq![first] + rest =~= list);
    }
}

/// A joined list of texts that are not empty begins with the first character of
/// its first text and ends with the last character of its last.
pub proof fn lemma_joined_ends(list: Seq<Seq<char>>, sep: char)
    requires
        list.len() > 0,
        forall|i: int| 0 <= i < list.len() ==> (#[trigger] list[i]).len() > 0,
    ensures
        joined(list, seq![sep]).len() > 0,
        joined(list, seq![sep]).first() == list.first().first(),
        joined(list, seq![sep]).last() == list.last().last(),
    decreases list.len(),
{
    if list.len() > 1 {
        let front = list.drop_last();
        assert forall|i: int| 0 <= i < front.len() implies (#[trigger] front[i]).len() > 0 by {
            assert(list[i].len() > 0);
        }
        lemma_joined_ends(front, sep);
        assert(list[list.len() - 1].len() > 0);
        assert(front.first() == list.first());
    } else {
        assert(list[0].len() > 0);
    }
}

/// Trimming takes white space off the end of a text and leaves the text alone,
/// where it neither begins nor ends with white space.
pub proof fn lemma_trims_line(s: Seq<char>, tail: Seq<char>)
    requires
        s.len() > 0,
        !is_space(s.first()),
        !is_space(s.last()),
        forall|i: int| 0 <= i < tail.len() ==> is_space(#[trigger] tail[i]),
    ensures
        trimmed(s + tail) == s,
    decreases tail.len(),
{
    let t = s + tail;
    assert(t.first() == s.first());
    assert(left_trimmed(t) == t);
    if tail.len() > 0 {
        assert(t.last() == tail[tail.len() - 1]);
        assert(t.drop_last() =~= s + tail.drop_last());
        lemma_trims_line(s, tail.drop_last());
        assert((s + tail.drop_last()).first() == s.first());
        assert(left_trimmed(s + tail.drop_last()) == s + tail.drop_last());
    } else {
        assert(t =~= s);
    }
}

/// What a program prints that writes the texts of a list, each on a line of its own.
pub open spec fn printed(list: Seq<Seq<char>>) -> Seq<char>
    decreases list.len(),
{
    if list.len() == 0 {
        seq![]
    } else {
        list[0] + seq!['\n'] + printed(list.skip(1))
    }
}

/// The lines of what was printed are the texts that were printed, where no text
/// holds a line feed or ends in a carriage return.
pub proof fn printed_lines_are_read_back(list: Seq<Seq<char>>)
    requires
        forall|i: int, j: int|
            0 <= i < list.len() && 0 <= j < list[i].len() ==> (#[trigger] list[i][j]) != '\n',
        forall|i: int|
            0 <= i < list.len() && list[i].len() > 0 ==> (#[trigger] list[i]).last() != '\r',
    ensures
        lines_of(printed(list)) == list,
    decreases list.len(),
{
    let s = printed(list);
    if list.len() > 0 {
        let first = list[0];
        let rest = list.skip(1);
        assert forall|i: int, j: int| 0 <= i < rest.len() && 0 <= j < rest[i].len() implies (
        #[trigger] rest[i][j]) != '\n' by {
            assert(list[i + 1][j] != '\n');
        }
        assert forall|i: int| 0 <= i < rest.len() && rest[i].len() > 0 implies (
        #[trigger] rest[i]).last() != '\r' by {
            assert(list[i + 1].last() != '\r');
        }
        printed_lines_are_read_back(rest);
        let p = just('\n');
        assert forall|j: int| 0 <= j < first.len() implies !p(#[trigger] s[j]) by {
            assert(s[j] == list[0][j]);
        }
        assert(p(s[first.len() as int]));
        lemma_find_is(s, p, first.len() as int);
        assert(s.take(first.len() as int) =~= first);
        assert(s.skip(first.len() as int + 1) =~= printed(rest));
        assert(without_cr(first) == first);
        assert(seq![first] + rest =~= list);
    } else {
        assert(lines_of(s) =~= list);
    }
}

/// A list without empty texts loses nothing when the empty ones are left out.
pub proof fn lemma_all_nonempty(list: Seq<Seq<char>>)
    requires
        forall|i: int| 0 <= i < list.len() ==> (#[trigger] list[i]).len() > 0,
    ensures
        nonempty(list) == list,
    decreases list.len(),
{
    reveal(Seq::filter);
    if list.len() > 0 {
        let front = list.drop_last();
        assert forall|i: int| 0 <= i < front.len() implies (#[trigger] front[i]).len() > 0 by {
            assert(list[i].len() > 0);
        }
        lemma_all_nonempty(front);
        assert(list[list.len() - 1].len() > 0);
        assert(front.push(list.last()) =~= list);
    }
}

} // verus!
