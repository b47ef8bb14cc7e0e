//! Text primitives shared by the parsers and renderers of the library.
//!
//! A text is a sequence of characters. The parsers work on `[char]` slices, whose view is the
//! very sequence that the specification functions of this module speak of.

use vstd::prelude::*;
use vstd::slice::slice_subrange;
use vstd::utf8::{decode_utf8, encode_utf8, valid_utf8};

verus! {

/// The characters with the Unicode `White_Space` property.
pub open spec fn is_white_space(c: char) -> bool {
    let v = c as u32;
    ||| 0x09 <= v <= 0x0d
    ||| v == 0x20
    ||| v == 0x85
    ||| v == 0xa0
    ||| v == 0x1680
    ||| 0x2000 <= v <= 0x200a
    ||| v == 0x2028
    ||| v == 0x2029
    ||| v == 0x202f
    ||| v == 0x205f
    ||| v == 0x3000
}

/// Whether `c` is a Unicode white space character.
pub fn white_space(c: char) -> (r: bool)
    ensures
        r == is_white_space(c),
{
    let v: u32 = c as u32;
    (0x09 <= v && v <= 0x0d) || v == 0x20 || v == 0x85 || v == 0xa0 || v == 0x1680 || (0x2000 <= v
        && v <= 0x200a) || v == 0x2028 || v == 0x2029 || v == 0x202f || v == 0x205f || v == 0x3000
}

/// Whether some character of `s` is white space.
pub open spec fn has_white_space(s: Seq<char>) -> bool {
    exists|i: int| 0 <= i < s.len() && is_white_space(#[trigger] s[i])
}

/// Whether some character of `s` is white space.
pub fn contains_white_space(s: &[char]) -> (r: bool)
    ensures
        r == has_white_space(s@),
{
    let mut i: usize = 0;
    while i < s.len()
        invariant
            i <= s@.len(),
            forall|j: int| 0 <= j < i ==> !is_white_space(#[trigger] s@[j]),
        decreases s@.len() - i,
    {
        if white_space(s[i]) {
            assert(is_white_space(s@[i as int]));
            return true;
        }
        i = i + 1;
    }
    false
}

/// The characters of `s`.
pub fn chars_of(s: &str) -> (r: Vec<char>)
    ensures
        r@ == s@,
{
    let mut r: Vec<char> = Vec::new();
    for c in it: s.chars()
        invariant
            r@ == it.seq().take(it.index()),
            it.seq() == s@,
    {
        r.push(c);
    }
    assert(s@.take(s@.len() as int) =~= s@);
    r
}

/// Appends one character: `String::push` appends the given character to the end of the string.
pub assume_specification[ String::push ](s: &mut String, c: char)
    ensures
        final(s)@ == old(s)@.push(c),
;

/// The text made of the characters `s`.
pub fn string_of(s: &[char]) -> (r: String)
    ensures
        r@ == s@,
{
    let mut r = String::new();
    let mut i: usize = 0;
    while i < s.len()
        invariant
            i <= s@.len(),
            r@ == s@.take(i as int),
        decreases s@.len() - i,
    {
        r.push(s[i]);
        assert(s@.take(i as int).push(s@[i as int]) =~= s@.take(i + 1));
        i = i + 1;
    }
    assert(s@.take(i as int) =~= s@);
    r
}

/// Whether two texts are equal.
pub fn same_text(a: &str, b: &str) -> (r: bool)
    ensures
        r == (a@ == b@),
{
    let x = a.as_bytes();
    let y = b.as_bytes();
    proof {
        vstd::utf8::encode_utf8_decode_utf8(a@);
        vstd::utf8::encode_utf8_decode_utf8(b@);
    }
    if x.len() != y.len() {
        return false;
    }
    let mut i: usize = 0;
    while i < x.len()
        invariant
            i <= x@.len(),
            x@.len() == y@.len(),
            x@ == encode_utf8(a@),
            y@ == encode_utf8(b@),
            forall|j: int| 0 <= j < i ==> x@[j] == y@[j],
        decreases x@.len() - i,
    {
        if x[i] != y[i] {
            return false;
        }
        i = i + 1;
    }
    assert(x@ =~= y@);
    true
}

/// Whether two character slices hold the same text.
pub fn same_chars(a: &[char], b: &[char]) -> (r: bool)
    ensures
        r == (a@ == b@),
{
    if a.len() != b.len() {
        return false;
    }
    let mut i: usize = 0;
    while i < a.len()
        invariant
            i <= a@.len(),
            a@.len() == b@.len(),
            forall|j: int| 0 <= j < i ==> a@[j] == b@[j],
        decreases a@.len() - i,
    {
        if a[i] != b[i] {
            return false;
        }
        i = i + 1;
    }
    assert(a@ =~= b@);
    true
}

/// Whether `p` stands in `s` at position `i`.
pub open spec fn occurs_at(s: Seq<char>, p: Seq<char>, i: int) -> bool {
    0 <= i && i + p.len() <= s.len() && s.subrange(i, i + p.len()) == p
}

/// The first position of `p` in `s` at or after `i`.
pub open spec fn find_from(s: Seq<char>, p: Seq<char>, i: int) -> Option<int>
    decreases s.len() + 1 - i,
{
    if i < 0 || i + p.len() > s.len() {
        None
    } else if s.subrange(i, i + p.len()) == p {
        Some(i)
    } else {
        find_from(s, p, i + 1)
    }
}

/// The first position of `p` in `s`.
pub open spec fn find_text(s: Seq<char>, p: Seq<char>) -> Option<int> {
    find_from(s, p, 0)
}

/// `find_from` gives the least position at or after `i` where `p` stands, and gives none only
/// where `p` stands nowhere from `i` on.
pub proof fn lemma_find_from(s: Seq<char>, p: Seq<char>, i: int)
    requires
        0 <= i,
    ensures
        match find_from(s, p, i) {
            Some(k) => i <= k && occurs_at(s, p, k) && forall|j: int|
                i <= j < k ==> !#[trigger] occurs_at(s, p, j),
            None => forall|j: int| i <= j ==> !#[trigger] occurs_at(s, p, j),
        },
    decreases s.len() + 1 - i,
{
    if i + p.len() <= s.len() && s.subrange(i, i + p.len()) != p {
        lemma_find_from(s, p, i + 1);
    }
}

/// The first position of `p` in `s`.
pub fn find(s: &[char], p: &[char]) -> (r: Option<usize>)
    ensures
        match r {
            Some(k) => find_text(s@, p@) == Some(k as int) && k + p@.len() <= s@.len()
                && s@.subrange(k as int, k + p@.len()) == p@,
            None => find_text(s@, p@) is None,
        },
{
    if p.len() > s.len() {
        return None;
    }
    let last: usize = s.len() - p.len();
    let mut i: usize = 0;
    loop
        invariant
            i <= last,
            last + p@.len() == s@.len(),
            s@.len() <= usize::MAX,
            find_text(s@, p@) == find_from(s@, p@, i as int),
        decreases last - i,
    {
        if same_chars(slice_subrange(s, i, i + p.len()), p) {
            return Some(i);
        }
        if i == last {
            assert(find_from(s@, p@, i + 1) is None);
            return None;
        }
        i = i + 1;
    }
}

/// Whether `c` stands in `s`.
pub fn contains_char(s: &[char], c: char) -> (r: bool)
    ensures
        r == s@.contains(c),
{
    let mut i: usize = 0;
    while i < s.len()
        invariant
            i <= s@.len(),
            forall|j: int| 0 <= j < i ==> s@[j] != c,
        decreases s@.len() - i,
    {
        if s[i] == c {
            assert(s@[i as int] == c);
            return true;
        }
        i = i + 1;
    }
    false
}

/// Whether `s` begins with `p`.
pub open spec fn starts_with(s: Seq<char>, p: Seq<char>) -> bool {
    occurs_at(s, p, 0)
}

/// Whether `s` begins with `p`.
pub fn has_prefix(s: &[char], p: &[char]) -> (r: bool)
    ensures
        r == starts_with(s@, p@),
        r ==> p@.len() <= s@.len(),
{
    if p.len() > s.len() {
        return false;
    }
    same_chars(slice_subrange(s, 0, p.len()), p)
}

/// The pieces of `s` between the successive occurrences of `sep`, from the left.
pub open spec fn split_text(s: Seq<char>, sep: Seq<char>) -> Seq<Seq<char>>
    decreases s.len(),
    when sep.len() > 0
{
    proof {
        lemma_find_from(s, sep, 0);
    }
    match find_text(s, sep) {
        None => seq![s],
        Some(i) => seq![s.take(i)] + split_text(s.skip(i + sep.len()), sep),
    }
}

/// The texts that a list of character vectors holds.
pub open spec fn texts(v: Seq<Vec<char>>) -> Seq<Seq<char>> {
    Seq::new(v.len(), |i: int| v[i]@)
}

/// A copy of the characters from `i` up to `j`.
pub fn copy_range(s: &[char], i: usize, j: usize) -> (r: Vec<char>)
    requires
        i <= j <= s@.len(),
    ensures
        r@ == s@.subrange(i as int, j as int),
{
    let mut r: Vec<char> = Vec::new();
    let mut k: usize = i;
    while k < j
        invariant
            i <= k <= j <= s@.len(),
            r@ == s@.subrange(i as int, k as int),
        decreases j - k,
    {
        r.push(s[k]);
        assert(s@.subrange(i as int, k as int).push(s@[k as int]) =~= s@.subrange(
            i as int,
            k + 1,
        ));
        k = k + 1;
    }
    r
}

/// The pieces of `s` between the successive occurrences of `sep`, from the left.
pub fn split(s: &[char], sep: &[char]) -> (r: Vec<Vec<char>>)
    requires
        sep@.len() > 0,
    ensures
        texts(r@) == split_text(s@, sep@),
{
    let mut r: Vec<Vec<char>> = Vec::new();
    let mut start: usize = 0;
    assert(s@.skip(0) =~= s@);
    assert(texts(r@) + split_text(s@, sep@) =~= split_text(s@, sep@));
    loop
        invariant
            start <= s@.len(),
            sep@.len() > 0,
            texts(r@) + split_text(s@.skip(start as int), sep@) == split_text(s@, sep@),
        decreases s@.len() - start,
    {
        let rest = slice_subrange(s, start, s.len());
        assert(rest@ =~= s@.skip(start as int));
        let ghost before = texts(r@);
        match find(rest, sep) {
            Some(k) => {
                let piece = copy_range(rest, 0, k);
                assert(piece@ =~= rest@.take(k as int));
                r.push(piece);
                assert(texts(r@) =~= before.push(rest@.take(k as int)));
                assert(rest@.skip(k + sep@.len()) =~= s@.skip(start + k + sep@.len()));
                assert(before + (seq![rest@.take(k as int)] + split_text(
                    rest@.skip(k + sep@.len()),
                    sep@,
                )) =~= before.push(rest@.take(k as int)) + split_text(
                    rest@.skip(k + sep@.len()),
                    sep@,
                ));
                start = start + k + sep.len();
            },
            None => {
                let piece = copy_range(rest, 0, rest.len());
                assert(piece@ =~= rest@);
                r.push(piece);
                assert(texts(r@) =~= before + seq![rest@]);
                return r;
            },
        }
    }
}

/// The text after its leading white space.
pub open spec fn trim_start(s: Seq<char>) -> Seq<char>
    decreases s.len(),
{
    if s.len() > 0 && is_white_space(s[0]) {
        trim_start(s.skip(1))
    } else {
        s
    }
}

/// The text before its trailing white space.
pub open spec fn trim_end(s: Seq<char>) -> Seq<char>
    decreases s.len(),
{
    if s.len() > 0 && is_white_space(s.last()) {
        trim_end(s.drop_last())
    } else {
        s
    }
}

/// The text without leading and trailing white space.
pub open spec fn trim_text(s: Seq<char>) -> Seq<char> {
    trim_end(trim_start(s))
}

/// The length of the leading white space of the text from `from` on is skipped.
fn skip_white_space(s: &[char], from: usize) -> (r: usize)
    requires
        from <= s@.len(),
    ensures
        from <= r <= s@.len(),
        trim_start(s@.skip(from as int)) == s@.skip(r as int),
        r < s@.len() ==> !is_white_space(s@[r as int]),
{
    let mut i: usize = from;
    while i < s.len() && white_space(s[i])
        invariant
            from <= i <= s@.len(),
            trim_start(s@.skip(from as int)) == trim_start(s@.skip(i as int)),
        decreases s@.len() - i,
    {
        assert(s@.skip(i as int).skip(1) =~= s@.skip(i + 1));
        i = i + 1;
    }
    i
}

/// The text without leading and trailing white space.
pub fn trim(s: &[char]) -> (r: Vec<char>)
    ensures
        r@ == trim_text(s@),
{
    assert(s@.skip(0) =~= s@);
    let start: usize = skip_white_space(s, 0);
    let mut end: usize = s.len();
    assert(s@.subrange(start as int, end as int) =~= s@.skip(start as int));
    while end > start && white_space(s[end - 1])
        invariant
            start <= end <= s@.len(),
            trim_end(s@.subrange(start as int, end as int)) == trim_text(s@),
        decreases end - start,
    {
        assert(s@.subrange(start as int, end as int).drop_last() =~= s@.subrange(
            start as int,
            end - 1,
        ));
        end = end - 1;
    }
    copy_range(s, start, end)
}

/// The text up to its first white space character.
pub open spec fn first_word(s: Seq<char>) -> Seq<char>
    decreases s.len(),
{
    if s.len() == 0 || is_white_space(s[0]) {
        Seq::empty()
    } else {
        seq![s[0]] + first_word(s.skip(1))
    }
}

/// A first word is no longer than its text.
pub proof fn lemma_first_word(s: Seq<char>)
    ensures
        first_word(s).len() <= s.len(),
        s.len() > 0 && !is_white_space(s[0]) ==> first_word(s).len() > 0,
        first_word(s) == s.take(first_word(s).len() as int),
        first_word(s).len() < s.len() ==> is_white_space(s[first_word(s).len() as int]),
        forall|i: int| 0 <= i < first_word(s).len() ==> !is_white_space(#[trigger] s[i]),
    decreases s.len(),
{
    if s.len() > 0 && !is_white_space(s[0]) {
        let t = s.skip(1);
        lemma_first_word(t);
        let w = first_word(t);
        assert(first_word(s) =~= s.take(w.len() as int + 1));
        if w.len() < t.len() {
            assert(t[w.len() as int] == s[w.len() as int + 1]);
        }
        assert forall|i: int| 0 <= i < w.len() + 1 implies !is_white_space(#[trigger] s[i]) by {
            if i > 0 {
                assert(t[i - 1] == s[i]);
            }
        }
    } else {
        assert(s.take(0) =~= Seq::<char>::empty());
    }
}

/// Leading white space is a prefix.
pub proof fn lemma_trim_start(s: Seq<char>)
    ensures
        trim_start(s).len() <= s.len(),
        trim_start(s).len() > 0 ==> !is_white_space(trim_start(s)[0]),
    decreases s.len(),
{
    if s.len() > 0 && is_white_space(s[0]) {
        lemma_trim_start(s.skip(1));
    }
}

/// The maximal runs of characters that are not white space, from the left.
pub open spec fn words(s: Seq<char>) -> Seq<Seq<char>>
    decreases s.len(),
{
    let t = trim_start(s);
    proof {
        lemma_trim_start(s);
        lemma_first_word(t);
    }
    if t.len() == 0 {
        Seq::empty()
    } else {
        seq![first_word(t)] + words(t.skip(first_word(t).len() as int))
    }
}

/// The maximal runs of characters that are not white space, from the left.
pub fn split_white_space(s: &[char]) -> (r: Vec<Vec<char>>)
    ensures
        texts(r@) == words(s@),
{
    let mut r: Vec<Vec<char>> = Vec::new();
    let mut pos: usize = 0;
    assert(s@.skip(0) =~= s@);
    assert(texts(r@) + words(s@) =~= words(s@));
    loop
        invariant
            pos <= s@.len(),
            texts(r@) + words(s@.skip(pos as int)) == words(s@),
        decreases s@.len() - pos,
    {
        let start: usize = skip_white_space(s, pos);
        let ghost t = s@.skip(start as int);
        proof {
            lemma_first_word(t);
        }
        if start == s.len() {
            assert(texts(r@) + words(s@.skip(pos as int)) =~= texts(r@));
            return r;
        }
        let mut end: usize = start;
        while end < s.len() && !white_space(s[end])
            invariant
                start <= end <= s@.len(),
                t == s@.skip(start as int),
                end - start <= first_word(t).len() <= t.len(),
                first_word(t).len() < t.len() ==> is_white_space(t[first_word(t).len() as int]),
            decreases s@.len() - end,
        {
            assert(t[end - start] == s@[end as int]);
            end = end + 1;
        }
        assert(end - start == first_word(t).len()) by {
            if end - start < first_word(t).len() {
                assert(t[end - start] == s@[end as int]);
                assert(!is_white_space(t[end - start]));
            }
        }
        let word = copy_range(s, start, end);
        assert(word@ =~= t.take(end - start));
        let ghost before = texts(r@);
        r.push(word);
        assert(texts(r@) =~= before.push(first_word(t)));
        assert(t.skip(first_word(t).len() as int) =~= s@.skip(end as int));
        assert(before + (seq![first_word(t)] + words(s@.skip(end as int))) =~= before.push(
            first_word(t),
        ) + words(s@.skip(end as int)));
        pos = end;
    }
}

/// An ASCII capital letter becomes its small letter, any other character stays.
pub open spec fn lower_char(c: char) -> char {
    if 'A' <= c <= 'Z' {
        ((c as u8) + 32) as u8 as char
    } else {
        c
    }
}

/// A text with its ASCII capital letters made small.
pub open spec fn lower_text(s: Seq<char>) -> Seq<char> {
    Seq::new(s.len(), |i: int| lower_char(s[i]))
}

/// A text with its ASCII capital letters made small.
pub fn to_lower(s: &[char]) -> (r: Vec<char>)
    ensures
        r@ == lower_text(s@),
{
    let mut r: Vec<char> = Vec::new();
    let mut i: usize = 0;
    while i < s.len()
        invariant
            i <= s@.len(),
            r@ == lower_text(s@).take(i as int),
        decreases s@.len() - i,
    {
        let c = s[i];
        let l = if 'A' <= c && c <= 'Z' {
            ((c as u8) + 32) as char
        } else {
            c
        };
        r.push(l);
        assert(lower_text(s@).take(i as int).push(l) =~= lower_text(s@).take(i + 1));
        i = i + 1;
    }
    assert(lower_text(s@).take(i as int) =~= lower_text(s@));
    r
}

/// The number that a decimal digit stands for.
pub open spec fn digit_value(c: char) -> int {
    c as u32 - 48
}

/// Whether `c` is one of `0` to `9`.
pub open spec fn is_digit(c: char) -> bool {
    '0' <= c <= '9'
}

/// Whether `s` is one or more decimal digits.
pub open spec fn is_digits(s: Seq<char>) -> bool {
    s.len() > 0 && forall|i: int| 0 <= i < s.len() ==> is_digit(#[trigger] s[i])
}

/// The number that the decimal digits `s` write.
pub open spec fn digits_value(s: Seq<char>) -> int
    decreases s.len(),
{
    if s.len() == 0 {
        0
    } else {
        digits_value(s.drop_last()) * 10 + digit_value(s.last())
    }
}

/// The number that the digits `s` write, if it is at most `max`.
pub open spec fn bounded_digits(s: Seq<char>, max: int) -> Option<int> {
    if is_digits(s) && digits_value(s) <= max {
        Some(digits_value(s))
    } else {
        None
    }
}

/// More digits write no smaller number.
proof fn lemma_digits_value_grows(s: Seq<char>, k: int)
    requires
        0 <= k <= s.len(),
        forall|i: int| 0 <= i < s.len() ==> is_digit(#[trigger] s[i]),
    ensures
        0 <= digits_value(s.take(k)) <= digits_value(s),
    decreases s.len(),
{
    if s.len() > 0 {
        let t = s.drop_last();
        if k < s.len() {
            lemma_digits_value_grows(t, k);
            assert(t.take(k) =~= s.take(k));
        } else {
            lemma_digits_value_grows(t, t.len() as int);
            assert(t.take(t.len() as int) =~= t);
            assert(s.take(k) =~= s);
        }
    } else {
        assert(s.take(k) =~= s);
    }
}

/// The number that the digits `s` write, if it is at most `max`.
pub fn parse_digits(s: &[char], max: u64) -> (r: Option<u64>)
    ensures
        match r {
            Some(n) => bounded_digits(s@, max as int) == Some(n as int),
            None => bounded_digits(s@, max as int) is None,
        },
{
    if s.len() == 0 {
        return None;
    }
    let mut value: u128 = 0;
    let mut i: usize = 0;
    assert(s@.take(0) =~= Seq::<char>::empty());
    while i < s.len()
        invariant
            i <= s@.len(),
            value <= max,
            value == digits_value(s@.take(i as int)),
            forall|j: int| 0 <= j < i ==> is_digit(#[trigger] s@[j]),
        decreases s@.len() - i,
    {
        let c = s[i];
        if c < '0' || '9' < c {
            assert(!is_digit(s@[i as int]));
            return None;
        }
        value = value * 10 + (c as u32 - 48) as u128;
        assert(s@.take(i + 1).drop_last() =~= s@.take(i as int));
        assert(s@.take(i + 1).last() == c);
        if value > max as u128 {
            proof {
                if is_digits(s@) {
                    lemma_digits_value_grows(s@, i + 1);
                }
            }
            return None;
        }
        i = i + 1;
    }
    assert(s@.take(i as int) =~= s@);
    Some(value as u64)
}

/// The text without a leading plus sign.
pub open spec fn without_plus(s: Seq<char>) -> Seq<char> {
    if s.len() > 0 && s[0] == '+' {
        s.skip(1)
    } else {
        s
    }
}

/// The number up to `max` that `s` writes as an optional plus sign and decimal digits.
pub open spec fn unsigned_value(s: Seq<char>, max: int) -> Option<int> {
    bounded_digits(without_plus(s), max)
}

/// A number that is read lies between zero and the bound.
pub proof fn lemma_unsigned_value(s: Seq<char>, max: int)
    ensures
        unsigned_value(s, max) is Some ==> 0 <= unsigned_value(s, max)->0 <= max,
{
    let d = without_plus(s);
    if is_digits(d) {
        lemma_digits_value_grows(d, d.len() as int);
        assert(d.take(d.len() as int) =~= d);
    }
}

/// The number up to `max` that `s` writes as an optional plus sign and decimal digits.
pub fn parse_unsigned(s: &[char], max: u64) -> (r: Option<u64>)
    ensures
        match r {
            Some(n) => unsigned_value(s@, max as int) == Some(n as int) && n <= max,
            None => unsigned_value(s@, max as int) is None,
        },
{
    if s.len() > 0 && s[0] == '+' {
        let rest = slice_subrange(s, 1, s.len());
        assert(rest@ =~= s@.skip(1));
        parse_digits(rest, max)
    } else {
        parse_digits(s, max)
    }
}

/// The 64-bit number that `s` writes as an optional sign and decimal digits.
pub open spec fn signed_value(s: Seq<char>) -> Option<int> {
    if s.len() > 0 && s[0] == '-' {
        match bounded_digits(s.skip(1), 0x8000_0000_0000_0000) {
            Some(n) => Some(-n),
            None => None,
        }
    } else {
        unsigned_value(s, 0x7fff_ffff_ffff_ffff)
    }
}

/// The 64-bit number that `s` writes as an optional sign and decimal digits.
pub fn parse_signed(s: &[char]) -> (r: Option<i64>)
    ensures
        match r {
            Some(n) => signed_value(s@) == Some(n as int),
            None => signed_value(s@) is None,
        },
{
    if s.len() > 0 && s[0] == '-' {
        let rest = slice_subrange(s, 1, s.len());
        assert(rest@ =~= s@.skip(1));
        match parse_digits(rest, 0x8000_0000_0000_0000) {
            Some(n) => Some((-(n as i128)) as i64),
            None => None,
        }
    } else {
        match parse_unsigned(s, 0x7fff_ffff_ffff_ffff) {
            Some(n) => Some(n as i64),
            None => None,
        }
    }
}

/// The digit that writes `d`.
pub open spec fn digit_char(d: int) -> char {
    ((48 + d) as u8) as char
}

/// The decimal digits of `n`, without leading zeros.
pub open spec fn decimal(n: int) -> Seq<char>
    decreases n,
{
    if n < 10 {
        seq![digit_char(n)]
    } else {
        decimal(n / 10).push(digit_char(n % 10))
    }
}

/// The decimal digits of `n`, without leading zeros.
pub fn decimal_text(n: u64) -> (r: String)
    ensures
        r@ == decimal(n as int),
    decreases n,
{
    if n < 10 {
        let mut r = String::new();
        r.push((48 + n as u8) as char);
        assert(r@ =~= decimal(n as int));
        r
    } else {
        let mut r = decimal_text(n / 10);
        r.push((48 + (n % 10) as u8) as char);
        r
    }
}

/// Reading back a written number gives that number.
pub proof fn lemma_decimal_reads_back(n: int)
    requires
        0 <= n,
    ensures
        is_digits(decimal(n)),
        digits_value(decimal(n)) == n,
        forall|max: int| n <= max ==> #[trigger] unsigned_value(decimal(n), max) == Some(n),
    decreases n,
{
    if n < 10 {
        let s = decimal(n);
        assert(s.drop_last() =~= Seq::<char>::empty());
        assert(digits_value(Seq::<char>::empty()) == 0);
        assert(digits_value(s) == digit_value(s.last()));
    } else {
        lemma_decimal_reads_back(n / 10);
        let s = decimal(n);
        assert(s.drop_last() =~= decimal(n / 10));
    }
    assert(is_digit(decimal(n)[0]));
}

/// Decodes UTF-8: `std::str::from_utf8` accepts exactly the valid UTF-8 byte sequences and gives
/// the text that they encode.
#[verifier::external_body]
pub(crate) fn utf8_text(bytes: &[u8]) -> (r: Option<String>)
    ensures
        match r {
            Some(text) => valid_utf8(bytes@) && text@ == decode_utf8(bytes@),
            None => !valid_utf8(bytes@),
        },
{
    match std::str::from_utf8(bytes) {
        Ok(text) => Some(text.to_owned()),
        Err(_) => None,
    }
}

/// The texts that a list of strings holds.
pub open spec fn string_texts(v: Seq<String>) -> Seq<Seq<char>> {
    Seq::new(v.len(), |i: int| v[i]@)
}

/// Whether `text` is one of the strings `v`.
pub fn contains_string(v: &[String], text: &str) -> (r: bool)
    ensures
        r == string_texts(v@).contains(text@),
{
    let mut i: usize = 0;
    while i < v.len()
        invariant
            i <= v@.len(),
            forall|j: int| 0 <= j < i ==> v@[j]@ != text@,
        decreases v@.len() - i,
    {
        if same_text(v[i].as_str(), text) {
            assert(string_texts(v@)[i as int] == text@);
            return true;
        }
        i = i + 1;
    }
    assert forall|j: int| 0 <= j < v@.len() implies string_texts(v@)[j] != text@ by {}
    false
}

/// The text of an optional string.
pub open spec fn optional_text(v: Option<String>) -> Option<Seq<char>> {
    match v {
        Some(text) => Some(text@),
        None => None,
    }
}

/// A number is written by its decimal digits: those below ten by one digit each, in the order of
/// the characters, and every other one by the digits of its tenth and one more. What is written is
/// read back, with or without a plus sign; a text with anything but digits is no number, and
/// neither is one beyond the bound.
pub proof fn law_numbers_are_decimal(n: int, d: int, max: int, s: Seq<char>)
    requires
        0 <= n <= max,
        0 <= d < 10,
    ensures
        decimal(0) == seq!['0'],
        decimal(1) == seq!['1'],
        decimal(9) == seq!['9'],
        decimal(d).len() == 1,
        d > 0 ==> decimal(d)[0] as u32 == decimal(d - 1)[0] as u32 + 1,
        n > 0 ==> decimal(10 * n + d) == decimal(n) + decimal(d),
        unsigned_value(decimal(n), max) == Some(n),
        unsigned_value(seq!['+'] + decimal(n), max) == Some(n),
        unsigned_value(decimal(max + 1), max) is None,
        unsigned_value(Seq::empty(), max) is None,
        (exists|i: int| 1 <= i < s.len() && !('0' <= #[trigger] s[i] <= '9')) ==> unsigned_value(
            s,
            max,
        ) is None,
        s.len() > 0 && s[0] != '+' && !('0' <= s[0] <= '9') ==> unsigned_value(s, max) is None,
{
    lemma_decimal_reads_back(n);
    lemma_decimal_reads_back(max + 1);
    lemma_decimal_reads_back(d);
    let plus = seq!['+'] + decimal(n);
    assert(plus.skip(1) =~= decimal(n));
    assert(is_digit(decimal(n)[0]));
    assert(is_digit(decimal(max + 1)[0]));
    if n > 0 {
        assert((10 * n + d) / 10 == n && (10 * n + d) % 10 == d);
        assert(decimal(10 * n + d) =~= decimal(n) + decimal(d));
    }
    assert(decimal(0) =~= seq!['0']);
    assert(decimal(1) =~= seq!['1']);
    assert(decimal(9) =~= seq!['9']);
    if exists|i: int| 1 <= i < s.len() && !('0' <= #[trigger] s[i] <= '9') {
        let i = choose|i: int| 1 <= i < s.len() && !('0' <= #[trigger] s[i] <= '9');
        if s[0] == '+' {
            assert(without_plus(s)[i - 1] == s[i]);
        } else {
            assert(without_plus(s)[i] == s[i]);
        }
    }
    if s.len() > 0 && s[0] != '+' && !('0' <= s[0] <= '9') {
        assert(without_plus(s)[0] == s[0]);
    }
}

/// A signed number is read back from its digits with a minus sign before them where it is negative;
/// what no 64-bit number can hold is not read.
pub proof fn law_signed_numbers_are_decimal(n: int)
    requires
        0 <= n,
    ensures
        n <= i64::MAX ==> signed_value(decimal(n)) == Some(n),
        n <= i64::MAX + 1 ==> signed_value(seq!['-'] + decimal(n)) == Some(-n),
        n > i64::MAX ==> signed_value(decimal(n)) is None,
        n > i64::MAX + 1 ==> signed_value(seq!['-'] + decimal(n)) is None,
{
    lemma_decimal_reads_back(n);
    assert(is_digit(decimal(n)[0]));
    let minus = seq!['-'] + decimal(n);
    assert(minus.skip(1) =~= decimal(n));
}

/// The parts joined again, with the separator between them.
pub open spec fn joined(parts: Seq<Seq<char>>, sep: Seq<char>) -> Seq<char>
    decreases parts.len(),
{
    if parts.len() == 0 {
        Seq::empty()
    } else if parts.len() == 1 {
        parts[0]
    } else {
        parts[0] + sep + joined(parts.skip(1), sep)
    }
}

/// Splitting a text loses nothing: its parts with the separator between them are the text, and no
/// part holds the separator.
pub proof fn law_split_is_undone_by_joining(s: Seq<char>, sep: Seq<char>)
    requires
        sep.len() > 0,
    ensures
        split_text(s, sep).len() > 0,
        joined(split_text(s, sep), sep) == s,
        forall|i: int, k: int|
            0 <= i < split_text(s, sep).len() ==> !#[trigger] occurs_at(
                split_text(s, sep)[i],
                sep,
                k,
            ),
    decreases s.len(),
{
    lemma_find_from(s, sep, 0);
    match find_text(s, sep) {
        None => {
            assert forall|k: int| !#[trigger] occurs_at(s, sep, k) by {}
        },
        Some(at) => {
            let rest = s.skip(at + sep.len());
            law_split_is_undone_by_joining(rest, sep);
            let parts = split_text(s, sep);
            let more = split_text(rest, sep);
            assert(parts.skip(1) =~= more);
            assert(s =~= s.take(at) + sep + rest);
            assert forall|i: int, k: int| 0 <= i < parts.len() implies !#[trigger] occurs_at(
                parts[i],
                sep,
                k,
            ) by {
                if i == 0 {
                    if occurs_at(s.take(at), sep, k) {
                        assert(s.subrange(k, k + sep.len()) =~= s.take(at).subrange(
                            k,
                            k + sep.len(),
                        ));
                        assert(occurs_at(s, sep, k));
                    }
                } else {
                    assert(parts[i] == more[i - 1]);
                }
            }
        },
    }
}

/// Trimming takes away white space at both ends and nothing else: what is left neither begins nor
/// ends with white space, and what was taken away is white space.
pub proof fn law_trim_takes_white_space_only(s: Seq<char>)
    ensures
        exists|a: int, b: int|
            {
                &&& 0 <= a <= b <= s.len()
                &&& trim_text(s) == #[trigger] s.subrange(a, b)
                &&& forall|i: int|
                    (0 <= i < a || b <= i < s.len()) ==> is_white_space(#[trigger] s[i])
                &&& a < b ==> !is_white_space(s[a]) && !is_white_space(s[b - 1])
            },
{
    let a = lemma_trim_start_at(s);
    let t = s.skip(a);
    let b = lemma_trim_end_at(t);
    assert(t.take(b) =~= s.subrange(a, a + b));
    assert forall|i: int| (0 <= i < a || a + b <= i < s.len()) implies is_white_space(
        #[trigger] s[i],
    ) by {
        if i >= a {
            assert(t[i - a] == s[i]);
        }
    }
    if b > 0 {
        assert(t[0] == s[a]);
        assert(t[b - 1] == s[a + b - 1]);
    }
}

proof fn lemma_trim_start_at(s: Seq<char>) -> (a: int)
    ensures
        0 <= a <= s.len(),
        trim_start(s) == s.skip(a),
        forall|i: int| 0 <= i < a ==> is_white_space(#[trigger] s[i]),
        a < s.len() ==> !is_white_space(s[a]),
    decreases s.len(),
{
    if s.len() > 0 && is_white_space(s[0]) {
        let k = lemma_trim_start_at(s.skip(1));
        assert(s.skip(1).skip(k) =~= s.skip(k + 1));
        assert forall|i: int| 0 <= i < k + 1 implies is_white_space(#[trigger] s[i]) by {
            if i > 0 {
                assert(s.skip(1)[i - 1] == s[i]);
            }
        }
        if k + 1 < s.len() {
            assert(s.skip(1)[k] == s[k + 1]);
        }
        k + 1
    } else {
        assert(s.skip(0) =~= s);
        0
    }
}

proof fn lemma_trim_end_at(s: Seq<char>) -> (b: int)
    ensures
        0 <= b <= s.len(),
        trim_end(s) == s.take(b),
        forall|i: int| b <= i < s.len() ==> is_white_space(#[trigger] s[i]),
        b > 0 ==> !is_white_space(s[b - 1]),
    decreases s.len(),
{
    if s.len() > 0 && is_white_space(s.last()) {
        let init = s.drop_last();
        let k = lemma_trim_end_at(init);
        assert(init.take(k) =~= s.take(k));
        assert forall|i: int| k <= i < s.len() implies is_white_space(#[trigger] s[i]) by {
            if i < init.len() {
                assert(init[i] == s[i]);
            }
        }
        if k > 0 {
            assert(init[k - 1] == s[k - 1]);
        }
        k
    } else {
        assert(s.take(s.len() as int) =~= s);
        s.len() as int
    }
}

/// A text of words with one space between them is taken apart into these words.
pub proof fn law_words_are_taken_apart(first: Seq<char>, rest: Seq<char>)
    requires
        first.len() > 0,
        forall|i: int| 0 <= i < first.len() ==> !is_white_space(#[trigger] first[i]),
    ensures
        words(first) == seq![first],
        words(first + seq![' '] + rest) == seq![first] + words(rest),
        words(seq![' '] + rest) == words(rest),
        words(Seq::empty()) == Seq::<Seq<char>>::empty(),
{
    let none = Seq::<char>::empty();
    let space = seq![' '];
    assert(trim_start(none) =~= none);
    assert((space + rest).skip(1) =~= rest);
    assert(trim_start(space + rest) == trim_start(rest));
    assert(words(space + rest) == words(rest));
    let whole = first + space + rest;
    assert(whole[0] == first[0]);
    lemma_first_word(whole);
    lemma_first_word(first);
    let n = first_word(whole).len() as int;
    let m = first_word(first).len() as int;
    assert(whole[first.len() as int] == ' ');
    assert(n == first.len()) by {
        if n < first.len() {
            assert(is_white_space(whole[n]));
            assert(whole[n] == first[n]);
        }
        if n > first.len() {
            assert(!is_white_space(whole[first.len() as int]));
        }
    }
    assert(m == first.len()) by {
        if m < first.len() {
            assert(is_white_space(first[m]));
        }
    }
    assert(whole.take(n) =~= first);
    assert(first.take(m) =~= first);
    assert(whole.skip(n) =~= space + rest);
    assert(trim_start(whole) == whole);
    assert(words(whole) == seq![first_word(whole)] + words(whole.skip(n)));
    assert(first.skip(m) =~= none);
    assert(seq![first] + words(none) =~= seq![first]);
}

/// Only the capital letters of the Latin alphabet are made small, each becoming its own small
/// letter; a text that is small already stays.
pub proof fn law_lower_letters(s: Seq<char>)
    ensures
        lower_text(s).len() == s.len(),
        forall|i: int|
            0 <= i < s.len() ==> (if 'A' <= s[i] <= 'Z' {
                (#[trigger] lower_text(s)[i]) as u32 - 'a' as u32 == s[i] as u32 - 'A' as u32
            } else {
                lower_text(s)[i] == s[i]
            }),
        lower_text(lower_text(s)) == lower_text(s),
{
    assert forall|i: int| 0 <= i < s.len() && 'A' <= s[i] <= 'Z' implies (#[trigger] lower_text(
        s,
    )[i]) as u32 - 'a' as u32 == s[i] as u32 - 'A' as u32 && !('A' <= lower_text(s)[i] <= 'Z') by {
        lemma_lower_letter(s[i]);
    }
    assert(lower_text(lower_text(s)) =~= lower_text(s));
}

proof fn lemma_lower_letter(c: char)
    requires
        'A' <= c <= 'Z',
    ensures
        lower_char(c) as u32 == c as u32 + 32,
{
    let v = c as u32;
    assert(65 <= v <= 90);
    assert((c as u8) as u32 == v);
}

/// Tabs, line ends and the space are white space; letters, digits and the other visible characters
/// of the Latin alphabet are not.
pub proof fn law_white_space(c: char)
    ensures
        is_white_space(' '),
        is_white_space('\t'),
        is_white_space('\r'),
        is_white_space('\n'),
        0x21 <= c as u32 <= 0x7e ==> !is_white_space(c),
        is_white_space(c) ==> c as u32 <= 0x20 || c as u32 == 0x85 || c as u32 >= 0xa0,
        (c as u32) < 9 ==> !is_white_space(c),
        0x0e <= c as u32 <= 0x1f ==> !is_white_space(c),
{
}

/// Digits are read by their place: one more digit makes ten times the number and the digit, and
/// leading zeros make no difference.
pub proof fn law_digits_count_by_their_place(s: Seq<char>, c: char, max: int)
    requires
        forall|i: int| 0 <= i < s.len() ==> '0' <= #[trigger] s[i] <= '9',
        '0' <= c <= '9',
        s.len() > 0,
    ensures
        unsigned_value(s, max) matches Some(n) ==> unsigned_value(s.push(c), max) == if 10 * n + (
        c as u32 - '0' as u32) <= max {
            Some(10 * n + (c as u32 - '0' as u32))
        } else {
            None
        },
        unsigned_value(seq!['0'] + s, max) == unsigned_value(s, max),
        unsigned_value(seq![c], 9) == Some(c as u32 - '0' as u32),
{
    assert forall|i: int| 0 <= i < s.len() implies is_digit(#[trigger] s[i]) by {}
    let longer = s.push(c);
    assert(longer.drop_last() =~= s);
    assert(s[0] != '+');
    assert(longer[0] == s[0]);
    assert forall|i: int| 0 <= i < longer.len() implies is_digit(#[trigger] longer[i]) by {
        if i < s.len() {
            assert(longer[i] == s[i]);
        }
    }
    let padded = seq!['0'] + s;
    lemma_leading_zero(s);
    assert forall|i: int| 0 <= i < padded.len() implies is_digit(#[trigger] padded[i]) by {
        if i > 0 {
            assert(padded[i] == s[i - 1]);
        }
    }
    let one = seq![c];
    assert(one.drop_last() =~= Seq::<char>::empty());
    assert(one.last() == c);
    assert(digits_value(Seq::<char>::empty()) == 0);
    assert(digits_value(one) == digit_value(c));
    assert(is_digits(one));
}

proof fn lemma_leading_zero(s: Seq<char>)
    ensures
        digits_value(seq!['0'] + s) == digits_value(s),
    decreases s.len(),
{
    let padded = seq!['0'] + s;
    if s.len() > 0 {
        lemma_leading_zero(s.drop_last());
        assert(padded.drop_last() =~= seq!['0'] + s.drop_last());
        assert(padded.last() == s.last());
    } else {
        assert(padded.drop_last() =~= Seq::<char>::empty());
        assert(padded.last() == '0');
        assert(digits_value(Seq::<char>::empty()) == 0);
        assert(digits_value(padded) == 0);
    }
}

/// A text is found at the first place where it stands, and nowhere where it does not stand; a text
/// begins with another exactly where that is its beginning.
pub proof fn law_texts_are_found_where_they_stand(
    before: Seq<char>,
    p: Seq<char>,
    after: Seq<char>,
    s: Seq<char>,
)
    ensures
        find_text(before + p + after, p) matches Some(k) && 0 <= k <= before.len() && (before + p
            + after).subrange(k, k + p.len()) == p,
        find_text(s, p) matches Some(k) ==> 0 <= k && k + p.len() <= s.len() && s.subrange(
            k,
            k + p.len(),
        ) == p && forall|j: int|
            0 <= j < k ==> #[trigger] s.subrange(j, j + p.len()) != p,
        starts_with(p + after, p),
        starts_with(s, p) ==> s.len() >= p.len() && s.take(p.len() as int) == p,
{
    let whole = before + p + after;
    let n = before.len() as int;
    lemma_find_from(whole, p, 0);
    assert(whole.subrange(n, n + p.len()) =~= p);
    assert(occurs_at(whole, p, n));
    lemma_find_from(s, p, 0);
    if let Some(k) = find_text(s, p) {
        assert forall|j: int| 0 <= j < k implies #[trigger] s.subrange(j, j + p.len()) != p by {
            assert(!occurs_at(s, p, j));
        }
    }
    assert((p + after).subrange(0, p.len() as int) =~= p);
    if starts_with(s, p) {
        assert(s.take(p.len() as int) =~= s.subrange(0, p.len() as int));
    }
}

/// A list of strings, and an optional string, show the very texts they hold.
pub proof fn law_texts_of_strings(list: Seq<String>, text: String)
    ensures
        string_texts(list).len() == list.len(),
        forall|i: int| 0 <= i < list.len() ==> #[trigger] string_texts(list)[i] == list[i]@,
        optional_text(Some(text)) == Some(text@),
        optional_text(None) is None,
{
}

} // verus!
