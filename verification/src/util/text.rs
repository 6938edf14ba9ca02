//! Character-level text operations.
//!
//! Strings are modelled as `Seq<char>`. Executable code works on `&[char]`, which can be
//! indexed in constant time, and every operation states its result over the model.

use vstd::prelude::*;
use vstd::slice::slice_subrange;

verus! {

/// `String::push` of the standard library: appends one character to the end of the string.
pub assume_specification[ String::push ](s: &mut String, c: char)
    ensures
        final(s)@ == old(s)@.push(c),
;

/// What `str::to_lowercase` of the standard library returns for a string: its lower-case
/// form by the Unicode case mapping, which depends on nothing but the string.
pub uninterp spec fn lowercase(s: Seq<char>) -> Seq<char>;

/// `str::to_lowercase` of the standard library returns the lower-case form of the string.
pub assume_specification[ str::to_lowercase ](s: &str) -> (r: String)
    ensures
        r@ == lowercase(s@),
;

/// The characters of `s`, in order.
pub fn chars_of(s: &str) -> (v: Vec<char>)
    ensures
        v@ == s@,
{
    let mut v: Vec<char> = Vec::new();
    for c in it: s.chars()
        invariant
            it.seq() == s@,
            v@ =~= it.seq().take(it.index() as int),
    {
        v.push(c);
    }
    assert(v@ =~= s@);
    v
}

/// The string made of the characters of `v`, in order.
pub fn string_of(v: &[char]) -> (s: String)
    ensures
        s@ == v@,
{
    let mut s = String::new();
    let mut i: usize = 0;
    while i < v.len()
        invariant
            i <= v.len(),
            s@ =~= v@.take(i as int),
        decreases v.len() - i,
    {
        s.push(v[i]);
        i += 1;
    }
    assert(s@ =~= v@);
    s
}

/// Whether `a` and `b` hold the same text.
pub fn same_text(a: &str, b: &str) -> (r: bool)
    ensures
        r == (a@ == b@),
{
    a.to_owned() == b.to_owned()
}

/// Appends the characters of `v` to `out`.
pub fn push_chars(out: &mut Vec<char>, v: &[char])
    ensures
        final(out)@ == old(out)@ + v@,
{
    let mut i: usize = 0;
    while i < v.len()
        invariant
            i <= v.len(),
            out@ =~= old(out)@ + v@.take(i as int),
        decreases v.len() - i,
    {
        out.push(v[i]);
        i += 1;
    }
    assert(v@.take(v.len() as int) =~= v@);
}

/// Appends the characters of `s` to `out`.
pub fn push_str(out: &mut Vec<char>, s: &str)
    ensures
        final(out)@ == old(out)@ + s@,
{
    let v = chars_of(s);
    push_chars(out, v.as_slice());
}

/// The part of `s` from index `from` on.
pub fn skip(s: &[char], from: usize) -> (r: &[char])
    requires
        from <= s.len(),
    ensures
        r@ == s@.skip(from as int),
{
    slice_subrange(s, from, s.len())
}

/// The first `n` characters of `s`.
pub fn take(s: &[char], n: usize) -> (r: &[char])
    requires
        n <= s.len(),
    ensures
        r@ == s@.take(n as int),
{
    slice_subrange(s, 0, n)
}

/// `p` occurs in `s` at index `i`.
pub open spec fn occurs_at(s: Seq<char>, p: Seq<char>, i: int) -> bool {
    0 <= i && i + p.len() <= s.len() && s.subrange(i, i + p.len()) == p
}

/// `p` occurs somewhere in `s`.
pub open spec fn occurs_in(s: Seq<char>, p: Seq<char>) -> bool {
    exists|i: int| occurs_at(s, p, i)
}

/// `i` is the index of the first occurrence of `p` in `s`.
pub open spec fn first_occurrence(s: Seq<char>, p: Seq<char>, i: int) -> bool {
    occurs_at(s, p, i) && forall|j: int| 0 <= j < i ==> !occurs_at(s, p, j)
}

/// The index of the first occurrence of `p` in `s`, if there is one.
pub open spec fn first_index(s: Seq<char>, p: Seq<char>) -> Option<int> {
    if occurs_in(s, p) {
        Some(choose|i: int| first_occurrence(s, p, i))
    } else {
        None
    }
}

/// There is one first occurrence at most.
pub proof fn lemma_first_index(s: Seq<char>, p: Seq<char>, i: int)
    requires
        first_occurrence(s, p, i),
    ensures
        first_index(s, p) == Some(i),
{
    let j = choose|j: int| first_occurrence(s, p, j);
    assert(first_occurrence(s, p, j));
    if j < i {
        assert(!occurs_at(s, p, j));
    }
    if i < j {
        assert(!occurs_at(s, p, i));
    }
}

/// Whether `p` occurs in `s` at index `i`.
pub fn matches_at(s: &[char], p: &[char], i: usize) -> (b: bool)
    ensures
        b == occurs_at(s@, p@, i as int),
{
    if i > s.len() || p.len() > s.len() - i {
        return false;
    }
    let mut k: usize = 0;
    while k < p.len()
        invariant
            k <= p.len(),
            i + p.len() <= s.len(),
            forall|j: int| 0 <= j < k ==> s@[i + j] == p@[j],
        decreases p.len() - k,
    {
        if s[i + k] != p[k] {
            proof {
                assert(s@.subrange(i as int, i + p.len())[k as int] == s@[i + k]);
            }
            return false;
        }
        k += 1;
    }
    assert(s@.subrange(i as int, i + p.len()) =~= p@);
    true
}

/// Whether `s` begins with `p`.
pub fn starts_with(s: &[char], p: &[char]) -> (b: bool)
    ensures
        b == p@.is_prefix_of(s@),
{
    matches_at(s, p, 0)
}

/// Whether `s` ends with `p`.
pub fn ends_with(s: &[char], p: &[char]) -> (b: bool)
    ensures
        b == p@.is_suffix_of(s@),
{
    if p.len() > s.len() {
        return false;
    }
    matches_at(s, p, s.len() - p.len())
}

/// The index of the first occurrence of `p` in `s`, if there is one.
pub fn find(s: &[char], p: &[char]) -> (r: Option<usize>)
    ensures
        r matches Some(i) ==> first_index(s@, p@) == Some(i as int) && first_occurrence(
            s@,
            p@,
            i as int,
        ),
        r is None ==> first_index(s@, p@) is None && !occurs_in(s@, p@),
{
    if p.len() > s.len() {
        return None;
    }
    let last: usize = s.len() - p.len();
    let mut i: usize = 0;
    while i < last
        invariant
            i <= last,
            last == s.len() - p.len(),
            forall|j: int| 0 <= j < i ==> !occurs_at(s@, p@, j),
        decreases last - i,
    {
        if matches_at(s, p, i) {
            proof {
                lemma_first_index(s@, p@, i as int);
            }
            return Some(i);
        }
        i += 1;
    }
    if matches_at(s, p, last) {
        proof {
            lemma_first_index(s@, p@, last as int);
        }
        Some(last)
    } else {
        None
    }
}

/// Whether `p` occurs somewhere in `s`.
pub fn contains(s: &[char], p: &[char]) -> (b: bool)
    ensures
        b == occurs_in(s@, p@),
{
    find(s, p).is_some()
}

/// Whether the character `c` occurs in `s`.
pub fn contains_char(s: &[char], c: char) -> (b: bool)
    ensures
        b == s@.contains(c),
{
    let mut i: usize = 0;
    while i < s.len()
        invariant
            i <= s.len(),
            forall|j: int| 0 <= j < i ==> s@[j] != c,
        decreases s.len() - i,
    {
        if s[i] == c {
            return true;
        }
        i += 1;
    }
    false
}

/// One of `prefixes` begins `s`.
pub open spec fn starts_with_one_of(s: Seq<char>, prefixes: Seq<&'static str>) -> bool {
    exists|i: int| 0 <= i < prefixes.len() && (#[trigger] prefixes[i])@.is_prefix_of(s)
}

/// Whether one of `prefixes` begins `s`.
pub fn starts_with_any(s: &[char], prefixes: &[&'static str]) -> (b: bool)
    ensures
        b == starts_with_one_of(s@, prefixes@),
{
    let mut i: usize = 0;
    while i < prefixes.len()
        invariant
            i <= prefixes.len(),
            forall|j: int| 0 <= j < i ==> !(#[trigger] prefixes@[j])@.is_prefix_of(s@),
        decreases prefixes.len() - i,
    {
        let prefix = chars_of(prefixes[i]);
        if starts_with(s, prefix.as_slice()) {
            return true;
        }
        i += 1;
    }
    false
}

/// One of `suffixes` ends `s`.
pub open spec fn ends_with_one_of(s: Seq<char>, suffixes: Seq<&'static str>) -> bool {
    exists|i: int| 0 <= i < suffixes.len() && (#[trigger] suffixes[i])@.is_suffix_of(s)
}

/// Whether one of `suffixes` ends `s`.
pub fn ends_with_any(s: &[char], suffixes: &[&'static str]) -> (b: bool)
    ensures
        b == ends_with_one_of(s@, suffixes@),
{
    let mut i: usize = 0;
    while i < suffixes.len()
        invariant
            i <= suffixes.len(),
            forall|j: int| 0 <= j < i ==> !(#[trigger] suffixes@[j])@.is_suffix_of(s@),
        decreases suffixes.len() - i,
    {
        let suffix = chars_of(suffixes[i]);
        if ends_with(s, suffix.as_slice()) {
            return true;
        }
        i += 1;
    }
    false
}

/// How many of `patterns` occur in `s`.
pub open spec fn count_occurring(s: Seq<char>, patterns: Seq<&'static str>) -> nat
    decreases patterns.len(),
{
    if patterns.len() == 0 {
        0
    } else {
        count_occurring(s, patterns.drop_last()) + (if occurs_in(s, patterns.last()@) {
            1nat
        } else {
            0nat
        })
    }
}

/// How many of `patterns` occur in `s`.
pub fn count_contained(s: &[char], patterns: &[&'static str]) -> (n: usize)
    ensures
        n == count_occurring(s@, patterns@),
{
    let mut n: usize = 0;
    let mut i: usize = 0;
    while i < patterns.len()
        invariant
            i <= patterns.len(),
            n <= i,
            n == count_occurring(s@, patterns@.take(i as int)),
        decreases patterns.len() - i,
    {
        assert(patterns@.take(i + 1).drop_last() =~= patterns@.take(i as int));
        let pattern = chars_of(patterns[i]);
        if contains(s, pattern.as_slice()) {
            n += 1;
        }
        i += 1;
    }
    assert(patterns@.take(patterns.len() as int) =~= patterns@);
    n
}

/// The characters that count as white space: those with the Unicode property `White_Space`.
pub open spec fn is_whitespace(c: char) -> bool {
    let n = c as u32;
    ||| 0x09 <= n <= 0x0D
    ||| n == 0x20
    ||| n == 0x85
    ||| n == 0xA0
    ||| n == 0x1680
    ||| 0x2000 <= n <= 0x200A
    ||| n == 0x2028
    ||| n == 0x2029
    ||| n == 0x202F
    ||| n == 0x205F
    ||| n == 0x3000
}

/// Whether `c` is white space.
pub fn char_is_whitespace(c: char) -> (b: bool)
    ensures
        b == is_whitespace(c),
{
    let n: u32 = c as u32;
    (0x09 <= n && n <= 0x0D) || n == 0x20 || n == 0x85 || n == 0xA0 || n == 0x1680 || (0x2000 <= n
        && n <= 0x200A) || n == 0x2028 || n == 0x2029 || n == 0x202F || n == 0x205F || n == 0x3000
}

/// The decimal digits `0` to `9`.
pub open spec fn is_ascii_digit(c: char) -> bool {
    '0' <= c <= '9'
}

/// Whether `c` is a decimal digit.
pub fn char_is_ascii_digit(c: char) -> (b: bool)
    ensures
        b == is_ascii_digit(c),
{
    '0' <= c && c <= '9'
}

/// `s` without its leading white space.
pub open spec fn trimmed_start(s: Seq<char>) -> Seq<char>
    decreases s.len(),
{
    if s.len() > 0 && is_whitespace(s.first()) {
        trimmed_start(s.drop_first())
    } else {
        s
    }
}

/// `s` without its trailing white space.
pub open spec fn trimmed_end(s: Seq<char>) -> Seq<char>
    decreases s.len(),
{
    if s.len() > 0 && is_whitespace(s.last()) {
        trimmed_end(s.drop_last())
    } else {
        s
    }
}

/// `s` without its leading and trailing white space.
pub open spec fn trimmed(s: Seq<char>) -> Seq<char> {
    trimmed_end(trimmed_start(s))
}

/// `s` without its leading white space.
pub fn trim_start(s: &[char]) -> (r: &[char])
    ensures
        r@ == trimmed_start(s@),
{
    let mut start: usize = 0;
    assert(s@.skip(0) =~= s@);
    while start < s.len() && char_is_whitespace(s[start])
        invariant
            start <= s.len(),
            trimmed_start(s@) == trimmed_start(s@.skip(start as int)),
        decreases s.len() - start,
    {
        assert(s@.skip(start as int).drop_first() =~= s@.skip(start + 1));
        start += 1;
    }
    skip(s, start)
}

/// `s` without its trailing white space.
pub fn trim_end(s: &[char]) -> (r: &[char])
    ensures
        r@ == trimmed_end(s@),
{
    let mut end: usize = s.len();
    assert(s@.take(s.len() as int) =~= s@);
    while end > 0 && char_is_whitespace(s[end - 1])
        invariant
            end <= s.len(),
            trimmed_end(s@) == trimmed_end(s@.take(end as int)),
        decreases end,
    {
        assert(s@.take(end as int).drop_last() =~= s@.take(end - 1));
        end -= 1;
    }
    take(s, end)
}

/// `s` without its leading and trailing white space.
pub fn trim(s: &[char]) -> (r: &[char])
    ensures
        r@ == trimmed(s@),
{
    trim_end(trim_start(s))
}

/// Where the first line of `s` ends: at its first line feed, or at its end where it has
/// none.
pub open spec fn line_end(s: Seq<char>) -> int
    decreases s.len(),
{
    if s.len() == 0 || s.first() == '\n' {
        0
    } else {
        1 + line_end(s.drop_first())
    }
}

/// `line` without the carriage return at its end, if it has one.
pub open spec fn without_cr(line: Seq<char>) -> Seq<char> {
    if line.len() > 0 && line.last() == '\r' {
        line.drop_last()
    } else {
        line
    }
}

/// The lines of `s`. A line ends with a line feed, or with a carriage return and a line
/// feed; neither belongs to the line. The last line needs no line ending and is there only
/// if something follows the last line feed.
pub open spec fn lines(s: Seq<char>) -> Seq<Seq<char>>
    decreases s.len(),
{
    if s.len() == 0 {
        Seq::empty()
    } else {
        let n = line_end(s);
        if 0 <= n < s.len() {
            seq![without_cr(s.take(n))] + lines(s.skip(n + 1))
        } else {
            seq![s]
        }
    }
}

/// The first line ends inside the text or at its end.
pub proof fn lemma_line_end_bounds(s: Seq<char>)
    ensures
        0 <= line_end(s) <= s.len(),
        line_end(s) < s.len() ==> s[line_end(s)] == '\n',
        forall|j: int| 0 <= j < line_end(s) ==> s[j] != '\n',
    decreases s.len(),
{
    if s.len() == 0 || s.first() == '\n' {
    } else {
        let t = s.drop_first();
        lemma_line_end_bounds(t);
        assert forall|j: int| 0 <= j < line_end(s) implies s[j] != '\n' by {
            if j > 0 {
                assert(s[j] == t[j - 1]);
            }
        }
        if line_end(s) < s.len() {
            assert(s[line_end(s)] == t[line_end(t)]);
        }
    }
}

/// The first line feed of a text is where its first line ends.
pub proof fn lemma_line_end_at(s: Seq<char>, n: int)
    requires
        0 <= n <= s.len(),
        forall|j: int| 0 <= j < n ==> s[j] != '\n',
        n < s.len() ==> s[n] == '\n',
    ensures
        line_end(s) == n,
{
    lemma_line_end_bounds(s);
    let m = line_end(s);
    if m < n {
        assert(s[m] == '\n');
    }
    if n < m {
        assert(s[n] != '\n');
    }
}

/// Parts a text that is not empty into its first line and what follows that line.
pub fn split_first_line(s: &[char]) -> (r: (&[char], &[char]))
    requires
        s.len() > 0,
    ensures
        lines(s@) == seq![r.0@] + lines(r.1@),
        r.1@.len() < s@.len(),
{
    let mut n: usize = 0;
    while n < s.len() && s[n] != '\n'
        invariant
            n <= s.len(),
            forall|j: int| 0 <= j < n ==> s@[j] != '\n',
        decreases s.len() - n,
    {
        n += 1;
    }
    proof {
        lemma_line_end_at(s@, n as int);
    }
    if n == s.len() {
        let rest = skip(s, n);
        assert(rest@ =~= Seq::<char>::empty());
        assert(lines(rest@) =~= Seq::<Seq<char>>::empty());
        assert(seq![s@] + lines(rest@) =~= seq![s@]);
        (s, rest)
    } else {
        let whole = take(s, n);
        let rest = skip(s, n + 1);
        if n > 0 && s[n - 1] == '\r' {
            let line = take(s, n - 1);
            assert(line@ =~= without_cr(whole@));
            (line, rest)
        } else {
            (whole, rest)
        }
    }
}

/// Where the part of `s` after the last `c` starts: just behind the last `c`, or at 0 where
/// `s` holds no `c`.
pub open spec fn tail_start(s: Seq<char>, c: char) -> int
    decreases s.len(),
{
    if s.len() == 0 || s.last() == c {
        s.len() as int
    } else {
        tail_start(s.drop_last(), c)
    }
}

/// The part of `s` after the last `c`; all of `s` where it holds no `c`.
pub open spec fn after_last(s: Seq<char>, c: char) -> Seq<char> {
    s.skip(tail_start(s, c))
}

/// Behind a `c` that is followed by no other `c`, the part after the last `c` starts.
pub proof fn lemma_tail_start_of_joined(prefix: Seq<char>, c: char, name: Seq<char>)
    requires
        !name.contains(c),
    ensures
        tail_start(prefix.push(c) + name, c) == prefix.len() + 1,
        after_last(prefix.push(c) + name, c) == name,
    decreases name.len(),
{
    let s = prefix.push(c) + name;
    if name.len() == 0 {
        assert(s.last() == c);
    } else {
        assert(name[name.len() - 1] != c);
        assert(s.last() == name.last());
        assert(s.drop_last() =~= prefix.push(c) + name.drop_last());
        assert(!name.drop_last().contains(c)) by {
            if name.drop_last().contains(c) {
                let k = choose|k: int| 0 <= k < name.drop_last().len() && name.drop_last()[k] == c;
                assert(name[k] == c);
            }
        }
        lemma_tail_start_of_joined(prefix, c, name.drop_last());
    }
    assert(s.skip(prefix.len() as int + 1) =~= name);
}

/// The index at which the part of `s` after the last `c` starts.
pub fn tail_index(s: &[char], c: char) -> (i: usize)
    ensures
        i == tail_start(s@, c),
        i <= s.len(),
{
    let mut i: usize = s.len();
    assert(s@.take(s.len() as int) =~= s@);
    while i > 0 && s[i - 1] != c
        invariant
            i <= s.len(),
            tail_start(s@, c) == tail_start(s@.take(i as int), c),
        decreases i,
    {
        assert(s@.take(i as int).drop_last() =~= s@.take(i - 1));
        i -= 1;
    }
    i
}

/// `s` with every `from` replaced by `to`.
pub open spec fn with_replaced(s: Seq<char>, from: char, to: char) -> Seq<char> {
    s.map_values(|c: char| if c == from { to } else { c })
}

/// A copy of `s` in which every `from` is replaced by `to`.
pub fn replace_char(s: &[char], from: char, to: char) -> (r: Vec<char>)
    ensures
        r@ == with_replaced(s@, from, to),
{
    let mut r: Vec<char> = Vec::new();
    let mut i: usize = 0;
    while i < s.len()
        invariant
            i <= s.len(),
            r@ =~= with_replaced(s@.take(i as int), from, to),
        decreases s.len() - i,
    {
        let c = s[i];
        r.push(if c == from { to } else { c });
        i += 1;
    }
    assert(s@.take(s.len() as int) =~= s@);
    r
}

/// The character that stands for the digit `d`, for `d` from 0 to 9.
pub open spec fn digit_char(d: int) -> char {
    (('0' as int) + d) as char
}

/// The decimal representation of `n`, without a sign and without leading zeros.
pub open spec fn decimal(n: nat) -> Seq<char>
    decreases n,
{
    if n < 10 {
        seq![digit_char(n as int)]
    } else {
        decimal(n / 10).push(digit_char((n % 10) as int))
    }
}

/// Appends the decimal representation of `n` to `out`.
pub fn push_decimal(out: &mut Vec<char>, n: u128)
    ensures
        final(out)@ == old(out)@ + decimal(n as nat),
    decreases n,
{
    if n >= 10 {
        push_decimal(out, n / 10);
    }
    let d: u8 = (n % 10) as u8;
    out.push((48u8 + d) as char);
    assert(out@ =~= old(out)@ + decimal(n as nat));
}

/// The decimal representation of `n` as a string.
pub fn decimal_string(n: u128) -> (s: String)
    ensures
        s@ == decimal(n as nat),
{
    let mut out: Vec<char> = Vec::new();
    push_decimal(&mut out, n);
    string_of(out.as_slice())
}

} // verus!
