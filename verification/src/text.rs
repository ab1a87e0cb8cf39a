//! Text helpers: the characters of a string, byte-wise lexicographic order,
//! decimal rendering, and the few string operations taken from std on trust.

use vstd::prelude::*;
use vstd::string::StringSliceAdditionalSpecFns;

verus! {

/// The lower-case form that std gives a text.
pub uninterp spec fn lowercase_of(s: Seq<char>) -> Seq<char>;

/// `str::to_lowercase`: the result is a function of the text alone, named
/// `lowercase_of`. Nothing else is claimed of it.
#[verifier::external_body]
pub(crate) fn lowercase(s: &str) -> (r: String)
    ensures
        r@ == lowercase_of(s@),
{
    s.to_lowercase()
}

/// `String::push`: appends one character.
#[verifier::external_body]
pub(crate) fn push_char(s: &mut String, c: char)
    ensures
        final(s)@ == old(s)@.push(c),
{
    s.push(c)
}

/// `String::pop`: removes the last character and returns it, or returns
/// `None` and leaves an empty string as it is.
#[verifier::external_body]
pub(crate) fn pop_char(s: &mut String) -> (c: Option<char>)
    ensures
        old(s)@.len() == 0 ==> c is None && final(s)@ == old(s)@,
        old(s)@.len() > 0 ==> c == Some(old(s)@.last()) && final(s)@ == old(s)@.drop_last(),
{
    s.pop()
}

/// The characters of `s`, in order.
pub fn chars_of(s: &str) -> (v: Vec<char>)
    ensures
        v@ == s@,
{
    broadcast use vstd::string::group_string_axioms;

    let mut v: Vec<char> = Vec::new();
    for c in it: s.chars()
        invariant
            it.seq() == s@,
            v@ == it.seq().take(it.index()),
    {
        v.push(c);
        assert(it.seq().take(it.index() + 1) =~= it.seq().take(it.index()).push(c));
    }
    assert(v@ =~= s@);
    v
}

/// The string that holds the characters `v[from..to]`.
pub fn string_of(v: &Vec<char>, from: usize, to: usize) -> (s: String)
    requires
        from <= to <= v.len(),
    ensures
        s@ == v@.subrange(from as int, to as int),
{
    let mut s = String::new();
    let mut i: usize = from;
    while i < to
        invariant
            from <= i <= to <= v.len(),
            s@ == v@.subrange(from as int, i as int),
        decreases to - i,
    {
        push_char(&mut s, v[i]);
        assert(v@.subrange(from as int, i + 1) =~= v@.subrange(from as int, i as int).push(
            v@[i as int],
        ));
        i += 1;
    }
    s
}

/// The first position from `i` on at which `a` and `b` differ or one of
/// them ends.
pub open spec fn first_difference(a: Seq<u8>, b: Seq<u8>, i: int) -> int
    decreases a.len() - i,
{
    if 0 <= i < a.len() && i < b.len() && a[i] == b[i] {
        first_difference(a, b, i + 1)
    } else {
        i
    }
}

/// `a` stands before `b` in lexicographic order by byte value.
pub open spec fn lex_less(a: Seq<u8>, b: Seq<u8>) -> bool {
    let k = first_difference(a, b, 0);
    k < b.len() && (k == a.len() || a[k] < b[k])
}

/// What `first_difference` finds: the two agree before it, and at it they
/// differ unless one has ended.
pub proof fn lemma_first_difference(a: Seq<u8>, b: Seq<u8>, i: int)
    requires
        0 <= i <= a.len(),
        i <= b.len(),
    ensures
        i <= first_difference(a, b, i) <= a.len(),
        first_difference(a, b, i) <= b.len(),
        forall|j: int| i <= j < first_difference(a, b, i) ==> a[j] == b[j],
        first_difference(a, b, i) < a.len() && first_difference(a, b, i) < b.len() ==> a[first_difference(
            a,
            b,
            i,
        )] != b[first_difference(a, b, i)],
    decreases a.len() - i,
{
    if i < a.len() && i < b.len() && a[i] == b[i] {
        lemma_first_difference(a, b, i + 1);
    }
}

/// A position with the properties of the first difference is the first
/// difference.
pub proof fn lemma_first_difference_is(a: Seq<u8>, b: Seq<u8>, i: int, k: int)
    requires
        0 <= i <= k <= a.len(),
        k <= b.len(),
        forall|j: int| i <= j < k ==> a[j] == b[j],
        k < a.len() && k < b.len() ==> a[k] != b[k],
    ensures
        first_difference(a, b, i) == k,
    decreases k - i,
{
    if i < k {
        lemma_first_difference_is(a, b, i + 1, k);
    }
}

/// `lex_less` is a strict total order on byte strings.
pub proof fn lemma_lex_less_order(a: Seq<u8>, b: Seq<u8>, c: Seq<u8>)
    ensures
        !lex_less(a, a),
        lex_less(a, b) && lex_less(b, c) ==> lex_less(a, c),
        !lex_less(a, b) && !lex_less(b, c) ==> !lex_less(a, c),
{
    lemma_first_difference(a, a, 0);
    lemma_first_difference(a, b, 0);
    lemma_first_difference(b, c, 0);
    lemma_first_difference(a, c, 0);
    let ab = first_difference(a, b, 0);
    let bc = first_difference(b, c, 0);
    let ac = first_difference(a, c, 0);
    let k = if ab < bc { ab } else { bc };
    assert forall|j: int| 0 <= j < k implies a[j] == c[j] by {
        assert(a[j] == b[j]);
        assert(b[j] == c[j]);
    }
    if lex_less(a, b) && lex_less(b, c) {
        lemma_first_difference_is(a, c, 0, k);
    }
    if !lex_less(a, b) && !lex_less(b, c) {
        lemma_first_difference_is(a, c, 0, k);
    }
}

/// Compares two byte strings lexicographically.
pub fn bytes_less(a: &[u8], b: &[u8]) -> (r: bool)
    ensures
        r == lex_less(a@, b@),
{
    let mut i: usize = 0;
    while i < a.len() && i < b.len()
        invariant
            i <= a@.len(),
            i <= b@.len(),
            forall|j: int| 0 <= j < i ==> a@[j] == b@[j],
        decreases a@.len() - i,
    {
        if a[i] != b[i] {
            proof {
                lemma_first_difference_is(a@, b@, 0, i as int);
            }
            return a[i] < b[i];
        }
        i += 1;
    }
    proof {
        lemma_first_difference_is(a@, b@, 0, i as int);
    }
    i < b.len()
}

/// `a` stands before `b` as std orders strings: by the bytes of their UTF-8
/// form.
pub open spec fn text_less(a: Seq<char>, b: Seq<char>) -> bool {
    lex_less(vstd::utf8::encode_utf8(a), vstd::utf8::encode_utf8(b))
}

/// Compares two strings as std does.
pub fn str_less(a: &str, b: &str) -> (r: bool)
    ensures
        r == text_less(a@, b@),
{
    bytes_less(a.as_bytes(), b.as_bytes())
}

/// Whether two strings hold the same text.
pub fn same_text(a: &str, b: &str) -> (r: bool)
    ensures
        r == (a@ == b@),
{
    let x = a.to_owned();
    let y = b.to_owned();
    x == y
}

/// The character of a decimal digit.
pub open spec fn digit(d: nat) -> char {
    if d == 0 {
        '0'
    } else if d == 1 {
        '1'
    } else if d == 2 {
        '2'
    } else if d == 3 {
        '3'
    } else if d == 4 {
        '4'
    } else if d == 5 {
        '5'
    } else if d == 6 {
        '6'
    } else if d == 7 {
        '7'
    } else if d == 8 {
        '8'
    } else {
        '9'
    }
}

/// The decimal numeral of `n`, without leading zeros.
pub open spec fn decimal(n: nat) -> Seq<char>
    decreases n,
{
    if n < 10 {
        seq![digit(n)]
    } else {
        decimal(n / 10).push(digit(n % 10))
    }
}

fn digit_char(d: u64) -> (c: char)
    requires
        d < 10,
    ensures
        c == digit(d as nat),
{
    if d == 0 {
        '0'
    } else if d == 1 {
        '1'
    } else if d == 2 {
        '2'
    } else if d == 3 {
        '3'
    } else if d == 4 {
        '4'
    } else if d == 5 {
        '5'
    } else if d == 6 {
        '6'
    } else if d == 7 {
        '7'
    } else if d == 8 {
        '8'
    } else {
        '9'
    }
}

/// Appends the decimal numeral of `n` to `out`.
pub fn push_decimal(out: &mut String, n: u64)
    ensures
        final(out)@ == old(out)@ + decimal(n as nat),
    decreases n,
{
    if n < 10 {
        push_char(out, digit_char(n));
        assert(out@ =~= old(out)@ + decimal(n as nat));
    } else {
        push_decimal(out, n / 10);
        push_char(out, digit_char(n % 10));
        assert(out@ =~= old(out)@ + decimal(n as nat));
    }
}

/// The numeral of `n` in at least two digits.
pub open spec fn two_digits(n: nat) -> Seq<char> {
    if n > 9 {
        decimal(n)
    } else {
        seq!['0'] + decimal(n)
    }
}

/// A playing time of `secs` seconds as minutes and seconds, `mm:ss`.
pub open spec fn rendered_duration(secs: nat) -> Seq<char> {
    two_digits(secs / 60) + seq![':'] + two_digits(secs % 60)
}

fn push_two_digits(out: &mut String, n: u64)
    ensures
        final(out)@ == old(out)@ + two_digits(n as nat),
{
    if n <= 9 {
        push_char(out, '0');
    }
    push_decimal(out, n);
    assert(out@ =~= old(out)@ + two_digits(n as nat));
}

/// Renders a playing time of `secs` seconds as `mm:ss`.
pub fn render_duration(secs: u64) -> (r: String)
    ensures
        r@ == rendered_duration(secs as nat),
{
    let mut r = String::new();
    push_two_digits(&mut r, secs / 60);
    push_char(&mut r, ':');
    push_two_digits(&mut r, secs % 60);
    assert(r@ =~= rendered_duration(secs as nat));
    r
}

/// Whether `c` is white space: one of the characters with the Unicode
/// property `White_Space`.
pub open spec fn is_space(c: char) -> bool {
    let u = c as u32;
    ||| 0x09 <= u <= 0x0D
    ||| u == 0x20
    ||| u == 0x85
    ||| u == 0xA0
    ||| u == 0x1680
    ||| 0x2000 <= u <= 0x200A
    ||| u == 0x2028
    ||| u == 0x2029
    ||| u == 0x202F
    ||| u == 0x205F
    ||| u == 0x3000
}

/// Whether `c` is white space.
pub fn char_is_space(c: char) -> (r: bool)
    ensures
        r == is_space(c),
{
    let u = c as u32;
    (0x09 <= u && u <= 0x0D) || u == 0x20 || u == 0x85 || u == 0xA0 || u == 0x1680 || (0x2000 <= u
        && u <= 0x200A) || u == 0x2028 || u == 0x2029 || u == 0x202F || u == 0x205F || u == 0x3000
}

/// The first position from `i` on that holds no white space, or the end.
pub open spec fn text_start(s: Seq<char>, i: int) -> int
    decreases s.len() - i,
{
    if 0 <= i < s.len() && is_space(s[i]) {
        text_start(s, i + 1)
    } else {
        i
    }
}

/// The position behind the last character before `j` that is no white
/// space and stands at `from` or later, or `from`.
pub open spec fn text_end(s: Seq<char>, from: int, j: int) -> int
    decreases j,
{
    if 0 <= from < j <= s.len() && is_space(s[j - 1]) {
        text_end(s, from, j - 1)
    } else {
        j
    }
}

/// `s` without the white space at its two ends.
pub open spec fn trimmed(s: Seq<char>) -> Seq<char> {
    let from = text_start(s, 0);
    s.subrange(from, text_end(s, from, s.len() as int))
}

/// The characters `chars[from..to]` without the white space at the two
/// ends, as a string.
pub fn trim_of(chars: &Vec<char>, from: usize, to: usize) -> (r: String)
    requires
        from <= to <= chars.len(),
    ensures
        r@ == trimmed(chars@.subrange(from as int, to as int)),
{
    let ghost s = chars@.subrange(from as int, to as int);
    let mut a: usize = from;
    while a < to && char_is_space(chars[a])
        invariant
            from <= a <= to <= chars.len(),
            s == chars@.subrange(from as int, to as int),
            text_start(s, 0) == text_start(s, a - from),
        decreases to - a,
    {
        a += 1;
    }
    let mut b: usize = to;
    while b > a && char_is_space(chars[b - 1])
        invariant
            from <= a <= b <= to <= chars.len(),
            s == chars@.subrange(from as int, to as int),
            text_end(s, a - from, s.len() as int) == text_end(s, a - from, b - from),
        decreases b,
    {
        b -= 1;
    }
    let r = string_of(chars, a, b);
    assert(r@ =~= trimmed(s));
    r
}

/// The first position from `from` on that holds a line feed, or the end.
pub open spec fn line_end(s: Seq<char>, from: int) -> int
    decreases s.len() - from,
{
    if 0 <= from < s.len() && s[from] != '\n' {
        line_end(s, from + 1)
    } else {
        from
    }
}

/// The bounds of line `n` of the text from `from` on, counted from 0. A
/// line ends at a line feed or at the end of the text, and a text that
/// ends in a line feed has no empty line after it.
pub open spec fn line_bounds(s: Seq<char>, from: int, n: nat) -> Option<(int, int)>
    decreases n,
{
    if from < 0 || from >= s.len() {
        None
    } else if n == 0 {
        Some((from, line_end(s, from)))
    } else {
        line_bounds(s, line_end(s, from) + 1, (n - 1) as nat)
    }
}

/// Line `n` of `s`, if it has so many.
pub open spec fn line(s: Seq<char>, n: nat) -> Option<Seq<char>> {
    match line_bounds(s, 0, n) {
        Some((from, to)) => Some(s.subrange(from, to)),
        None => None,
    }
}

fn find_line_end(chars: &Vec<char>, from: usize) -> (r: usize)
    requires
        from <= chars.len(),
    ensures
        r == line_end(chars@, from as int),
        from <= r <= chars.len(),
{
    let mut k: usize = from;
    while k < chars.len() && chars[k] != '\n'
        invariant
            from <= k <= chars.len(),
            line_end(chars@, from as int) == line_end(chars@, k as int),
        decreases chars.len() - k,
    {
        k += 1;
    }
    k
}

/// Finds line `n` of `chars`.
pub fn find_line(chars: &Vec<char>, n: usize) -> (r: Option<(usize, usize)>)
    ensures
        match r {
            Some((from, to)) => line_bounds(chars@, 0, n as nat) == Some((from as int, to as int))
                && from <= to <= chars.len(),
            None => line_bounds(chars@, 0, n as nat) is None,
        },
{
    let mut from: usize = 0;
    let mut left: usize = n;
    while left > 0
        invariant
            from <= chars.len(),
            line_bounds(chars@, 0, n as nat) == line_bounds(chars@, from as int, left as nat),
        decreases left,
    {
        if from >= chars.len() {
            return None;
        }
        let end = find_line_end(chars, from);
        if end >= chars.len() {
            assert(line_bounds(chars@, end + 1, (left - 1) as nat) is None);
            return None;
        }
        from = end + 1;
        left -= 1;
    }
    if from >= chars.len() {
        return None;
    }
    let end = find_line_end(chars, from);
    Some((from, end))
}

/// `pattern` stands somewhere in `s`.
pub open spec fn occurs_in(pattern: Seq<char>, s: Seq<char>) -> bool {
    exists|i: int| occurs_at(pattern, s, i)
}

/// `pattern` stands in `s` at position `i`.
pub open spec fn occurs_at(pattern: Seq<char>, s: Seq<char>, i: int) -> bool {
    0 <= i && i + pattern.len() <= s.len() && s.subrange(i, i + pattern.len()) == pattern
}

fn stands_at(chars: &Vec<char>, from: usize, to: usize, pattern: &Vec<char>, i: usize) -> (r: bool)
    requires
        from <= i,
        i + pattern.len() <= to <= chars.len(),
    ensures
        r == occurs_at(pattern@, chars@.subrange(from as int, to as int), i - from),
{
    let ghost s = chars@.subrange(from as int, to as int);
    let mut k: usize = 0;
    while k < pattern.len()
        invariant
            k <= pattern.len(),
            from <= i,
            i + pattern.len() <= to <= chars.len(),
            s == chars@.subrange(from as int, to as int),
            forall|j: int| 0 <= j < k ==> s[i - from + j] == pattern@[j],
        decreases pattern.len() - k,
    {
        if chars[i + k] != pattern[k] {
            assert(s.subrange(i - from, i - from + pattern@.len())[k as int] == s[i - from + k]);
            return false;
        }
        k += 1;
    }
    assert(s.subrange(i - from, i - from + pattern@.len()) =~= pattern@);
    true
}

/// Whether `pattern` stands somewhere in `chars[from..to]`.
pub fn contains_text(chars: &Vec<char>, from: usize, to: usize, pattern: &str) -> (r: bool)
    requires
        from <= to <= chars.len(),
    ensures
        r == occurs_in(pattern@, chars@.subrange(from as int, to as int)),
{
    let ghost s = chars@.subrange(from as int, to as int);
    let pat = chars_of(pattern);
    if pat.len() > to - from {
        return false;
    }
    let last = to - pat.len();
    let mut i: usize = from;
    while i < last
        invariant
            from <= i <= last,
            last == to - pat.len(),
            from <= to <= chars.len(),
            pat.len() <= to - from,
            pat@ == pattern@,
            s == chars@.subrange(from as int, to as int),
            forall|j: int| 0 <= j < i - from ==> !occurs_at(pattern@, s, j),
        decreases last - i,
    {
        if stands_at(chars, from, to, &pat, i) {
            return true;
        }
        i += 1;
    }
    stands_at(chars, from, to, &pat, last)
}

/// The text of `s` behind its first colon, or the empty text if it has
/// none.
pub open spec fn after_colon(s: Seq<char>) -> Seq<char> {
    let k = first_of(s, ':', 0);
    if k < s.len() {
        s.skip(k + 1)
    } else {
        Seq::empty()
    }
}

/// The first position from `from` on that holds `c`, or the end.
pub open spec fn first_of(s: Seq<char>, c: char, from: int) -> int
    decreases s.len() - from,
{
    if 0 <= from < s.len() && s[from] != c {
        first_of(s, c, from + 1)
    } else {
        from
    }
}

/// Finds `c` in `chars[from..to]`: its first position, or `to`.
pub fn find_char(chars: &Vec<char>, from: usize, to: usize, c: char) -> (r: usize)
    requires
        from <= to <= chars.len(),
    ensures
        from <= r <= to,
        r - from == first_of(chars@.subrange(from as int, to as int), c, 0),
{
    let ghost s = chars@.subrange(from as int, to as int);
    let mut k: usize = from;
    while k < to && chars[k] != c
        invariant
            from <= k <= to <= chars.len(),
            s == chars@.subrange(from as int, to as int),
            first_of(s, c, 0) == first_of(s, c, k - from),
        decreases to - k,
    {
        k += 1;
    }
    k
}

} // verus!
