//! Character-level text utilities shared by the sentence splitters,
//! name mappers and prompt builders.
use vstd::prelude::*;
use vstd::string::StringExecFns;

verus! {

/// Unicode `White_Space` property, as used by `char::is_whitespace`.
pub open spec fn is_ws(c: char) -> bool {
    let u = c as u32;
    ||| (0x9 <= u && u <= 0xd)
    ||| u == 0x20
    ||| u == 0x85
    ||| u == 0xa0
    ||| u == 0x1680
    ||| (0x2000 <= u && u <= 0x200a)
    ||| u == 0x2028
    ||| u == 0x2029
    ||| u == 0x202f
    ||| u == 0x205f
    ||| u == 0x3000
}

/// Whether `c` has the Unicode `White_Space` property.
pub fn is_whitespace(c: char) -> (r: bool)
    ensures
        r == is_ws(c),
{
    let u = c as u32;
    (0x9 <= u && u <= 0xd) || u == 0x20 || u == 0x85 || u == 0xa0 || u == 0x1680 || (0x2000
        <= u && u <= 0x200a) || u == 0x2028 || u == 0x2029 || u == 0x202f || u == 0x205f || u
        == 0x3000
}

/// The characters of `s`, in order.
pub fn chars_of(s: &str) -> (r: Vec<char>)
    ensures
        r@ == s@,
{
    let mut v: Vec<char> = Vec::new();
    for c in it: s.chars()
        invariant
            v@ == it.seq().take(it.index() as int),
    {
        v.push(c);
    }
    v
}


/// Append one character to a `String` (std `String::push`).
#[verifier::external_body]
pub fn push_char(s: &mut String, c: char)
    ensures
        final(s)@ == old(s)@.push(c),
{
    s.push(c)
}

/// A `String` holding the characters of `v`.
pub fn string_from_chars(v: &[char]) -> (r: String)
    ensures
        r@ == v@,
{
    let mut s = String::new();
    let mut i: usize = 0;
    while i < v.len()
        invariant
            i <= v@.len(),
            s@ == v@.take(i as int),
        decreases v@.len() - i,
    {
        push_char(&mut s, v[i]);
        i = i + 1;
        assert(s@ =~= v@.take(i as int));
    }
    assert(v@.take(v@.len() as int) =~= v@);
    s
}

/// `s` without its leading whitespace.
pub open spec fn trim_start(s: Seq<char>) -> Seq<char>
    decreases s.len(),
{
    if s.len() > 0 && is_ws(s[0]) {
        trim_start(s.drop_first())
    } else {
        s
    }
}

/// `s` without its trailing whitespace.
pub open spec fn trim_end(s: Seq<char>) -> Seq<char>
    decreases s.len(),
{
    if s.len() > 0 && is_ws(s.last()) {
        trim_end(s.drop_last())
    } else {
        s
    }
}

/// `s` without leading and trailing whitespace (`str::trim`).
pub open spec fn trim(s: Seq<char>) -> Seq<char> {
    trim_end(trim_start(s))
}

/// Number of leading whitespace characters of `s`.
pub fn leading_ws(s: &[char], lo: usize, hi: usize) -> (n: usize)
    requires
        lo <= hi <= s@.len(),
    ensures
        lo <= n <= hi,
        trim_start(s@.subrange(lo as int, hi as int)) == s@.subrange(n as int, hi as int),
    decreases hi - lo,
{
    if lo < hi && is_whitespace(s[lo]) {
        let n = leading_ws(s, lo + 1, hi);
        assert(s@.subrange(lo as int, hi as int).drop_first() =~= s@.subrange(lo + 1, hi as int));
        n
    } else {
        lo
    }
}

/// End of `s[lo..hi]` once its trailing whitespace is removed.
pub fn trailing_ws_end(s: &[char], lo: usize, hi: usize) -> (n: usize)
    requires
        lo <= hi <= s@.len(),
    ensures
        lo <= n <= hi,
        trim_end(s@.subrange(lo as int, hi as int)) == s@.subrange(lo as int, n as int),
    decreases hi - lo,
{
    if lo < hi && is_whitespace(s[hi - 1]) {
        let n = trailing_ws_end(s, lo, hi - 1);
        assert(s@.subrange(lo as int, hi as int).drop_last() =~= s@.subrange(lo as int, hi - 1));
        n
    } else {
        hi
    }
}


/// Bounds of `trim(s[lo..hi])` inside `s`.
pub fn trim_bounds(s: &[char], lo: usize, hi: usize) -> (r: (usize, usize))
    requires
        lo <= hi <= s@.len(),
    ensures
        lo <= r.0 <= r.1 <= hi,
        trim(s@.subrange(lo as int, hi as int)) == s@.subrange(r.0 as int, r.1 as int),
{
    let a = leading_ws(s, lo, hi);
    let b = trailing_ws_end(s, a, hi);
    (a, b)
}

/// A `String` holding `trim(s[lo..hi])`.
pub fn trimmed_string(s: &[char], lo: usize, hi: usize) -> (r: String)
    requires
        lo <= hi <= s@.len(),
    ensures
        r@ == trim(s@.subrange(lo as int, hi as int)),
{
    let (a, b) = trim_bounds(s, lo, hi);
    let mut out = String::new();
    let mut i = a;
    while i < b
        invariant
            a <= i <= b <= s@.len(),
            out@ == s@.subrange(a as int, i as int),
        decreases b - i,
    {
        push_char(&mut out, s[i]);
        i = i + 1;
        assert(out@ =~= s@.subrange(a as int, i as int));
    }
    out
}

/// Whether `s` holds nothing but whitespace (`s.trim().is_empty()`).
pub fn is_blank(s: &str) -> (r: bool)
    ensures
        r == (trim(s@).len() == 0),
{
    let c = chars_of(s);
    let (a, b) = trim_bounds(c.as_slice(), 0, c.len());
    assert(c@.subrange(0, c@.len() as int) =~= c@);
    a == b
}

/// The views of a sequence of strings.
pub open spec fn strings_view(v: Seq<String>) -> Seq<Seq<char>> {
    v.map_values(|x: String| x@)
}

/// Number of whitespace-separated words among the first `n` characters of `s`
/// (a word starts at a non-whitespace character at the start or after whitespace).
pub open spec fn words_upto(s: Seq<char>, n: int) -> nat
    decreases n,
{
    if n <= 0 {
        0
    } else if !is_ws(s[n - 1]) && (n - 1 == 0 || is_ws(s[n - 2])) {
        words_upto(s, n - 1) + 1
    } else {
        words_upto(s, n - 1)
    }
}

/// Number of words of `s` (`s.split_whitespace().count()`).
pub open spec fn word_count(s: Seq<char>) -> nat {
    words_upto(s, s.len() as int)
}

/// Counts the words of `s`.
pub fn count_words(s: &[char]) -> (n: usize)
    ensures
        n == word_count(s@),
{
    let mut n: usize = 0;
    let mut i: usize = 0;
    while i < s.len()
        invariant
            i <= s@.len(),
            n == words_upto(s@, i as int),
            n <= i,
        decreases s@.len() - i,
    {
        if !is_whitespace(s[i]) && (i == 0 || is_whitespace(s[i - 1])) {
            n = n + 1;
        }
        i = i + 1;
    }
    n
}


/// A copy of `s[lo..hi]`.
pub fn copy_range(s: &[char], lo: usize, hi: usize) -> (r: Vec<char>)
    requires
        lo <= hi <= s@.len(),
    ensures
        r@ == s@.subrange(lo as int, hi as int),
{
    let mut v: Vec<char> = Vec::new();
    let mut i = lo;
    while i < hi
        invariant
            lo <= i <= hi <= s@.len(),
            v@ == s@.subrange(lo as int, i as int),
        decreases hi - i,
    {
        v.push(s[i]);
        i = i + 1;
        assert(v@ =~= s@.subrange(lo as int, i as int));
    }
    v
}

/// A `String` holding `s[lo..hi]`.
pub fn string_of_range(s: &[char], lo: usize, hi: usize) -> (r: String)
    requires
        lo <= hi <= s@.len(),
    ensures
        r@ == s@.subrange(lo as int, hi as int),
{
    let v = copy_range(s, lo, hi);
    string_from_chars(v.as_slice())
}

/// `a` followed by `b`.
pub fn concat_chars(a: &[char], b: &[char]) -> (r: Vec<char>)
    ensures
        r@ == a@ + b@,
{
    let mut v = copy_range(a, 0, a.len());
    let mut i: usize = 0;
    assert(a@.subrange(0, a@.len() as int) =~= a@);
    while i < b.len()
        invariant
            i <= b@.len(),
            v@ == a@ + b@.take(i as int),
        decreases b@.len() - i,
    {
        v.push(b[i]);
        i = i + 1;
        assert(v@ =~= a@ + b@.take(i as int));
    }
    assert(b@.take(b@.len() as int) =~= b@);
    v
}


/// The non-whitespace characters of `s`, in order.
pub open spec fn strip_ws(s: Seq<char>) -> Seq<char>
    decreases s.len(),
{
    if s.len() == 0 {
        seq![]
    } else if is_ws(s.last()) {
        strip_ws(s.drop_last())
    } else {
        strip_ws(s.drop_last()).push(s.last())
    }
}

/// The concatenation of a sequence of strings.
pub open spec fn flat(ss: Seq<Seq<char>>) -> Seq<char>
    decreases ss.len(),
{
    if ss.len() == 0 {
        seq![]
    } else {
        flat(ss.drop_last()) + ss.last()
    }
}

/// Stripping whitespace distributes over concatenation.
pub proof fn lemma_strip_concat(a: Seq<char>, b: Seq<char>)
    ensures
        strip_ws(a + b) == strip_ws(a) + strip_ws(b),
    decreases b.len(),
{
    if b.len() == 0 {
        assert(a + b =~= a);
        assert(strip_ws(a) + strip_ws(b) =~= strip_ws(a));
    } else {
        lemma_strip_concat(a, b.drop_last());
        assert((a + b).drop_last() =~= a + b.drop_last());
        assert((a + b).last() == b.last());
        if is_ws(b.last()) {
        } else {
            assert(strip_ws(a) + strip_ws(b) =~= (strip_ws(a) + strip_ws(b.drop_last())).push(
                b.last(),
            ));
        }
    }
}

/// Removing leading whitespace keeps the non-whitespace characters.
pub proof fn lemma_strip_trim_start(s: Seq<char>)
    ensures
        strip_ws(trim_start(s)) == strip_ws(s),
    decreases s.len(),
{
    if s.len() > 0 && is_ws(s[0]) {
        lemma_strip_trim_start(s.drop_first());
        assert(s =~= seq![s[0]] + s.drop_first());
        lemma_strip_concat(seq![s[0]], s.drop_first());
        let one = seq![s[0]];
        assert(one.drop_last() =~= Seq::<char>::empty());
        assert(one.last() == s[0]);
        assert(strip_ws(one.drop_last()) =~= Seq::<char>::empty());
        assert(strip_ws(one) =~= Seq::<char>::empty());
        assert(strip_ws(seq![s[0]]) + strip_ws(s.drop_first()) =~= strip_ws(s.drop_first()));
    }
}

/// Removing trailing whitespace keeps the non-whitespace characters.
pub proof fn lemma_strip_trim_end(s: Seq<char>)
    ensures
        strip_ws(trim_end(s)) == strip_ws(s),
    decreases s.len(),
{
    if s.len() > 0 && is_ws(s.last()) {
        lemma_strip_trim_end(s.drop_last());
    }
}

/// Trimming keeps the non-whitespace characters.
pub proof fn lemma_strip_trim(s: Seq<char>)
    ensures
        strip_ws(trim(s)) == strip_ws(s),
{
    lemma_strip_trim_start(s);
    lemma_strip_trim_end(trim_start(s));
}

/// Concatenating one more string.
pub proof fn lemma_flat_push(ss: Seq<Seq<char>>, t: Seq<char>)
    ensures
        flat(ss.push(t)) == flat(ss) + t,
{
    assert(ss.push(t).drop_last() =~= ss);
}

/// Concatenation of two sequences of strings.
pub proof fn lemma_flat_append(a: Seq<Seq<char>>, b: Seq<Seq<char>>)
    ensures
        flat(a + b) == flat(a) + flat(b),
    decreases b.len(),
{
    if b.len() == 0 {
        assert(a + b =~= a);
        assert(flat(a) + flat(b) =~= flat(a));
    } else {
        lemma_flat_append(a, b.drop_last());
        assert((a + b).drop_last() =~= a + b.drop_last());
        assert(flat(a) + flat(b) =~= flat(a) + flat(b.drop_last()) + b.last());
    }
}

/// The whitespace-free content of a string that is entirely whitespace is empty.
pub proof fn lemma_strip_empty_trim(s: Seq<char>)
    requires
        trim(s).len() == 0,
    ensures
        strip_ws(s) == Seq::<char>::empty(),
{
    lemma_strip_trim(s);
    assert(trim(s) =~= Seq::<char>::empty());
}


/// `trim_start(s)` is a suffix of `s` that does not start with whitespace.
pub proof fn lemma_trim_start_shape(s: Seq<char>)
    ensures
        exists|k: int|
            0 <= k <= s.len() && #[trigger] s.subrange(k, s.len() as int) == trim_start(s),
        trim_start(s).len() > 0 ==> !is_ws(trim_start(s)[0]),
    decreases s.len(),
{
    if s.len() > 0 && is_ws(s[0]) {
        lemma_trim_start_shape(s.drop_first());
        let k = choose|k: int|
            0 <= k <= s.drop_first().len() && #[trigger] s.drop_first().subrange(
                k,
                s.drop_first().len() as int,
            ) == trim_start(s.drop_first());
        assert(s.subrange(k + 1, s.len() as int) =~= s.drop_first().subrange(
            k,
            s.drop_first().len() as int,
        ));
    } else {
        assert(s.subrange(0, s.len() as int) =~= s);
    }
}

/// `trim_end(s)` is a prefix of `s` that does not end with whitespace.
pub proof fn lemma_trim_end_shape(s: Seq<char>)
    ensures
        exists|k: int| 0 <= k <= s.len() && #[trigger] s.subrange(0, k) == trim_end(s),
        trim_end(s).len() > 0 ==> !is_ws(trim_end(s).last()),
    decreases s.len(),
{
    if s.len() > 0 && is_ws(s.last()) {
        lemma_trim_end_shape(s.drop_last());
        let k = choose|k: int|
            0 <= k <= s.drop_last().len() && #[trigger] s.drop_last().subrange(0, k) == trim_end(
                s.drop_last(),
            );
        assert(s.subrange(0, k) =~= s.drop_last().subrange(0, k));
    } else {
        assert(s.subrange(0, s.len() as int) =~= s);
    }
}

/// Text whose first character is not whitespace keeps a character when its
/// whitespace is stripped.
pub proof fn lemma_strip_nonempty(x: Seq<char>)
    requires
        x.len() > 0,
        !is_ws(x[0]),
    ensures
        strip_ws(x).len() > 0,
    decreases x.len(),
{
    if x.len() > 1 {
        lemma_strip_nonempty(x.drop_last());
    } else {
        assert(x.drop_last().len() == 0);
    }
}

/// Text is blank exactly when stripping its whitespace leaves nothing.
pub proof fn lemma_blank_iff_strip_empty(s: Seq<char>)
    ensures
        (trim(s).len() == 0) <==> (strip_ws(s).len() == 0),
{
    lemma_strip_trim(s);
    if trim(s).len() > 0 {
        lemma_trim_start_shape(s);
        let y = trim_start(s);
        lemma_trim_end_shape(y);
        let k2 = choose|k2: int| 0 <= k2 <= y.len() && #[trigger] y.subrange(0, k2) == trim_end(y);
        assert(trim(s)[0] == y[0]);
        lemma_strip_nonempty(trim(s));
    } else {
        assert(trim(s) =~= Seq::<char>::empty());
        assert(strip_ws(Seq::<char>::empty()) =~= Seq::<char>::empty());
    }
}

/// A non-blank text that ends in a non-whitespace character keeps that
/// character last when trimmed.
pub proof fn lemma_trim_keeps_last(x: Seq<char>)
    requires
        x.len() > 0,
        !is_ws(x.last()),
        trim(x).len() > 0,
    ensures
        trim(x).last() == x.last(),
{
    lemma_trim_start_shape(x);
    let y = trim_start(x);
    let k = choose|k: int| 0 <= k <= x.len() && #[trigger] x.subrange(k, x.len() as int) == trim_start(x);
    assert(y.len() > 0);
    assert(y.last() == x.last());
}

/// Trimming twice is trimming once.
pub proof fn lemma_trim_idempotent(s: Seq<char>)
    ensures
        trim(trim(s)) == trim(s),
{
    let z = trim_start(s);
    let y = trim_end(z);
    lemma_trim_start_shape(s);
    lemma_trim_end_shape(z);
    if y.len() > 0 {
        let k = choose|k: int| 0 <= k <= z.len() && #[trigger] z.subrange(0, k) == trim_end(z);
        assert(y[0] == z[0]);
        assert(trim_start(y) == y);
        assert(trim_end(y) == y);
    } else {
        assert(trim_start(y) == y);
    }
}


/// `needle` occurs in `hay` at position `i`.
pub open spec fn occurs_at(hay: Seq<char>, needle: Seq<char>, i: int) -> bool {
    0 <= i && i + needle.len() <= hay.len() && hay.subrange(i, i + needle.len()) == needle
}

/// `needle` occurs somewhere in `hay` (`str::contains`).
pub open spec fn contains(hay: Seq<char>, needle: Seq<char>) -> bool {
    exists|i: int| #[trigger] occurs_at(hay, needle, i)
}

/// Whether `needle` occurs in `hay`.
pub fn contains_str(hay: &str, needle: &str) -> (r: bool)
    ensures
        r == contains(hay@, needle@),
{
    let h = chars_of(hay);
    let n = chars_of(needle);
    if n.len() > h.len() {
        assert forall|i: int| !occurs_at(h@, n@, i) by {}
        return false;
    }
    let last = h.len() - n.len();
    let mut i: usize = 0;
    loop
        invariant
            h@ == hay@,
            n@ == needle@,
            last == h@.len() - n@.len(),
            i <= last,
            forall|j: int| 0 <= j < i ==> !occurs_at(h@, n@, j),
            n@.len() <= h@.len(),
        decreases last - i,
    {
        if occurs_at_exec(h.as_slice(), n.as_slice(), i) {
            assert(occurs_at(h@, n@, i as int));
            return true;
        }
        if i == last {
            assert forall|j: int| !occurs_at(h@, n@, j) by {
                if j > i {
                }
            }
            return false;
        }
        i = i + 1;
    }
}

/// Whether `needle` occurs in `hay` at position `i`.
pub fn occurs_at_exec(hay: &[char], needle: &[char], i: usize) -> (r: bool)
    ensures
        r == occurs_at(hay@, needle@, i as int),
{
    if i > hay.len() || needle.len() > hay.len() - i {
        return false;
    }
    let mut k: usize = 0;
    while k < needle.len()
        invariant
            i + needle@.len() <= hay@.len(),
            hay@.len() == hay.len(),
            k <= needle@.len(),
            forall|j: int| 0 <= j < k ==> hay@[i + j] == needle@[j],
        decreases needle@.len() - k,
    {
        if hay[i + k] != needle[k] {
            assert(hay@.subrange(i as int, i + needle@.len())[k as int] != needle@[k as int]);
            return false;
        }
        k = k + 1;
    }
    assert(hay@.subrange(i as int, i + needle@.len()) =~= needle@);
    true
}

/// `s` starts with `p`.
pub open spec fn has_prefix(s: Seq<char>, p: Seq<char>) -> bool {
    p.len() <= s.len() && s.subrange(0, p.len() as int) == p
}

/// `s` ends with `p`.
pub open spec fn has_suffix(s: Seq<char>, p: Seq<char>) -> bool {
    p.len() <= s.len() && s.subrange(s.len() - p.len(), s.len() as int) == p
}

/// Whether `s` starts with `p`.
pub fn starts_with(s: &str, p: &str) -> (r: bool)
    ensures
        r == has_prefix(s@, p@),
{
    let a = chars_of(s);
    let b = chars_of(p);
    occurs_at_exec(a.as_slice(), b.as_slice(), 0)
}

/// Whether `s` ends with `p`.
pub fn ends_with(s: &str, p: &str) -> (r: bool)
    ensures
        r == has_suffix(s@, p@),
{
    let a = chars_of(s);
    let b = chars_of(p);
    if b.len() > a.len() {
        return false;
    }
    occurs_at_exec(a.as_slice(), b.as_slice(), a.len() - b.len())
}

/// The decimal digit character for `d < 10`.
pub open spec fn digit_char(d: int) -> char {
    ((d + 48) as u32) as char
}

/// Decimal representation of `n`, without leading zeros.
pub open spec fn dec(n: nat) -> Seq<char>
    decreases n,
{
    if n < 10 {
        seq![digit_char(n as int)]
    } else {
        dec(n / 10).push(digit_char((n % 10) as int))
    }
}

/// The digit character of `d`.
pub fn digit_to_char(d: u64) -> (c: char)
    requires
        d < 10,
    ensures
        c == digit_char(d as int),
{
    if d == 0 {
        '0'
    } else if d == 1 {
        '1'
    } else if d == 2 {
        '2'
    } else if d == 3 {
        '3'
    } else if d == 4 {
        '4'
    } else if d == 5 {
        '5'
    } else if d == 6 {
        '6'
    } else if d == 7 {
        '7'
    } else if d == 8 {
        '8'
    } else {
        '9'
    }
}

/// Appends the decimal representation of `n` to `out`.
pub fn push_decimal(out: &mut String, n: u64)
    ensures
        final(out)@ == old(out)@ + dec(n as nat),
    decreases n,
{
    if n >= 10 {
        push_decimal(out, n / 10);
    }
    let c = digit_to_char(n % 10);
    push_char(out, c);
    if n >= 10 {
        assert(old(out)@ + dec(n as nat) =~= (old(out)@ + dec((n / 10) as nat)).push(c));
    } else {
        assert(old(out)@ + dec(n as nat) =~= old(out)@.push(c));
    }
}

/// Appends `t` to `out`.
pub fn push_str(out: &mut String, t: &str)
    ensures
        final(out)@ == old(out)@ + t@,
{
    out.append(t);
}

/// Whether `c` is an ASCII digit.
pub open spec fn is_digit(c: char) -> bool {
    '0' <= c && c <= '9'
}

/// All characters of `s` are ASCII digits.
pub open spec fn all_digits(s: Seq<char>) -> bool {
    forall|i: int| 0 <= i < s.len() ==> #[trigger] is_digit(s[i])
}

/// The value of a string of decimal digits.
pub open spec fn digits_value(s: Seq<char>) -> nat
    decreases s.len(),
{
    if s.len() == 0 {
        0
    } else {
        digits_value(s.drop_last()) * 10 + ((s.last() as u32) - 48) as nat
    }
}

/// `u64::from_str`: an optional `+`, then one or more decimal digits whose
/// value fits in 64 bits.
pub open spec fn parse_u64_spec(s: Seq<char>) -> Option<u64> {
    let body = if s.len() > 1 && s[0] == '+' {
        s.drop_first()
    } else {
        s
    };
    if body.len() > 0 && all_digits(body) && digits_value(body) <= u64::MAX {
        Some(digits_value(body) as u64)
    } else {
        None
    }
}

/// Parses the decimal digits `s[lo..hi]`; `None` on a non-digit or overflow.
pub fn parse_digits(s: &[char], lo: usize, hi: usize) -> (r: Option<u64>)
    requires
        lo <= hi <= s@.len(),
    ensures
        r == (if all_digits(s@.subrange(lo as int, hi as int)) && digits_value(
            s@.subrange(lo as int, hi as int),
        ) <= u64::MAX {
            Some(digits_value(s@.subrange(lo as int, hi as int)) as u64)
        } else {
            None
        }),
{
    let mut v: u64 = 0;
    let mut i = lo;
    while i < hi
        invariant
            lo <= i <= hi <= s@.len(),
            all_digits(s@.subrange(lo as int, i as int)),
            v == digits_value(s@.subrange(lo as int, i as int)),
        decreases hi - i,
    {
        let c = s[i];
        let ghost pre = s@.subrange(lo as int, i as int);
        let ghost next = s@.subrange(lo as int, i + 1);
        assert(next.drop_last() =~= pre);
        if !('0' <= c && c <= '9') {
            assert(!is_digit(s@.subrange(lo as int, hi as int)[i - lo]));
            return None;
        }
        let d = (c as u32 - 48) as u64;
        if v > (u64::MAX - d) / 10 {
            proof {
                lemma_digits_value_prefix_grows(s@.subrange(lo as int, hi as int), i - lo + 1);
                assert(s@.subrange(lo as int, hi as int).subrange(0, i - lo + 1) =~= next);
                assert(digits_value(next) == v * 10 + d) by (nonlinear_arith)
                    requires
                        digits_value(next) == digits_value(pre) * 10 + d,
                        v == digits_value(pre),
                ;
                assert(v * 10 + d > u64::MAX) by (nonlinear_arith)
                    requires
                        v > (u64::MAX - d) / 10,
                        d < 10,
                ;
            }
            return None;
        }
        v = v * 10 + d;
        i = i + 1;
        assert(all_digits(next)) by {
            assert forall|j: int| 0 <= j < next.len() implies #[trigger] is_digit(next[j]) by {
                if j < pre.len() {
                    assert(next[j] == pre[j]);
                }
            }
        }
    }
    Some(v)
}

/// Whether `s[lo..hi]` is all digits.
pub fn all_digits_range(s: &[char], lo: usize, hi: usize) -> (r: bool)
    requires
        lo <= hi <= s@.len(),
    ensures
        r == all_digits(s@.subrange(lo as int, hi as int)),
{
    let mut i = lo;
    while i < hi
        invariant
            lo <= i <= hi <= s@.len(),
            all_digits(s@.subrange(lo as int, i as int)),
        decreases hi - i,
    {
        if !('0' <= s[i] && s[i] <= '9') {
            assert(!is_digit(s@.subrange(lo as int, hi as int)[i - lo]));
            return false;
        }
        i = i + 1;
        let ghost next = s@.subrange(lo as int, i as int);
        assert(all_digits(next)) by {
            assert forall|j: int| 0 <= j < next.len() implies #[trigger] is_digit(next[j]) by {
                assert(next[j] == s@[lo + j]);
            }
        }
    }
    true
}

/// A longer digit string has at least the value of its prefixes.
pub proof fn lemma_digits_value_prefix_grows(s: Seq<char>, k: int)
    requires
        0 <= k <= s.len(),
    ensures
        digits_value(s.subrange(0, k)) <= digits_value(s),
    decreases s.len() - k,
{
    if k < s.len() {
        lemma_digits_value_prefix_grows(s.drop_last(), if k < s.len() { k } else { k - 1 });
        assert(s.drop_last().subrange(0, k) =~= s.subrange(0, k));
    } else {
        assert(s.subrange(0, k) =~= s);
    }
}


/// Parses `s` as `u64::from_str` does.
pub fn parse_u64(s: &[char], lo: usize, hi: usize) -> (r: Option<u64>)
    requires
        lo <= hi <= s@.len(),
    ensures
        r == parse_u64_spec(s@.subrange(lo as int, hi as int)),
{
    let ghost t = s@.subrange(lo as int, hi as int);
    if hi == lo {
        return None;
    }
    if hi - lo > 1 && s[lo] == '+' {
        assert(t.drop_first() =~= s@.subrange(lo + 1, hi as int));
        parse_digits(s, lo + 1, hi)
    } else {
        parse_digits(s, lo, hi)
    }
}

/// The leading run of non-whitespace characters of `t`.
pub open spec fn word_prefix(t: Seq<char>) -> Seq<char>
    decreases t.len(),
{
    if t.len() == 0 || is_ws(t[0]) {
        seq![]
    } else {
        seq![t[0]] + word_prefix(t.drop_first())
    }
}

/// The first whitespace-separated word of `s`, if any
/// (`s.split_whitespace().next()`).
pub open spec fn first_word(s: Seq<char>) -> Option<Seq<char>> {
    if trim_start(s).len() == 0 {
        None
    } else {
        Some(word_prefix(trim_start(s)))
    }
}

/// End of the word that starts at `lo` in `s[..hi]`.
pub fn word_end(s: &[char], lo: usize, hi: usize) -> (n: usize)
    requires
        lo <= hi <= s@.len(),
    ensures
        lo <= n <= hi,
        word_prefix(s@.subrange(lo as int, hi as int)) == s@.subrange(lo as int, n as int),
    decreases hi - lo,
{
    if lo < hi && !is_whitespace(s[lo]) {
        let n = word_end(s, lo + 1, hi);
        assert(s@.subrange(lo as int, hi as int).drop_first() =~= s@.subrange(lo + 1, hi as int));
        assert(s@.subrange(lo as int, n as int) =~= seq![s@[lo as int]] + s@.subrange(
            lo + 1,
            n as int,
        ));
        n
    } else {
        assert(s@.subrange(lo as int, lo as int) =~= Seq::<char>::empty());
        lo
    }
}

/// The first whitespace-separated word of `s` (`s.split_whitespace().next()`).
pub fn first_word_str(s: &str) -> (r: Option<String>)
    ensures
        match first_word(s@) {
            Some(w) => r matches Some(x) && x@ == w,
            None => r is None,
        },
{
    let c = chars_of(s);
    let hi = c.len();
    assert(c@.subrange(0, hi as int) =~= c@);
    let a = leading_ws(c.as_slice(), 0, hi);
    if a == hi {
        return None;
    }
    let b = word_end(c.as_slice(), a, hi);
    Some(string_of_range(c.as_slice(), a, b))
}

/// Scanning the first `i` characters of `s`: the words completed so far and
/// the start of the word being read (-1 between words).
pub open spec fn word_scan(s: Seq<char>, i: int) -> (Seq<Seq<char>>, int)
    decreases i,
{
    if i <= 0 {
        (seq![], -1)
    } else {
        let (ws, st) = word_scan(s, i - 1);
        if is_ws(s[i - 1]) {
            if st >= 0 {
                (ws.push(s.subrange(st, i - 1)), -1)
            } else {
                (ws, -1)
            }
        } else if st >= 0 {
            (ws, st)
        } else {
            (ws, i - 1)
        }
    }
}

/// The whitespace-separated words of `s`, in order (`split_whitespace`).
pub open spec fn split_ws(s: Seq<char>) -> Seq<Seq<char>> {
    let (ws, st) = word_scan(s, s.len() as int);
    if st >= 0 {
        ws.push(s.subrange(st, s.len() as int))
    } else {
        ws
    }
}

/// The bounds of a scan stay within the scanned prefix.
pub proof fn lemma_word_scan_bounds(s: Seq<char>, i: int)
    requires
        0 <= i <= s.len(),
    ensures
        -1 <= word_scan(s, i).1 < i,
    decreases i,
{
    if i > 0 {
        lemma_word_scan_bounds(s, i - 1);
    }
}

/// The whitespace-separated words of `s`.
pub fn split_whitespace(s: &str) -> (r: Vec<String>)
    ensures
        strings_view(r@) == split_ws(s@),
{
    let c = chars_of(s);
    let n = c.len();
    let mut out: Vec<String> = Vec::new();
    let mut in_word = false;
    let mut start: usize = 0;
    let mut i: usize = 0;
    while i < n
        invariant
            c@ == s@,
            n == c@.len(),
            i <= n,
            start <= i,
            strings_view(out@) == word_scan(c@, i as int).0,
            in_word ==> word_scan(c@, i as int).1 == start as int,
            !in_word ==> word_scan(c@, i as int).1 == -1,
        decreases n - i,
    {
        let ghost before = strings_view(out@);
        if is_whitespace(c[i]) {
            if in_word {
                let w = string_of_range(c.as_slice(), start, i);
                out.push(w);
                assert(strings_view(out@) =~= before.push(c@.subrange(start as int, i as int)));
                in_word = false;
            }
        } else if !in_word {
            in_word = true;
            start = i;
        }
        i = i + 1;
    }
    if in_word {
        let ghost before = strings_view(out@);
        let w = string_of_range(c.as_slice(), start, n);
        out.push(w);
        assert(strings_view(out@) =~= before.push(c@.subrange(start as int, n as int)));
    }
    out
}

/// Whether `c` is alphabetic or numeric in Unicode (`char::is_alphanumeric`).
pub uninterp spec fn alphanumeric(c: char) -> bool;

/// An ASCII letter or digit.
pub open spec fn ascii_alnum(c: char) -> bool {
    ('a' <= c && c <= 'z') || ('A' <= c && c <= 'Z') || ('0' <= c && c <= '9')
}

/// `char::is_alphanumeric`. Of the Unicode tables only the ASCII part is
/// stated: an ASCII character is alphanumeric exactly when it is a letter
/// or a digit.
#[verifier::external_body]
pub fn is_alphanumeric(c: char) -> (r: bool)
    ensures
        r == alphanumeric(c),
        (c as u32) < 128 ==> (r <==> ascii_alnum(c)),
{
    c.is_alphanumeric()
}

/// `s` without leading characters that are not alphanumeric.
pub open spec fn trim_start_nonalnum(s: Seq<char>) -> Seq<char>
    decreases s.len(),
{
    if s.len() > 0 && !alphanumeric(s[0]) {
        trim_start_nonalnum(s.drop_first())
    } else {
        s
    }
}

/// `s` without trailing characters that are not alphanumeric.
pub open spec fn trim_end_nonalnum(s: Seq<char>) -> Seq<char>
    decreases s.len(),
{
    if s.len() > 0 && !alphanumeric(s.last()) {
        trim_end_nonalnum(s.drop_last())
    } else {
        s
    }
}

/// `s` with the characters that are not alphanumeric removed from both ends
/// (`trim_matches(|c| !c.is_alphanumeric())`).
pub open spec fn trim_nonalnum(s: Seq<char>) -> Seq<char> {
    trim_end_nonalnum(trim_start_nonalnum(s))
}

fn nonalnum_start(s: &[char], lo: usize, hi: usize) -> (n: usize)
    requires
        lo <= hi <= s@.len(),
    ensures
        lo <= n <= hi,
        trim_start_nonalnum(s@.subrange(lo as int, hi as int)) == s@.subrange(n as int, hi as int),
    decreases hi - lo,
{
    if lo < hi && !is_alphanumeric(s[lo]) {
        let n = nonalnum_start(s, lo + 1, hi);
        assert(s@.subrange(lo as int, hi as int).drop_first() =~= s@.subrange(lo + 1, hi as int));
        n
    } else {
        lo
    }
}

fn nonalnum_end(s: &[char], lo: usize, hi: usize) -> (n: usize)
    requires
        lo <= hi <= s@.len(),
    ensures
        lo <= n <= hi,
        trim_end_nonalnum(s@.subrange(lo as int, hi as int)) == s@.subrange(lo as int, n as int),
    decreases hi - lo,
{
    if lo < hi && !is_alphanumeric(s[hi - 1]) {
        let n = nonalnum_end(s, lo, hi - 1);
        assert(s@.subrange(lo as int, hi as int).drop_last() =~= s@.subrange(lo as int, hi - 1));
        n
    } else {
        hi
    }
}

/// `s` with non-alphanumeric characters removed from both ends.
pub fn trim_non_alphanumeric(s: &str) -> (r: String)
    ensures
        r@ == trim_nonalnum(s@),
{
    let c = chars_of(s);
    let n = c.len();
    assert(c@.subrange(0, n as int) =~= c@);
    let a = nonalnum_start(c.as_slice(), 0, n);
    let b = nonalnum_end(c.as_slice(), a, n);
    string_of_range(c.as_slice(), a, b)
}

/// The numeric value of the first word of a `/proc/meminfo` field, or 0.
pub open spec fn parse_kb_spec(s: Seq<char>) -> u64 {
    match first_word(s) {
        Some(w) => match parse_u64_spec(w) {
            Some(v) => v,
            None => 0,
        },
        None => 0,
    }
}

/// Parses the first whitespace-separated word of `s` as a `u64`; 0 when
/// there is none or it is not a number (e.g. `"   16384000 kB"` gives 16384000).
pub fn parse_kb(s: &str) -> (r: u64)
    ensures
        r == parse_kb_spec(s@),
{
    let c = chars_of(s);
    assert(c@.subrange(0, c@.len() as int) =~= c@);
    parse_kb_range(c.as_slice(), 0, c.len())
}

/// `parse_kb` on `s[lo..hi]`.
pub fn parse_kb_range(c: &[char], lo: usize, hi: usize) -> (r: u64)
    requires
        lo <= hi <= c@.len(),
    ensures
        r == parse_kb_spec(c@.subrange(lo as int, hi as int)),
{
    let a = leading_ws(c, lo, hi);
    if a == hi {
        return 0;
    }
    let b = word_end(c, a, hi);
    assert(c@.subrange(a as int, hi as int).subrange(0, b - a) =~= c@.subrange(a as int, b as int));
    match parse_u64(c, a, b) {
        Some(v) => v,
        None => 0,
    }
}

/// Lower-case mapping of a string (`str::to_lowercase`).
pub uninterp spec fn lowercase(s: Seq<char>) -> Seq<char>;

/// An ASCII character in lower case: `A`-`Z` become `a`-`z`, every other
/// character stays.
pub open spec fn ascii_lower_char(c: char) -> char {
    if 'A' <= c && c <= 'Z' {
        ((c as u32) + 32) as char
    } else {
        c
    }
}

/// Every character of `s` is ASCII.
pub open spec fn is_ascii_str(s: Seq<char>) -> bool {
    forall|i: int| 0 <= i < s.len() ==> (#[trigger] s[i] as u32) < 128
}

/// `s` with its ASCII capitals in lower case.
pub open spec fn ascii_lower(s: Seq<char>) -> Seq<char> {
    s.map_values(|c: char| ascii_lower_char(c))
}

/// The lower-case form of `s`, computed by std's `str::to_lowercase`.
/// The contract states that the result is a function of the input
/// characters and, for ASCII text, the ASCII case mapping; the other
/// Unicode case tables are not stated.
#[verifier::external_body]
pub fn to_lowercase(s: &str) -> (r: String)
    ensures
        r@ == lowercase(s@),
        is_ascii_str(s@) ==> r@ == ascii_lower(s@),
{
    s.to_lowercase()
}


/// Whether `a` and `b` hold the same characters.
pub fn str_eq(a: &str, b: &str) -> (r: bool)
    ensures
        r == (a@ == b@),
{
    let x = chars_of(a);
    let y = chars_of(b);
    if x.len() != y.len() {
        return false;
    }
    let r = occurs_at_exec(x.as_slice(), y.as_slice(), 0);
    proof {
        if r {
            assert(x@.subrange(0, y@.len() as int) =~= x@);
        } else {
            assert(x@.subrange(0, y@.len() as int) =~= x@);
        }
    }
    r
}

/// A `String` holding `a` followed by `b`.
pub fn concat2(a: &str, b: &str) -> (r: String)
    ensures
        r@ == a@ + b@,
{
    let mut out = String::from_str(a);
    push_str(&mut out, b);
    out
}

/// A `String` holding `a` followed by `b` followed by `c`.
pub fn concat3(a: &str, b: &str, c: &str) -> (r: String)
    ensures
        r@ == a@ + b@ + c@,
{
    let mut out = String::from_str(a);
    push_str(&mut out, b);
    push_str(&mut out, c);
    out
}


/// The strings of `ss` separated by `sep` (`join`).
pub open spec fn join(ss: Seq<Seq<char>>, sep: Seq<char>) -> Seq<char>
    decreases ss.len(),
{
    if ss.len() == 0 {
        seq![]
    } else if ss.len() == 1 {
        ss[0]
    } else {
        join(ss.drop_last(), sep) + sep + ss.last()
    }
}

/// Appends the first `n` strings of `v`, separated by `sep`, to `out`.
pub fn push_joined(out: &mut String, v: &Vec<String>, n: usize, sep: &str)
    requires
        n <= v@.len(),
    ensures
        final(out)@ == old(out)@ + join(strings_view(v@).take(n as int), sep@),
{
    let ghost start = out@;
    let mut i: usize = 0;
    assert(strings_view(v@).take(0) =~= Seq::<Seq<char>>::empty());
    assert(start + join(strings_view(v@).take(0), sep@) =~= start);
    while i < n
        invariant
            i <= n <= v@.len(),
            out@ == start + join(strings_view(v@).take(i as int), sep@),
        decreases n - i,
    {
        let ghost pre = out@;
        if i > 0 {
            push_str(out, sep);
        }
        push_str(out, v[i].as_str());
        let ghost ss = strings_view(v@).take(i + 1);
        assert(ss.drop_last() =~= strings_view(v@).take(i as int));
        assert(ss.last() == v@[i as int]@);
        if i == 0 {
            assert(join(ss, sep@) == ss[0]);
        }
        i = i + 1;
        assert(out@ =~= start + join(strings_view(v@).take(i as int), sep@));
    }
}

/// `s` with each occurrence of the non-empty pattern `pat` replaced by `rep`,
/// occurrences taken leftmost first and without overlap (`str::replace`).
pub open spec fn replace_all(s: Seq<char>, pat: Seq<char>, rep: Seq<char>) -> Seq<char>
    recommends
        pat.len() > 0,
    decreases s.len(),
{
    if pat.len() == 0 || s.len() < pat.len() {
        s
    } else if s.take(pat.len() as int) == pat {
        rep + replace_all(s.skip(pat.len() as int), pat, rep)
    } else {
        seq![s[0]] + replace_all(s.skip(1), pat, rep)
    }
}

/// `s` with every occurrence of `pat` replaced by `rep`.
pub fn replace_str(s: &str, pat: &str, rep: &str) -> (r: String)
    requires
        pat@.len() > 0,
    ensures
        r@ == replace_all(s@, pat@, rep@),
{
    let c = chars_of(s);
    let p = chars_of(pat);
    let n = c.len();
    let m = p.len();
    let mut out = String::new();
    let mut i: usize = 0;
    assert(c@.skip(0) =~= c@);
    assert(out@ + replace_all(c@, p@, rep@) =~= replace_all(c@, p@, rep@));
    while i < n
        invariant
            c@ == s@,
            p@ == pat@,
            n == c@.len(),
            m == p@.len(),
            m > 0,
            i <= n,
            out@ + replace_all(c@.skip(i as int), p@, rep@) == replace_all(c@, p@, rep@),
        decreases n - i,
    {
        let ghost rest = c@.skip(i as int);
        let ghost pre = out@;
        if m <= n - i && occurs_at_exec(c.as_slice(), p.as_slice(), i) {
            assert(rest.take(m as int) =~= c@.subrange(i as int, i + m));
            assert(rest.skip(m as int) =~= c@.skip(i + m));
            push_str(&mut out, rep);
            i = i + m;
            assert(out@ + replace_all(c@.skip(i as int), p@, rep@) =~= pre + replace_all(rest, p@, rep@));
        } else {
            assert(rest.skip(1) =~= c@.skip(i + 1));
            if m <= n - i {
                assert(rest.take(m as int) =~= c@.subrange(i as int, i + m));
            } else {
                assert(replace_all(rest.skip(1), p@, rep@) == rest.skip(1));
                assert(rest =~= seq![rest[0]] + rest.skip(1));
            }
            push_char(&mut out, c[i]);
            i = i + 1;
            assert(out@ + replace_all(c@.skip(i as int), p@, rep@) =~= pre + replace_all(rest, p@, rep@));
        }
    }
    assert(c@.skip(n as int) =~= Seq::<char>::empty());
    assert(out@ + replace_all(c@.skip(n as int), p@, rep@) =~= out@);
    out
}

} // verus!
