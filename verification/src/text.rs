//! Character-level helpers on strings: whitespace trimming and quote removal.

use vstd::prelude::*;

verus! {

/// The Unicode `White_Space` property, which `str::trim` uses.
pub open spec fn is_white_space(c: char) -> bool {
    let u = c as u32;
    ||| 0x9 <= u <= 0xd
    ||| u == 0x20
    ||| u == 0x85
    ||| u == 0xa0
    ||| u == 0x1680
    ||| 0x2000 <= u <= 0x200a
    ||| u == 0x2028
    ||| u == 0x2029
    ||| u == 0x202f
    ||| u == 0x205f
    ||| u == 0x3000
}

/// `s` without its leading whitespace.
pub open spec fn trim_start(s: Seq<char>) -> Seq<char>
    decreases s.len(),
{
    if s.len() > 0 && is_white_space(s[0]) {
        trim_start(s.drop_first())
    } else {
        s
    }
}

/// `s` without its trailing whitespace.
pub open spec fn trim_end(s: Seq<char>) -> Seq<char>
    decreases s.len(),
{
    if s.len() > 0 && is_white_space(s.last()) {
        trim_end(s.drop_last())
    } else {
        s
    }
}

/// `s` without leading and trailing whitespace.
pub open spec fn trimmed(s: Seq<char>) -> Seq<char> {
    trim_end(trim_start(s))
}

/// Whether `c` is the same kind of quote at both ends of `t`.
pub open spec fn quoted_by(t: Seq<char>, c: char) -> bool {
    t.len() >= 2 && t[0] == c && t.last() == c
}

/// The trimmed word with one pair of matching outer quotes removed.
/// Quotes inside the word are kept as they are.
pub open spec fn unquoted(s: Seq<char>) -> Seq<char> {
    let t = trimmed(s);
    if quoted_by(t, '"') || quoted_by(t, '\'') {
        t.subrange(1, t.len() - 1)
    } else {
        t
    }
}

/// A word that starts with a character that is not whitespace has no leading whitespace.
proof fn lemma_trim_start_clean(s: Seq<char>)
    requires
        s.len() > 0,
        !is_white_space(s[0]),
    ensures
        trim_start(s) == s,
{
}

/// A word that ends with a character that is not whitespace has no trailing whitespace.
proof fn lemma_trim_end_clean(s: Seq<char>)
    requires
        s.len() > 0,
        !is_white_space(s.last()),
    ensures
        trim_end(s) == s,
{
}

/// Unquoting a text wrapped in a pair of matching quotes gives the text back,
/// whatever it holds, inner quotes and surrounding spaces included.
pub proof fn lemma_unquote_of_quoted(inner: Seq<char>, quote: char)
    requires
        quote == '"' || quote == '\'',
    ensures
        unquoted(seq![quote] + inner + seq![quote]) == inner,
{
    let w = seq![quote] + inner + seq![quote];
    assert(w[0] == quote);
    assert(w.last() == quote);
    lemma_trim_start_clean(w);
    lemma_trim_end_clean(w);
    assert(w.subrange(1, w.len() - 1) =~= inner);
}

/// Whether `c` has the Unicode `White_Space` property.
pub fn is_whitespace_char(c: char) -> (r: bool)
    ensures
        r == is_white_space(c),
{
    let u = c as u32;
    (0x9 <= u && u <= 0xd) || u == 0x20 || u == 0x85 || u == 0xa0 || u == 0x1680 || (0x2000 <= u
        && u <= 0x200a) || u == 0x2028 || u == 0x2029 || u == 0x202f || u == 0x205f || u == 0x3000
}

/// The character positions of `s` between which its trimmed content lies.
fn trim_bounds(s: &str) -> (r: (usize, usize))
    ensures
        r.0 <= r.1 <= s@.len(),
        s@.subrange(r.0 as int, r.1 as int) == trimmed(s@),
{
    let n = s.unicode_len();
    let mut i: usize = 0;
    assert(s@.subrange(0, n as int) =~= s@);
    while i < n && is_whitespace_char(s.get_char(i))
        invariant
            i <= n,
            n == s@.len(),
            trim_start(s@) == trim_start(s@.subrange(i as int, n as int)),
        decreases n - i,
    {
        assert(s@.subrange(i + 1, n as int) =~= s@.subrange(i as int, n as int).drop_first());
        i = i + 1;
    }
    assert(trim_start(s@.subrange(i as int, n as int)) == s@.subrange(i as int, n as int));
    let mut j: usize = n;
    while j > i && is_whitespace_char(s.get_char(j - 1))
        invariant
            i <= j <= n,
            n == s@.len(),
            trim_end(s@.subrange(i as int, n as int)) == trim_end(s@.subrange(i as int, j as int)),
        decreases j,
    {
        assert(s@.subrange(i as int, j - 1) =~= s@.subrange(i as int, j as int).drop_last());
        j = j - 1;
    }
    (i, j)
}

/// Removes only the outer quotes from a shell word, keeping inner quotes:
/// inside double quotes, single quotes are literal characters.
pub fn unquote_outer(s: &str) -> (r: String)
    ensures
        r@ == unquoted(s@),
{
    let (a, b) = trim_bounds(s);
    let t = s.substring_char(a, b);
    let n = b - a;
    if n < 2 {
        return t.to_owned();
    }
    let first = t.get_char(0);
    let last = t.get_char(n - 1);
    if (first == '"' && last == '"') || (first == '\'' && last == '\'') {
        t.substring_char(1, n - 1).to_owned()
    } else {
        t.to_owned()
    }
}

/// Whether `s` starts with `prefix`.
pub open spec fn starts_with(s: Seq<char>, prefix: Seq<char>) -> bool {
    prefix.len() <= s.len() && s.take(prefix.len() as int) == prefix
}

/// Whether `s` ends with `suffix`.
pub open spec fn ends_with(s: Seq<char>, suffix: Seq<char>) -> bool {
    suffix.len() <= s.len() && s.skip(s.len() - suffix.len()) == suffix
}

/// Whether two strings hold the same characters.
pub fn str_eq(a: &str, b: &str) -> (r: bool)
    ensures
        r == (a@ == b@),
{
    a.to_owned() == b.to_owned()
}

/// Whether `s` starts with `prefix`.
pub fn has_prefix(s: &str, prefix: &str) -> (r: bool)
    ensures
        r == starts_with(s@, prefix@),
{
    let n = s.unicode_len();
    let m = prefix.unicode_len();
    m <= n && str_eq(s.substring_char(0, m), prefix)
}

/// Whether `s` ends with `suffix`.
pub fn has_suffix(s: &str, suffix: &str) -> (r: bool)
    ensures
        r == ends_with(s@, suffix@),
{
    let n = s.unicode_len();
    let m = suffix.unicode_len();
    m <= n && str_eq(s.substring_char(n - m, n), suffix)
}

/// `s` without its first `count` characters.
pub fn skip_chars(s: &str, count: usize) -> (r: &str)
    requires
        count <= s@.len(),
    ensures
        r@ == s@.skip(count as int),
{
    let n = s.unicode_len();
    s.substring_char(count, n)
}

} // verus!
