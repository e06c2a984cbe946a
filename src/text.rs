//! Small verified text helpers: decimal numerals, prefixes and
//! whitespace-separated words.
use vstd::prelude::*;
use crate::codec::digits;

verus! {

/// The decimal numeral of `n`, without leading zeros.
pub open spec fn decimal(n: nat) -> Seq<char>
    decreases n,
{
    if n < 10 {
        seq![digits()[n as int]]
    } else {
        decimal(n / 10).push(digits()[(n % 10) as int])
    }
}

/// The characters that `char::is_whitespace` accepts: those with the Unicode
/// White_Space property.
pub open spec fn is_space(c: char) -> bool {
    ('\u{9}' <= c <= '\u{d}') || c == ' ' || c == '\u{85}' || c == '\u{a0}' || c == '\u{1680}'
        || ('\u{2000}' <= c <= '\u{200a}') || c == '\u{2028}' || c == '\u{2029}' || c
        == '\u{202f}' || c == '\u{205f}' || c == '\u{3000}'
}

/// The first index from `i` on that holds no whitespace (or the length).
pub open spec fn skip_space(s: Seq<char>, i: int) -> int
    decreases s.len() - i,
{
    if 0 <= i < s.len() && is_space(s[i]) {
        skip_space(s, i + 1)
    } else {
        i
    }
}

/// The first index from `i` on that holds whitespace (or the length).
pub open spec fn skip_word(s: Seq<char>, i: int) -> int
    decreases s.len() - i,
{
    if 0 <= i < s.len() && !is_space(s[i]) {
        skip_word(s, i + 1)
    } else {
        i
    }
}

pub open spec fn starts_with(s: Seq<char>, p: Seq<char>) -> bool {
    p.len() <= s.len() && s.subrange(0, p.len() as int) == p
}

pub fn is_space_char(c: char) -> (r: bool)
    ensures
        r == is_space(c),
{
    ('\u{9}' <= c && c <= '\u{d}') || c == ' ' || c == '\u{85}' || c == '\u{a0}' || c
        == '\u{1680}' || ('\u{2000}' <= c && c <= '\u{200a}') || c == '\u{2028}' || c
        == '\u{2029}' || c == '\u{202f}' || c == '\u{205f}' || c == '\u{3000}'
}

/// The decimal numeral of `n`.
pub fn decimal_string(n: u64) -> (r: String)
    ensures
        r@ == decimal(n as nat),
    decreases n,
{
    let numbers = "0123456789";
    proof {
        reveal_strlit("0123456789");
    }
    assert(numbers@ == digits());
    if n < 10 {
        let d = n as usize;
        let r = String::from_str(numbers.substring_char(d, d + 1));
        assert(r@ =~= decimal(n as nat));
        r
    } else {
        let mut r = decimal_string(n / 10);
        let d = (n % 10) as usize;
        r.append(numbers.substring_char(d, d + 1));
        assert(r@ =~= decimal(n as nat));
        r
    }
}

/// Whether `s` begins with `p`.
pub fn has_prefix(s: &str, p: &str) -> (r: bool)
    ensures
        r == starts_with(s@, p@),
{
    let n = p.unicode_len();
    if n > s.unicode_len() {
        return false;
    }
    let mut i: usize = 0;
    while i < n
        invariant
            n == p@.len(),
            n <= s@.len(),
            i <= n,
            forall|j: int| 0 <= j < i ==> s@[j] == p@[j],
        decreases n - i,
    {
        if s.get_char(i) != p.get_char(i) {
            assert(s@.subrange(0, n as int)[i as int] != p@[i as int]);
            return false;
        }
        i += 1;
    }
    assert(s@.subrange(0, n as int) =~= p@);
    true
}

/// Whether `s` and `p` hold the same characters.
pub fn same_text(s: &str, p: &str) -> (r: bool)
    ensures
        r == (s@ == p@),
{
    if s.unicode_len() != p.unicode_len() {
        return false;
    }
    let r = has_prefix(s, p);
    assert(s@.subrange(0, s@.len() as int) =~= s@);
    r
}

/// The index of the first character from `i` on that is not whitespace.
pub fn skip_space_from(s: &str, i: usize) -> (r: usize)
    requires
        i <= s@.len(),
    ensures
        r == skip_space(s@, i as int),
        i <= r <= s@.len(),
{
    let n = s.unicode_len();
    let mut j = i;
    while j < n && is_space_char(s.get_char(j))
        invariant
            n == s@.len(),
            i <= j <= n,
            skip_space(s@, i as int) == skip_space(s@, j as int),
        decreases n - j,
    {
        j += 1;
    }
    j
}

/// The index of the first whitespace character from `i` on.
pub fn skip_word_from(s: &str, i: usize) -> (r: usize)
    requires
        i <= s@.len(),
    ensures
        r == skip_word(s@, i as int),
        i <= r <= s@.len(),
{
    let n = s.unicode_len();
    let mut j = i;
    while j < n && !is_space_char(s.get_char(j))
        invariant
            n == s@.len(),
            i <= j <= n,
            skip_word(s@, i as int) == skip_word(s@, j as int),
        decreases n - j,
    {
        j += 1;
    }
    j
}

/// `path` when it has at most `max_chars` characters; otherwise "..."
/// followed by its last `max_chars - 3` characters (none when `max_chars`
/// is below 3).
pub open spec fn shortened_path(path: Seq<char>, max_chars: nat) -> Seq<char> {
    if path.len() <= max_chars {
        path
    } else if max_chars >= 3 {
        "..."@ + path.subrange(path.len() - (max_chars - 3), path.len() as int)
    } else {
        "..."@
    }
}

/// A path shortened from the left to fit in `max_chars` characters.
pub fn truncate_path_display(path: &str, max_chars: usize) -> (r: String)
    ensures
        r@ == shortened_path(path@, max_chars as nat),
{
    let char_count = path.unicode_len();
    if char_count <= max_chars {
        return String::from_str(path);
    }
    let mut r = String::from_str("...");
    if max_chars >= 3 {
        let skip = char_count - (max_chars - 3);
        r.append(path.substring_char(skip, char_count));
    }
    proof {
        reveal_strlit("...");
    }
    assert(r@ =~= shortened_path(path@, max_chars as nat));
    r
}

} // verus!
