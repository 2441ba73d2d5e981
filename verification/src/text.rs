//! Character-level helpers on `&str` that the identifier and config checks
//! of the game rely on: equality, blank tests, and the normalisation of
//! config keys (surrounding white space removed, ASCII letters lower-cased).
use vstd::prelude::*;

verus! {

/// True when `a` and `b` hold the same characters.
pub fn str_eq(a: &str, b: &str) -> (r: bool)
    ensures
        r == (a@ == b@),
{
    let n = a.unicode_len();
    if n != b.unicode_len() {
        return false;
    }
    let mut i: usize = 0;
    while i < n
        invariant
            n == a@.len(),
            n == b@.len(),
            i <= n,
            forall|j: int| 0 <= j < i ==> a@[j] == b@[j],
        decreases n - i,
    {
        if a.get_char(i) != b.get_char(i) {
            return false;
        }
        i = i + 1;
    }
    assert(a@ =~= b@);
    true
}

/// The Unicode `White_Space` property, which is what `char::is_whitespace`
/// (and therefore `str::trim`) tests.
pub open spec fn is_white_space(c: char) -> bool {
    ||| ('\u{9}' <= c && c <= '\u{d}')
    ||| c == ' '
    ||| c == '\u{85}'
    ||| c == '\u{a0}'
    ||| c == '\u{1680}'
    ||| ('\u{2000}' <= c && c <= '\u{200a}')
    ||| c == '\u{2028}'
    ||| c == '\u{2029}'
    ||| c == '\u{202f}'
    ||| c == '\u{205f}'
    ||| c == '\u{3000}'
}

/// Executable form of [`is_white_space`].
pub fn char_is_white_space(c: char) -> (r: bool)
    ensures
        r == is_white_space(c),
{
    ('\u{9}' <= c && c <= '\u{d}') || c == ' ' || c == '\u{85}' || c == '\u{a0}' || c == '\u{1680}'
        || ('\u{2000}' <= c && c <= '\u{200a}') || c == '\u{2028}' || c == '\u{2029}' || c
        == '\u{202f}' || c == '\u{205f}' || c == '\u{3000}'
}

/// A text is blank when every character is white space, i.e. when
/// `s.trim()` is empty.
pub open spec fn is_blank(s: Seq<char>) -> bool {
    forall|i: int| 0 <= i < s.len() ==> #[trigger] is_white_space(s[i])
}

/// `s.trim().is_empty()`.
pub fn str_is_blank(s: &str) -> (r: bool)
    ensures
        r == is_blank(s@),
{
    let n = s.unicode_len();
    let mut i: usize = 0;
    while i < n
        invariant
            n == s@.len(),
            i <= n,
            forall|j: int| 0 <= j < i ==> #[trigger] is_white_space(s@[j]),
        decreases n - i,
    {
        if !char_is_white_space(s.get_char(i)) {
            return false;
        }
        i = i + 1;
    }
    true
}

/// Number of white-space characters at the front of `s`.
pub open spec fn leading_space(s: Seq<char>) -> nat
    decreases s.len(),
{
    if s.len() > 0 && is_white_space(s[0]) {
        1 + leading_space(s.drop_first())
    } else {
        0
    }
}

/// Number of white-space characters at the back of `s`.
pub open spec fn trailing_space(s: Seq<char>) -> nat
    decreases s.len(),
{
    if s.len() > 0 && is_white_space(s.last()) {
        1 + trailing_space(s.drop_last())
    } else {
        0
    }
}

/// What `str::trim` leaves of `s`.
pub open spec fn trimmed(s: Seq<char>) -> Seq<char> {
    let front = s.skip(leading_space(s) as int);
    front.take(front.len() - trailing_space(front))
}

/// ASCII lower-casing of one character, as `char::to_ascii_lowercase`.
pub open spec fn ascii_lower(c: char) -> char {
    if 'A' <= c && c <= 'Z' {
        ((c as u32) + 32) as char
    } else {
        c
    }
}

/// ASCII lower-casing of a text, as `str::to_ascii_lowercase`.
pub open spec fn ascii_lowered(s: Seq<char>) -> Seq<char> {
    s.map_values(|c: char| ascii_lower(c))
}

/// The key a config file writer meant: `value.trim().to_ascii_lowercase()`.
pub open spec fn normalized_key(s: Seq<char>) -> Seq<char> {
    ascii_lowered(trimmed(s))
}

/// Skipping `i` leading white-space characters leaves the count of the
/// rest.
proof fn lemma_leading_space_skip(s: Seq<char>, i: int)
    requires
        0 <= i <= s.len(),
        forall|j: int| 0 <= j < i ==> #[trigger] is_white_space(s[j]),
    ensures
        leading_space(s) == i + leading_space(s.skip(i)),
    decreases i,
{
    if i == 0 {
        assert(s.skip(0) =~= s);
    } else {
        let t = s.drop_first();
        assert forall|j: int| 0 <= j < i - 1 implies #[trigger] is_white_space(t[j]) by {
            assert(t[j] == s[j + 1]);
        }
        lemma_leading_space_skip(t, i - 1);
        assert(t.skip(i - 1) =~= s.skip(i));
    }
}

/// Dropping `i` trailing white-space characters leaves the count of the
/// rest.
proof fn lemma_trailing_space_take(s: Seq<char>, i: int)
    requires
        0 <= i <= s.len(),
        forall|j: int| i <= j < s.len() ==> #[trigger] is_white_space(s[j]),
    ensures
        trailing_space(s) == (s.len() - i) + trailing_space(s.take(i)),
    decreases s.len() - i,
{
    if i == s.len() {
        assert(s.take(i) =~= s);
    } else {
        let t = s.drop_last();
        assert forall|j: int| i <= j < t.len() implies #[trigger] is_white_space(t[j]) by {
            assert(t[j] == s[j]);
        }
        lemma_trailing_space_take(t, i);
        assert(t.take(i) =~= s.take(i));
    }
}

/// Where `str::trim` cuts `s`: the characters from `start` (inclusive) to
/// `end` (exclusive) are `trimmed(s@)`.
pub fn trim_bounds(s: &str) -> (r: (usize, usize))
    ensures
        r.0 <= r.1 <= s@.len(),
        s@.subrange(r.0 as int, r.1 as int) == trimmed(s@),
{
    let n = s.unicode_len();
    let mut start: usize = 0;
    while start < n && char_is_white_space(s.get_char(start))
        invariant
            n == s@.len(),
            start <= n,
            forall|j: int| 0 <= j < start ==> #[trigger] is_white_space(s@[j]),
        decreases n - start,
    {
        start = start + 1;
    }
    proof {
        lemma_leading_space_skip(s@, start as int);
        if start < n {
            assert(!is_white_space(s@.skip(start as int)[0]));
        }
        assert(leading_space(s@) == start);
    }
    let mut end: usize = n;
    while end > start && char_is_white_space(s.get_char(end - 1))
        invariant
            n == s@.len(),
            start <= end <= n,
            forall|j: int| end <= j < n ==> #[trigger] is_white_space(s@[j]),
        decreases end - start,
    {
        end = end - 1;
    }
    proof {
        let front = s@.skip(start as int);
        let k = (end - start) as int;
        assert forall|j: int| k <= j < front.len() implies #[trigger] is_white_space(front[j]) by {
            assert(front[j] == s@[j + start]);
        }
        lemma_trailing_space_take(front, k);
        if k > 0 {
            assert(front.take(k).last() == s@[end - 1]);
            assert(trailing_space(front.take(k)) == 0);
        } else {
            assert(front.take(k).len() == 0);
        }
        assert(s@.subrange(start as int, end as int) =~= front.take(k));
    }
    (start, end)
}

/// `value.trim().to_ascii_lowercase() == key`: the normalised form of a
/// config key matches `key`.
pub fn normalized_key_eq(value: &str, key: &str) -> (r: bool)
    ensures
        r == (normalized_key(value@) == key@),
{
    let (start, end) = trim_bounds(value);
    let ghost t = value@.subrange(start as int, end as int);
    let n = key.unicode_len();
    if end - start != n {
        proof {
            assert(ascii_lowered(t).len() == t.len());
        }
        return false;
    }
    let mut i: usize = 0;
    while i < n
        invariant
            n == key@.len(),
            start <= end <= value@.len(),
            end - start == n,
            t == value@.subrange(start as int, end as int),
            t == trimmed(value@),
            i <= n,
            forall|j: int| 0 <= j < i ==> ascii_lower(#[trigger] t[j]) == key@[j],
        decreases n - i,
    {
        let c = value.get_char(start + i);
        let lower = if 'A' <= c && c <= 'Z' {
            char_from_u32_lower(c)
        } else {
            c
        };
        if lower != key.get_char(i) {
            proof {
                assert(t[i as int] == c);
                assert(ascii_lowered(t)[i as int] != key@[i as int]);
                assert(normalized_key(value@) == ascii_lowered(t));
                assert(ascii_lowered(t) != key@);
            }
            return false;
        }
        proof {
            assert(t[i as int] == c);
        }
        i = i + 1;
    }
    proof {
        assert(ascii_lowered(t) =~= key@);
    }
    true
}

/// `a.trim().eq_ignore_ascii_case(b)`.
pub fn trimmed_eq_ignore_ascii_case(a: &str, b: &str) -> (r: bool)
    ensures
        r == (normalized_key(a@) == ascii_lowered(b@)),
{
    let (start, end) = trim_bounds(a);
    let ghost t = a@.subrange(start as int, end as int);
    let n = b.unicode_len();
    if end - start != n {
        proof {
            assert(ascii_lowered(t).len() == t.len());
            assert(ascii_lowered(b@).len() == b@.len());
        }
        return false;
    }
    let mut i: usize = 0;
    while i < n
        invariant
            n == b@.len(),
            start <= end <= a@.len(),
            end - start == n,
            t == a@.subrange(start as int, end as int),
            t == trimmed(a@),
            i <= n,
            forall|j: int| 0 <= j < i ==> ascii_lower(#[trigger] t[j]) == ascii_lower(b@[j]),
        decreases n - i,
    {
        let c = a.get_char(start + i);
        let d = b.get_char(i);
        let lc = if 'A' <= c && c <= 'Z' {
            char_from_u32_lower(c)
        } else {
            c
        };
        let ld = if 'A' <= d && d <= 'Z' {
            char_from_u32_lower(d)
        } else {
            d
        };
        proof {
            assert(t[i as int] == c);
        }
        if lc != ld {
            proof {
                assert(ascii_lowered(t)[i as int] != ascii_lowered(b@)[i as int]);
                assert(normalized_key(a@) == ascii_lowered(t));
                assert(ascii_lowered(t) != ascii_lowered(b@));
            }
            return false;
        }
        i = i + 1;
    }
    proof {
        assert(ascii_lowered(t) =~= ascii_lowered(b@));
    }
    true
}

/// The lower-case letter of an upper-case ASCII letter.
fn char_from_u32_lower(c: char) -> (r: char)
    requires
        'A' <= c && c <= 'Z',
    ensures
        r == ascii_lower(c),
{
    let code: u32 = (c as u32) + 32;
    let r = char_of_ascii(code);
    r
}

/// The character with the ASCII code `code`.
fn char_of_ascii(code: u32) -> (r: char)
    requires
        code < 128,
    ensures
        r == code as char,
{
    let byte: u8 = code as u8;
    byte as char
}

} // verus!
