//! Character-level string operations with exact specifications over `Seq<char>`.
use vstd::prelude::*;
use vstd::string::StrSliceExecFns;
use vstd::string::StringExecFns;

verus! {

/// Unicode `White_Space`: the characters for which `char::is_whitespace` holds.
pub open spec fn is_ws(c: char) -> bool {
    let n = c as u32;
    ||| n == 0x20
    ||| (0x09 <= n && n <= 0x0d)
    ||| n == 0x85
    ||| n == 0xa0
    ||| n == 0x1680
    ||| (0x2000 <= n && n <= 0x200a)
    ||| n == 0x2028
    ||| n == 0x2029
    ||| n == 0x202f
    ||| n == 0x205f
    ||| n == 0x3000
}

/// `s` with its leading white space removed (`str::trim_start`).
pub open spec fn trim_start(s: Seq<char>) -> Seq<char>
    decreases s.len(),
{
    if s.len() > 0 && is_ws(s[0]) {
        trim_start(s.drop_first())
    } else {
        s
    }
}

/// `s` with its trailing white space removed (`str::trim_end`).
pub open spec fn trim_end(s: Seq<char>) -> Seq<char>
    decreases s.len(),
{
    if s.len() > 0 && is_ws(s.last()) {
        trim_end(s.drop_last())
    } else {
        s
    }
}

/// `s` with white space removed at both ends (`str::trim`).
pub open spec fn trim(s: Seq<char>) -> Seq<char> {
    trim_end(trim_start(s))
}

/// `p` is a prefix of `s`.
pub open spec fn has_prefix(s: Seq<char>, p: Seq<char>) -> bool {
    p.len() <= s.len() && s.take(p.len() as int) == p
}

/// Index of the first space in `s`, or `s.len()` when there is none.
pub open spec fn space_index(s: Seq<char>) -> int
    decreases s.len(),
{
    if s.len() == 0 {
        0
    } else if s[0] == ' ' {
        0
    } else {
        1 + space_index(s.drop_first())
    }
}

/// The first piece of `s.splitn(2, ' ')`: everything before the first space.
pub open spec fn head(s: Seq<char>) -> Seq<char> {
    s.take(space_index(s))
}

/// The second piece of `s.splitn(2, ' ')`: everything after the first space, if there is one.
pub open spec fn tail(s: Seq<char>) -> Option<Seq<char>> {
    if space_index(s) < s.len() {
        Some(s.skip(space_index(s) + 1))
    } else {
        None
    }
}

/// The decimal digit character for `d < 10`.
pub open spec fn digit_char(d: nat) -> char {
    (48 + d) as char
}

/// The decimal representation of `n`, without leading zeros.
pub open spec fn digits(n: nat) -> Seq<char>
    decreases n,
{
    if n < 10 {
        seq![digit_char(n)]
    } else {
        digits(n / 10).push(digit_char(n % 10))
    }
}

/// `s` padded on the left with zeros to at least `width` characters.
pub open spec fn zero_pad(s: Seq<char>, width: nat) -> Seq<char> {
    if s.len() < width {
        Seq::new((width - s.len()) as nat, |i: int| '0') + s
    } else {
        s
    }
}

pub proof fn lemma_space_index_bounds(s: Seq<char>)
    ensures
        0 <= space_index(s) <= s.len(),
        space_index(s) < s.len() ==> s[space_index(s)] == ' ',
        forall|j: int| 0 <= j < space_index(s) ==> s[j] != ' ',
    decreases s.len(),
{
    if s.len() > 0 && s[0] != ' ' {
        lemma_space_index_bounds(s.drop_first());
        assert forall|j: int| 0 <= j < space_index(s) implies s[j] != ' ' by {
            if j > 0 {
                assert(s[j] == s.drop_first()[j - 1]);
            }
        }
    }
}

/// Trimming the end keeps a prefix, removes only white space, and leaves no white space at the
/// end.
pub proof fn law_trim_end(s: Seq<char>)
    ensures
        trim_end(s) == s.take(trim_end(s).len() as int),
        trim_end(s).len() <= s.len(),
        forall|i: int| trim_end(s).len() <= i < s.len() ==> is_ws(#[trigger] s[i]),
        trim_end(s).len() > 0 ==> !is_ws(trim_end(s).last()),
    decreases s.len(),
{
    if s.len() > 0 && is_ws(s.last()) {
        let t = s.drop_last();
        law_trim_end(t);
        assert forall|i: int| trim_end(s).len() <= i < s.len() implies is_ws(#[trigger] s[i]) by {
            if i < t.len() {
                assert(s[i] == t[i]);
            }
        }
        assert(t.take(trim_end(t).len() as int) =~= s.take(trim_end(t).len() as int));
    } else {
        assert(s.take(s.len() as int) =~= s);
    }
}

/// Trimming the start keeps a suffix, removes only white space, and leaves no white space at
/// the start.
pub proof fn law_trim_start(s: Seq<char>)
    ensures
        trim_start(s) == s.skip(s.len() - trim_start(s).len()),
        trim_start(s).len() <= s.len(),
        forall|i: int| 0 <= i < s.len() - trim_start(s).len() ==> is_ws(#[trigger] s[i]),
        trim_start(s).len() > 0 ==> !is_ws(trim_start(s)[0]),
    decreases s.len(),
{
    if s.len() > 0 && is_ws(s[0]) {
        let t = s.drop_first();
        law_trim_start(t);
        assert forall|i: int| 0 <= i < s.len() - trim_start(s).len() implies is_ws(
            #[trigger] s[i],
        ) by {
            if i > 0 {
                assert(s[i] == t[i - 1]);
            }
        }
        assert(t.skip(t.len() - trim_start(t).len()) =~= s.skip(s.len() - trim_start(s).len()));
    } else {
        assert(s.skip(0) =~= s);
    }
}

/// White space among the ASCII characters is exactly space, tab, line feed, vertical tab, form
/// feed and carriage return; no letter, digit or punctuation mark (0x21 to 0x7e) is white
/// space.
pub proof fn law_ascii_white_space(c: char)
    requires
        (c as u32) < 0x80,
    ensures
        is_ws(c) <==> (c == ' ' || c == '\t' || c == '\n' || (c as u32) == 0x0b || (c as u32)
            == 0x0c || c == '\r'),
        0x21 <= (c as u32) <= 0x7e ==> !is_ws(c),
{
}

/// Trimming leaves a string alone when it neither starts nor ends with white space.
pub proof fn law_trim_keeps_unpadded(s: Seq<char>)
    requires
        s.len() > 0,
        !is_ws(s[0]),
        !is_ws(s.last()),
    ensures
        trim(s) == s,
{
}

/// `char::is_whitespace`.
pub fn is_whitespace(c: char) -> (r: bool)
    ensures
        r == is_ws(c),
{
    let n = c as u32;
    n == 0x20 || (0x09 <= n && n <= 0x0d) || n == 0x85 || n == 0xa0 || n == 0x1680 || (0x2000
        <= n && n <= 0x200a) || n == 0x2028 || n == 0x2029 || n == 0x202f || n == 0x205f || n
        == 0x3000
}

/// `str::trim`.
pub fn trim_str(s: &str) -> (r: &str)
    ensures
        r@ == trim(s@),
{
    let n = s.unicode_len();
    let mut i: usize = 0;
    assert(s@.skip(0) =~= s@);
    while i < n && is_whitespace(s.get_char(i))
        invariant
            n == s@.len(),
            i <= n,
            trim_start(s@) == trim_start(s@.skip(i as int)),
        decreases n - i,
    {
        assert(s@.skip(i as int).drop_first() =~= s@.skip(i + 1));
        i = i + 1;
    }
    let mut j: usize = n;
    assert(s@.skip(i as int) =~= s@.subrange(i as int, j as int));
    while j > i && is_whitespace(s.get_char(j - 1))
        invariant
            n == s@.len(),
            i <= j <= n,
            trim(s@) == trim_end(s@.subrange(i as int, j as int)),
        decreases j,
    {
        assert(s@.subrange(i as int, j as int).drop_last() =~= s@.subrange(i as int, j - 1));
        j = j - 1;
    }
    s.substring_char(i, j)
}

/// `str::trim_end`.
pub fn trim_end_str(s: &str) -> (r: &str)
    ensures
        r@ == trim_end(s@),
{
    let n = s.unicode_len();
    let mut j: usize = n;
    assert(s@.subrange(0, n as int) =~= s@);
    while j > 0 && is_whitespace(s.get_char(j - 1))
        invariant
            n == s@.len(),
            j <= n,
            trim_end(s@) == trim_end(s@.subrange(0, j as int)),
        decreases j,
    {
        assert(s@.subrange(0, j as int).drop_last() =~= s@.subrange(0, j - 1));
        j = j - 1;
    }
    s.substring_char(0, j)
}

/// `str::starts_with` for a string prefix.
pub fn starts_with(s: &str, p: &str) -> (r: bool)
    ensures
        r == has_prefix(s@, p@),
{
    let n = s.unicode_len();
    let m = p.unicode_len();
    if m > n {
        return false;
    }
    let mut i: usize = 0;
    while i < m
        invariant
            n == s@.len(),
            m == p@.len(),
            m <= n,
            i <= m,
            forall|j: int| 0 <= j < i ==> s@[j] == p@[j],
        decreases m - i,
    {
        if s.get_char(i) != p.get_char(i) {
            assert(s@.take(m as int)[i as int] != p@[i as int]);
            return false;
        }
        i = i + 1;
    }
    assert(s@.take(m as int) =~= p@);
    true
}

/// String equality on characters.
pub fn str_eq(a: &str, b: &str) -> (r: bool)
    ensures
        r == (a@ == b@),
{
    let n = a.unicode_len();
    if n != b.unicode_len() {
        return false;
    }
    let mut i: usize = 0;
    while i < n
        invariant
            n == a@.len(),
            n == b@.len(),
            i <= n,
            forall|j: int| 0 <= j < i ==> a@[j] == b@[j],
        decreases n - i,
    {
        if a.get_char(i) != b.get_char(i) {
            return false;
        }
        i = i + 1;
    }
    assert(a@ =~= b@);
    true
}

/// The part of `s` after its first `k` characters.
pub fn skip_chars(s: &str, k: usize) -> (r: &str)
    requires
        k <= s@.len(),
    ensures
        r@ == s@.skip(k as int),
{
    let n = s.unicode_len();
    s.substring_char(k, n)
}

/// `s.splitn(2, ' ')`: the text before the first space, and the text after it if there is one.
pub fn split_once_space(s: &str) -> (r: (&str, Option<&str>))
    ensures
        r.0@ == head(s@),
        r.1 is Some <==> tail(s@) is Some,
        r.1 is Some ==> r.1->0@ == tail(s@)->0,
{
    let n = s.unicode_len();
    let mut i: usize = 0;
    proof {
        lemma_space_index_bounds(s@);
    }
    while i < n && s.get_char(i) != ' '
        invariant
            n == s@.len(),
            i <= n,
            i <= space_index(s@),
            forall|j: int| 0 <= j < i ==> s@[j] != ' ',
            0 <= space_index(s@) <= s@.len(),
            space_index(s@) < s@.len() ==> s@[space_index(s@)] == ' ',
        decreases n - i,
    {
        i = i + 1;
    }
    assert(i == space_index(s@));
    let first = s.substring_char(0, i);
    if i < n {
        (first, Some(s.substring_char(i + 1, n)))
    } else {
        (first, None)
    }
}

/// Appends one character (`String::push`).
#[verifier::external_body]
pub(crate) fn push_char(s: &mut String, c: char)
    ensures
        final(s)@ == old(s)@.push(c),
{
    s.push(c);
}

} // verus!
