//! Text handling for what `systemctl` prints: decoding, trimming, lowercasing
//! and substring search.
use vstd::prelude::*;
use vstd::string::*;
use vstd::utf8::*;

verus! {

/// What `String::from_utf8_lossy` makes of a byte sequence.
pub uninterp spec fn utf8_lossy(bytes: Seq<u8>) -> Seq<char>;

/// Whether a character has the Unicode `White_Space` property, which is what
/// `char::is_whitespace` reports and what `str::trim` removes: U+0009 to
/// U+000D, U+0020, U+0085, U+00A0, U+1680, U+2000 to U+200A, U+2028, U+2029,
/// U+202F, U+205F and U+3000.
pub open spec fn white_space(c: char) -> bool {
    let v = c as u32;
    ||| 0x09 <= v <= 0x0d
    ||| v == 0x20
    ||| v == 0x85
    ||| v == 0xa0
    ||| v == 0x1680
    ||| 0x2000 <= v <= 0x200a
    ||| v == 0x2028
    ||| v == 0x2029
    ||| v == 0x202f
    ||| v == 0x205f
    ||| v == 0x3000
}

/// What `str::to_lowercase` makes of a text.
pub uninterp spec fn lowercase(text: Seq<char>) -> Seq<char>;

/// Decodes bytes as UTF-8, replacing invalid sequences.
///
/// Calls `String::from_utf8_lossy`. The contract names its result and adds the
/// documented fact that valid UTF-8 decodes to the text it encodes.
#[verifier::external_body]
pub(crate) fn decode_lossy(bytes: &[u8]) -> (text: String)
    ensures
        text@ == utf8_lossy(bytes@),
        valid_utf8(bytes@) ==> text@ == decode_utf8(bytes@),
{
    String::from_utf8_lossy(bytes).into_owned()
}

/// Whether a character is white space.
pub fn is_white_space(c: char) -> (r: bool)
    ensures
        r == white_space(c),
{
    let v = c as u32;
    (0x09 <= v && v <= 0x0d) || v == 0x20 || v == 0x85 || v == 0xa0 || v == 0x1680 || (0x2000 <= v
        && v <= 0x200a) || v == 0x2028 || v == 0x2029 || v == 0x202f || v == 0x205f || v == 0x3000
}

/// Calls `str::to_lowercase`; the contract names its result.
#[verifier::external_body]
pub(crate) fn to_lower(text: &str) -> (lowered: String)
    ensures
        lowered@ == lowercase(text@),
{
    text.to_lowercase()
}

/// The text without its leading white space.
pub open spec fn trim_front(s: Seq<char>) -> Seq<char>
    decreases s.len(),
{
    if s.len() > 0 && white_space(s[0]) {
        trim_front(s.drop_first())
    } else {
        s
    }
}

/// The text without its trailing white space.
pub open spec fn trim_back(s: Seq<char>) -> Seq<char>
    decreases s.len(),
{
    if s.len() > 0 && white_space(s.last()) {
        trim_back(s.drop_last())
    } else {
        s
    }
}

/// The text without leading and trailing white space, as `str::trim` gives it.
pub open spec fn trimmed(s: Seq<char>) -> Seq<char> {
    trim_back(trim_front(s))
}

/// `pattern` occurs in `text` starting at position `i`.
pub open spec fn occurs_at(text: Seq<char>, pattern: Seq<char>, i: int) -> bool {
    0 <= i && i + pattern.len() <= text.len() && text.subrange(i, i + pattern.len()) == pattern
}

/// `pattern` occurs somewhere in `text`, as `str::contains` decides it.
pub open spec fn has_substring(text: Seq<char>, pattern: Seq<char>) -> bool {
    exists|i: int| #[trigger] occurs_at(text, pattern, i)
}

/// The characters of a text, in order.
pub fn chars_of(s: &str) -> (v: Vec<char>)
    ensures
        v@ == s@,
{
    let mut v: Vec<char> = Vec::new();
    for c in it: s.chars()
        invariant
            v@ == it.seq().take(it.index() as int),
            it.seq() == s@,
    {
        v.push(c);
    }
    v
}

/// Whether two texts hold the same characters.
pub fn same_text(a: &str, b: &str) -> (r: bool)
    ensures
        r == (a@ == b@),
{
    let x = chars_of(a);
    let y = chars_of(b);
    if x.len() != y.len() {
        return false;
    }
    let mut i: usize = 0;
    while i < x.len()
        invariant
            x@ == a@,
            y@ == b@,
            x.len() == y.len(),
            i <= x.len(),
            forall|k: int| 0 <= k < i ==> x@[k] == y@[k],
        decreases x.len() - i,
    {
        if x[i] != y[i] {
            return false;
        }
        i = i + 1;
    }
    assert(x@ =~= y@);
    true
}

/// Whether `pattern` occurs in `text`.
pub fn contains(text: &str, pattern: &str) -> (r: bool)
    ensures
        r == has_substring(text@, pattern@),
{
    let t = chars_of(text);
    let p = chars_of(pattern);
    if p.len() > t.len() {
        assert forall|i: int| !occurs_at(text@, pattern@, i) by {}
        return false;
    }
    let last = t.len() - p.len();
    let mut i: usize = 0;
    while i <= last
        invariant
            t@ == text@,
            p@ == pattern@,
            p.len() <= t.len(),
            last == t.len() - p.len(),
            i <= last + 1,
            forall|k: int| 0 <= k < i ==> !occurs_at(text@, pattern@, k),
        decreases last + 1 - i,
    {
        let mut j: usize = 0;
        while j < p.len() && t[i + j] == p[j]
            invariant
                t@ == text@,
                p@ == pattern@,
                i <= last,
                last == t.len() - p.len(),
                j <= p.len(),
                forall|k: int| 0 <= k < j ==> t@[i + k] == p@[k],
            decreases p.len() - j,
        {
            j = j + 1;
        }
        if j == p.len() {
            assert(t@.subrange(i as int, i + p.len()) =~= p@);
            assert(occurs_at(text@, pattern@, i as int));
            return true;
        }
        assert(t@.subrange(i as int, i + p.len())[j as int] != p@[j as int]);
        i = i + 1;
    }
    assert forall|k: int| !occurs_at(text@, pattern@, k) by {
        if 0 <= k && k + pattern@.len() <= text@.len() {
            assert(k < i);
        }
    }
    false
}

proof fn lemma_trim_front_skip(s: Seq<char>, i: int)
    requires
        0 <= i < s.len(),
        white_space(s[i]),
    ensures
        trim_front(s.subrange(i, s.len() as int)) == trim_front(s.subrange(i + 1, s.len() as int)),
{
    assert(s.subrange(i, s.len() as int).drop_first() =~= s.subrange(i + 1, s.len() as int));
}

proof fn lemma_trim_back_skip(s: Seq<char>, lo: int, hi: int)
    requires
        0 <= lo < hi <= s.len(),
        white_space(s[hi - 1]),
    ensures
        trim_back(s.subrange(lo, hi)) == trim_back(s.subrange(lo, hi - 1)),
{
    assert(s.subrange(lo, hi).drop_last() =~= s.subrange(lo, hi - 1));
}

/// The text without leading and trailing white space.
pub fn trim(s: &str) -> (t: String)
    ensures
        t@ == trimmed(s@),
{
    let cs = chars_of(s);
    let n = cs.len();
    let mut start: usize = 0;
    assert(cs@.subrange(0, n as int) =~= cs@);
    while start < n && is_white_space(cs[start])
        invariant
            cs@ == s@,
            n == cs.len(),
            start <= n,
            trim_front(s@) == trim_front(cs@.subrange(start as int, n as int)),
        decreases n - start,
    {
        proof {
            lemma_trim_front_skip(cs@, start as int);
        }
        start = start + 1;
    }
    assert(trim_front(cs@.subrange(start as int, n as int)) == cs@.subrange(start as int, n as int));
    let mut end: usize = n;
    while end > start && is_white_space(cs[end - 1])
        invariant
            cs@ == s@,
            n == cs.len(),
            start <= end <= n,
            trimmed(s@) == trim_back(cs@.subrange(start as int, end as int)),
        decreases end - start,
    {
        proof {
            lemma_trim_back_skip(cs@, start as int, end as int);
        }
        end = end - 1;
    }
    assert(trim_back(cs@.subrange(start as int, end as int)) == cs@.subrange(start as int, end as int));
    s.substring_char(start, end).to_owned()
}

} // verus!
