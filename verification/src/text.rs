//! Text handling for line input: comparison, trimming and case folding.
//!
//! Every contract here speaks of a string through its view, the sequence of
//! its characters.

use vstd::prelude::*;
use vstd::string::*;
use vstd::utf8::*;

verus! {

/// The characters that count as white space: the code points with the Unicode
/// property `White_Space`.
pub open spec fn is_white_space(c: char) -> bool {
    let n = c as u32;
    ||| 0x09 <= n <= 0x0d
    ||| n == 0x20
    ||| n == 0x85
    ||| n == 0xa0
    ||| n == 0x1680
    ||| 0x2000 <= n <= 0x200a
    ||| n == 0x2028
    ||| n == 0x2029
    ||| n == 0x202f
    ||| n == 0x205f
    ||| n == 0x3000
}

/// `s` without its leading white space.
pub open spec fn trim_start(s: Seq<char>) -> Seq<char>
    decreases s.len(),
{
    if s.len() > 0 && is_white_space(s.first()) {
        trim_start(s.drop_first())
    } else {
        s
    }
}

/// `s` without its trailing white space.
pub open spec fn trim_end(s: Seq<char>) -> Seq<char>
    decreases s.len(),
{
    if s.len() > 0 && is_white_space(s.last()) {
        trim_end(s.drop_last())
    } else {
        s
    }
}

/// `s` without white space at either end. A line terminator is white space,
/// so either convention of ending a line is stripped with it.
pub open spec fn trimmed(s: Seq<char>) -> Seq<char> {
    trim_end(trim_start(s))
}

/// Nothing is left to trim: `s` is empty, or neither its first nor its last
/// character is white space.
pub open spec fn is_trimmed(s: Seq<char>) -> bool {
    s.len() > 0 ==> !is_white_space(s.first()) && !is_white_space(s.last())
}

/// The lower-case form of an ASCII capital letter; any other character
/// unchanged.
pub open spec fn ascii_lower(c: char) -> char {
    if 'A' <= c <= 'Z' {
        ((c as u8) + 32) as u8 as char
    } else {
        c
    }
}

/// `s` with each ASCII capital letter replaced by its lower-case form.
pub open spec fn ascii_lowercase(s: Seq<char>) -> Seq<char> {
    Seq::new(s.len(), |i: int| ascii_lower(s[i]))
}

/// The lower-case form that Unicode gives to a text. It depends on the text
/// alone; its definition fills tables, and none of it is stated here.
pub uninterp spec fn unicode_lowercase(s: Seq<char>) -> Seq<char>;

/// The lower-case form of `s`: ASCII text is folded letter by letter, text
/// with any other character by the rules of Unicode.
pub open spec fn lowercase(s: Seq<char>) -> Seq<char> {
    if is_ascii_chars(s) {
        ascii_lowercase(s)
    } else {
        unicode_lowercase(s)
    }
}

/// The normal form of a line of input: trimmed, then lower-cased.
pub open spec fn normalized(s: Seq<char>) -> Seq<char> {
    lowercase(trimmed(s))
}

/// Calls `str::trim`. Taken on trust: what comes back is `s` without its
/// leading and its trailing white space, white space being what
/// `char::is_whitespace` accepts, the characters with the Unicode property
/// `White_Space`, which `is_white_space` lists.
#[verifier::external_body]
pub(crate) fn trim_str(s: &str) -> (r: &str)
    ensures
        r@ == trimmed(s@),
{
    s.trim()
}

/// Calls `str::to_ascii_lowercase`. Taken on trust: what comes back is a copy
/// of `s` in which the ASCII letters `A` to `Z` are replaced by `a` to `z` and
/// every other character stands as it stood.
#[verifier::external_body]
fn to_ascii_lowercase(s: &str) -> (r: String)
    ensures
        r@ == ascii_lowercase(s@),
{
    s.to_ascii_lowercase()
}

/// Calls `str::to_lowercase`. Taken on trust: the result depends on the
/// characters of `s` alone. The contract says no more of it than its name.
#[verifier::external_body]
fn to_unicode_lowercase(s: &str) -> (r: String)
    ensures
        r@ == unicode_lowercase(s@),
{
    s.to_lowercase()
}

/// Whether two strings hold the same characters.
pub fn same_text(a: &str, b: &str) -> (r: bool)
    ensures
        r == (a@ == b@),
{
    let x = a.as_bytes();
    let y = b.as_bytes();
    proof {
        encode_utf8_decode_utf8(a@);
        encode_utf8_decode_utf8(b@);
    }
    if x.len() != y.len() {
        return false;
    }
    let mut i: usize = 0;
    while i < x.len()
        invariant
            i <= x.len(),
            x.len() == y.len(),
            x@ == encode_utf8(a@),
            y@ == encode_utf8(b@),
            a@ == decode_utf8(encode_utf8(a@)),
            b@ == decode_utf8(encode_utf8(b@)),
            forall|j: int| 0 <= j < i ==> x@[j] == y@[j],
        decreases x.len() - i,
    {
        if x[i] != y[i] {
            return false;
        }
        i += 1;
    }
    assert(x@ =~= y@);
    true
}

/// The lower-case form of `s`.
pub fn to_lowercase(s: &str) -> (r: String)
    ensures
        r@ == lowercase(s@),
{
    if s.is_ascii() {
        to_ascii_lowercase(s)
    } else {
        to_unicode_lowercase(s)
    }
}

/// The normal form of a raw line: white space and the line terminator
/// stripped from both ends, and what is left lower-cased.
pub fn normalize(raw: &str) -> (r: String)
    ensures
        r@ == normalized(raw@),
{
    to_lowercase(trim_str(raw))
}

/// What `trim_start` returns begins with a character that is not white space,
/// unless it is empty.
proof fn lemma_trim_start_head(s: Seq<char>)
    ensures
        trim_start(s).len() > 0 ==> !is_white_space(trim_start(s).first()),
    decreases s.len(),
{
    if s.len() > 0 && is_white_space(s.first()) {
        lemma_trim_start_head(s.drop_first());
    }
}

/// `trim_end` leaves the front of a text alone: whatever it returns, if not
/// empty, begins as `s` does; and it ends with a character that is not white
/// space.
proof fn lemma_trim_end_ends(s: Seq<char>)
    ensures
        trim_end(s).len() > 0 ==> trim_end(s).first() == s.first() && !is_white_space(
            trim_end(s).last(),
        ),
    decreases s.len(),
{
    if s.len() > 0 && is_white_space(s.last()) {
        lemma_trim_end_ends(s.drop_last());
    }
}

/// Trimming leaves nothing to trim.
pub proof fn lemma_trimmed_is_trimmed(s: Seq<char>)
    ensures
        is_trimmed(trimmed(s)),
{
    lemma_trim_start_head(s);
    lemma_trim_end_ends(trim_start(s));
}

/// A text with nothing to trim is its own trimmed form.
pub proof fn lemma_trimmed_fixed(s: Seq<char>)
    requires
        is_trimmed(s),
    ensures
        trimmed(s) == s,
{
}

/// Trimming twice is trimming once.
pub proof fn lemma_trim_idempotent(s: Seq<char>)
    ensures
        trimmed(trimmed(s)) == trimmed(s),
{
    lemma_trimmed_is_trimmed(s);
    lemma_trimmed_fixed(trimmed(s));
}

/// Trimming keeps a contiguous piece of the text: what is cut off in front
/// and behind is white space, all of it.
pub proof fn lemma_trimmed_is_middle(s: Seq<char>) -> (cut: (int, int))
    ensures
        0 <= cut.0 <= cut.1 <= s.len(),
        trimmed(s) == s.subrange(cut.0, cut.1),
        forall|i: int| 0 <= i < cut.0 ==> is_white_space(#[trigger] s[i]),
        forall|i: int| cut.1 <= i < s.len() ==> is_white_space(#[trigger] s[i]),
{
    let from = lemma_trim_start_is_tail(s);
    let t = trim_start(s);
    let keep = lemma_trim_end_is_head(t);
    assert(t.subrange(0, keep) =~= s.subrange(from, from + keep));
    assert forall|i: int| from + keep <= i < s.len() implies is_white_space(#[trigger] s[i]) by {
        assert(s[i] == t[i - from]);
    }
    (from, from + keep)
}

/// `trim_start` cuts off a run of white space in front, and nothing else.
proof fn lemma_trim_start_is_tail(s: Seq<char>) -> (from: int)
    ensures
        0 <= from <= s.len(),
        trim_start(s) == s.subrange(from, s.len() as int),
        forall|i: int| 0 <= i < from ==> is_white_space(#[trigger] s[i]),
    decreases s.len(),
{
    if s.len() > 0 && is_white_space(s.first()) {
        let rest = s.drop_first();
        let k = lemma_trim_start_is_tail(rest);
        assert(rest.subrange(k, rest.len() as int) =~= s.subrange(k + 1, s.len() as int));
        assert forall|i: int| 0 <= i < k + 1 implies is_white_space(#[trigger] s[i]) by {
            if i > 0 {
                assert(s[i] == rest[i - 1]);
            }
        }
        k + 1
    } else {
        assert(s.subrange(0, s.len() as int) =~= s);
        0
    }
}

/// `trim_end` cuts off a run of white space behind, and nothing else.
proof fn lemma_trim_end_is_head(s: Seq<char>) -> (keep: int)
    ensures
        0 <= keep <= s.len(),
        trim_end(s) == s.subrange(0, keep),
        forall|i: int| keep <= i < s.len() ==> is_white_space(#[trigger] s[i]),
    decreases s.len(),
{
    if s.len() > 0 && is_white_space(s.last()) {
        let rest = s.drop_last();
        let k = lemma_trim_end_is_head(rest);
        assert(rest.subrange(0, k) =~= s.subrange(0, k));
        assert forall|i: int| k <= i < s.len() implies is_white_space(#[trigger] s[i]) by {
            if i < s.len() - 1 {
                assert(s[i] == rest[i]);
            }
        }
        k
    } else {
        assert(s.subrange(0, s.len() as int) =~= s);
        s.len() as int
    }
}

/// Trimming an ASCII text leaves an ASCII text.
pub proof fn lemma_trimmed_ascii(s: Seq<char>)
    requires
        is_ascii_chars(s),
    ensures
        is_ascii_chars(trimmed(s)),
{
    let cut = lemma_trimmed_is_middle(s);
    assert forall|i: int| 0 <= i < trimmed(s).len() implies '\0' <= #[trigger] trimmed(s)[i]
        <= '\u{7f}' by {
        assert(trimmed(s)[i] == s[cut.0 + i]);
    }
}

/// Folding ASCII letters keeps a text ASCII, changes no text that holds no
/// capital letter, gives a text without capital letters, and neither makes
/// nor removes white space.
pub proof fn lemma_ascii_lowercase(s: Seq<char>)
    ensures
        ascii_lowercase(s).len() == s.len(),
        is_ascii_chars(s) ==> is_ascii_chars(ascii_lowercase(s)),
        ascii_lowercase(ascii_lowercase(s)) == ascii_lowercase(s),
        is_trimmed(s) ==> is_trimmed(ascii_lowercase(s)),
        forall|i: int|
            0 <= i < s.len() ==> !('A' <= #[trigger] ascii_lowercase(s)[i] <= 'Z'),
{
    let t = ascii_lowercase(s);
    assert forall|i: int| 0 <= i < s.len() implies ascii_lower(#[trigger] t[i]) == t[i] && !('A'
        <= t[i] <= 'Z') && is_white_space(t[i]) == is_white_space(s[i]) && ('\0' <= s[i]
        <= '\u{7f}' ==> '\0' <= t[i] <= '\u{7f}') by {
        lemma_ascii_lower(s[i]);
    }
    assert(ascii_lowercase(t) =~= t);
    if s.len() > 0 {
        assert(t.first() == t[0]);
        assert(t.last() == t[s.len() - 1]);
    }
}

/// The lower-case form of a character is a fixed point of the folding, is
/// white space exactly if the character is, and is ASCII if the character is.
pub proof fn lemma_ascii_lower(c: char)
    ensures
        ascii_lower(ascii_lower(c)) == ascii_lower(c),
        !('A' <= ascii_lower(c) <= 'Z'),
        is_white_space(ascii_lower(c)) == is_white_space(c),
        '\0' <= c <= '\u{7f}' ==> '\0' <= ascii_lower(c) <= '\u{7f}',
{
}

/// Normalizing is idempotent on every line that is ASCII once trimmed:
/// a second pass changes nothing.
pub proof fn lemma_normalize_idempotent_ascii(s: Seq<char>)
    requires
        is_ascii_chars(trimmed(s)),
    ensures
        normalized(normalized(s)) == normalized(s),
{
    let t = trimmed(s);
    lemma_trimmed_is_trimmed(s);
    lemma_ascii_lowercase(t);
    lemma_trimmed_fixed(ascii_lowercase(t));
}

} // verus!
