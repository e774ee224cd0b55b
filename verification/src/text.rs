//! Text handling for the display: decoding guest bytes and fitting text
//! onto a fixed-width line.
//!
//! Line fitting is grapheme-aware: the display counts user-perceived
//! characters, not code points, so the cut falls on a grapheme-cluster
//! boundary. The segmentation itself is done by an outside library and
//! only named here; what the library proves about trimming is stated
//! over that name.

use vstd::prelude::*;

use unicode_segmentation::UnicodeSegmentation;

verus! {

use vstd::utf8::{valid_utf8, decode_utf8};

/// The concatenation of the first `n` grapheme clusters of `s` (all of
/// them, if `s` has fewer). Computed by the segmentation library; a
/// function of its arguments alone.
pub uninterp spec fn grapheme_prefix(s: Seq<char>, n: int) -> Seq<char>;

/// Takes the first `n` grapheme clusters of `s`.
///
/// Relies on `unicode_segmentation::UnicodeSegmentation::graphemes`:
/// the iterator yields consecutive, non-empty substrings of `s` that
/// concatenate back to `s`, so the first `n` of them form a prefix of
/// `s`, and a string of at most `n` characters has at most `n` clusters
/// and is returned whole.
#[verifier::external_body]
pub fn take_graphemes(s: &str, n: usize) -> (r: String)
    ensures
        r@ == grapheme_prefix(s@, n as int),
        r@.len() <= s@.len(),
        r@ == s@.subrange(0, r@.len() as int),
        s@.len() <= n ==> r@ == s@,
{
    s.graphemes(true).take(n).collect::<String>()
}

/// The characters `String::from_utf8_lossy` reads out of `bytes`: a
/// function of the bytes alone.
pub uninterp spec fn utf8_lossy(bytes: Seq<u8>) -> Seq<char>;

/// Decodes guest bytes into text, replacing invalid sequences.
///
/// Relies on `String::from_utf8_lossy`: invalid sequences become
/// replacement characters, and valid UTF-8 input decodes to exactly the
/// character sequence it encodes.
#[verifier::external_body]
pub fn decode_utf8_lossy(bytes: &Vec<u8>) -> (r: String)
    ensures
        r@ == utf8_lossy(bytes@),
        valid_utf8(bytes@) ==> r@ == decode_utf8(bytes@),
{
    String::from_utf8_lossy(bytes.as_slice()).into_owned()
}

/// Holds when `r` is the first line of `s`: the prefix before the first
/// line break, where a break is a bare newline or a carriage return
/// directly followed by one.
pub open spec fn is_first_line(s: Seq<char>, r: Seq<char>) -> bool {
    &&& r.len() <= s.len()
    &&& r == s.subrange(0, r.len() as int)
    &&& (forall|i: int| 0 <= i < r.len() ==> s[i] != '\n')
    &&& if r.len() == s.len() {
        true
    } else if s[r.len() as int] == '\n' {
        r.len() == 0 || r[r.len() - 1] != '\r'
    } else {
        &&& s[r.len() as int] == '\r'
        &&& r.len() + 1 < s.len()
        &&& s[r.len() as int + 1] == '\n'
    }
}

/// The first line of `s`; exactly one prefix qualifies.
pub open spec fn first_line_of(s: Seq<char>) -> Seq<char> {
    choose|r: Seq<char>| is_first_line(s, r)
}

/// At most one prefix of `s` is its first line.
pub proof fn lemma_first_line_unique(s: Seq<char>, r1: Seq<char>, r2: Seq<char>)
    requires
        is_first_line(s, r1),
        is_first_line(s, r2),
    ensures
        r1 == r2,
{
    if r1.len() < r2.len() {
        let j = r1.len() as int;
        // The longer prefix contains position j, so s[j] is not a
        // newline; the shorter prefix's boundary says it is one, or
        // starts one with s[j + 1] a newline. In the latter case the
        // longer prefix must end exactly at j + 1, with the carriage
        // return s[j] as its last character, which its own boundary
        // forbids.
        if s[j] != '\n' {
            assert(r2.len() == j + 1);
            assert(r2[r2.len() - 1] == s[j]);
        }
        assert(false);
    } else if r2.len() < r1.len() {
        let j = r2.len() as int;
        if s[j] != '\n' {
            assert(r1.len() == j + 1);
            assert(r1[r1.len() - 1] == s[j]);
        }
        assert(false);
    } else {
        assert(r1 =~= r2);
    }
}

/// Returns the first line of `s`: everything before the first line
/// break, the whole string if it has none.
pub fn first_line<'a>(s: &'a str) -> (r: &'a str)
    ensures
        is_first_line(s@, r@),
        r@ == first_line_of(s@),
{
    let n = s.unicode_len();
    let mut i: usize = 0;
    while i < n
        invariant
            i <= n,
            n == s@.len(),
            forall|k: int| 0 <= k < i ==> s@[k] != '\n',
        decreases n - i,
    {
        if s.get_char(i) == '\n' {
            let cut: usize = if i > 0 && s.get_char(i - 1) == '\r' {
                i - 1
            } else {
                i
            };
            let r = s.substring_char(0, cut);
            proof {
                assert(is_first_line(s@, r@));
                lemma_first_line_unique(s@, r@, first_line_of(s@));
            }
            return r;
        }
        i = i + 1;
    }
    proof {
        assert(s@ == s@.subrange(0, s@.len() as int)) by {
            assert(s@ =~= s@.subrange(0, s@.len() as int));
        }
        assert(is_first_line(s@, s@));
        lemma_first_line_unique(s@, s@, first_line_of(s@));
    }
    s
}

} // verus!
