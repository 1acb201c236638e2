//! Text helpers shared by the chat programs: the line ending that a terminal
//! leaves on what the user types, and the joining of message parts.
use vstd::prelude::*;

verus! {

/// The text with one trailing `'\n'` removed and then, only in that case, one
/// trailing `'\r'` as well: what is left of a line read from a terminal.
pub open spec fn without_line_ending(s: Seq<char>) -> Seq<char> {
    if s.len() > 0 && s.last() == '\n' {
        let t = s.drop_last();
        if t.len() > 0 && t.last() == '\r' {
            t.drop_last()
        } else {
            t
        }
    } else {
        s
    }
}

/// Removes the line ending that reading a line leaves: a final `"\n"`, or a
/// final `"\r\n"`. Any other text is returned unchanged.
pub fn strip_line_ending(s: &str) -> (res: String)
    ensures
        res@ == without_line_ending(s@),
{
    let n = s.unicode_len();
    if n > 0 && s.get_char(n - 1) == '\n' {
        let m = n - 1;
        if m > 0 && s.get_char(m - 1) == '\r' {
            String::from_str(s.substring_char(0, m - 1))
        } else {
            String::from_str(s.substring_char(0, m))
        }
    } else {
        String::from_str(s)
    }
}

/// A line typed as `s` and ended with `"\r\n"` comes back as `s`; ended with
/// `"\n"` it comes back as `s` too, unless `s` itself ends with `'\r'`.
pub proof fn lemma_strip_typed_line(s: Seq<char>)
    ensures
        without_line_ending(s + seq!['\r', '\n']) == s,
        !(s.len() > 0 && s.last() == '\r') ==> without_line_ending(s + seq!['\n']) == s,
{
    assert((s + seq!['\r', '\n']).drop_last() =~= s + seq!['\r']);
    assert((s + seq!['\r']).drop_last() =~= s);
    assert((s + seq!['\n']).drop_last() =~= s);
}

/// Text that ends with neither `'\n'` nor `'\r'` is left as it is, so stripping
/// twice is stripping once on such text.
pub proof fn lemma_strip_plain_text(s: Seq<char>)
    requires
        !(s.len() > 0 && s.last() == '\n'),
    ensures
        without_line_ending(s) == s,
{
}

/// `t` is the line `raw` without its ending: `raw` is `t` followed by
/// `"\r\n"` when `raw` ends so, by `"\n"` when it ends with a `'\n'` not
/// preceded by `'\r'`, and by nothing when it does not end with `'\n'`.
pub open spec fn is_line_of(raw: Seq<char>, t: Seq<char>) -> bool {
    let n = raw.len();
    &&& (n >= 2 && raw[n - 1] == '\n' && raw[n - 2] == '\r') ==> t + seq!['\r', '\n'] == raw
    &&& (n >= 1 && raw[n - 1] == '\n' && !(n >= 2 && raw[n - 2] == '\r')) ==> t + seq!['\n'] == raw
    &&& !(n >= 1 && raw[n - 1] == '\n') ==> t == raw
}

/// Stripping the line ending gives the line: the result is exactly what
/// `is_line_of` describes, and only one text is so described.
pub proof fn lemma_strip_is_the_line(raw: Seq<char>, t: Seq<char>)
    ensures
        is_line_of(raw, without_line_ending(raw)),
        is_line_of(raw, t) ==> t == without_line_ending(raw),
{
    let n = raw.len();
    let w = without_line_ending(raw);
    if n >= 1 && raw[n - 1] == '\n' {
        if n >= 2 && raw[n - 2] == '\r' {
            assert(w + seq!['\r', '\n'] =~= raw);
            if is_line_of(raw, t) {
                assert(t =~= (t + seq!['\r', '\n']).subrange(0, n - 2));
                assert(w =~= (w + seq!['\r', '\n']).subrange(0, n - 2));
            }
        } else {
            assert(w + seq!['\n'] =~= raw);
            if is_line_of(raw, t) {
                assert(t =~= (t + seq!['\n']).subrange(0, n - 1));
                assert(w =~= (w + seq!['\n']).subrange(0, n - 1));
            }
        }
    }
}

/// Joins three pieces of text into one string.
pub fn join3(a: &str, b: &str, c: &str) -> (res: String)
    ensures
        res@ == a@ + b@ + c@,
{
    String::from_str(a).concat(b).concat(c)
}

/// Joins four pieces of text into one string.
pub fn join4(a: &str, b: &str, c: &str, d: &str) -> (res: String)
    ensures
        res@ == a@ + b@ + c@ + d@,
{
    String::from_str(a).concat(b).concat(c).concat(d)
}

/// Joins five pieces of text into one string.
pub fn join5(a: &str, b: &str, c: &str, d: &str, e: &str) -> (res: String)
    ensures
        res@ == a@ + b@ + c@ + d@ + e@,
{
    String::from_str(a).concat(b).concat(c).concat(d).concat(e)
}

/// Byte-for-byte equality of two buffers.
pub fn bytes_equal(a: &[u8], b: &[u8]) -> (res: bool)
    ensures
        res == (a@ == b@),
{
    if a.len() != b.len() {
        return false;
    }
    let mut i: usize = 0;
    while i < a.len()
        invariant
            a@.len() == b@.len(),
            i <= a@.len(),
            forall|j: int| 0 <= j < i ==> a@[j] == b@[j],
        decreases a@.len() - i,
    {
        if a[i] != b[i] {
            return false;
        }
        i = i + 1;
    }
    assert(a@ =~= b@);
    true
}

} // verus!
