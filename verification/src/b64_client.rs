//! The client that sends what the user types encoded in base64, and prints
//! what the server sends back byte by byte.
use vstd::prelude::*;
use vstd::utf8::{encode_utf8, is_ascii_chars, is_ascii_chars_encode_utf8};
use crate::text::join3;

verus! {

/// The base64 symbol (RFC 4648, standard alphabet) for a six-bit value.
pub open spec fn base64_symbol(v: int) -> char {
    if v < 26 {
        (65 + v) as char
    } else if v < 52 {
        (97 + (v - 26)) as char
    } else if v < 62 {
        (48 + (v - 52)) as char
    } else if v == 62 {
        '+'
    } else {
        '/'
    }
}

/// The four symbols of a 24-bit group `n` of which only the first `k` bytes
/// (1 to 3) hold data; the symbols that cover no data byte are `'='`.
pub open spec fn base64_quad(n: int, k: int) -> Seq<char> {
    seq![
        base64_symbol(n / 262144),
        base64_symbol((n / 4096) % 64),
        if k >= 2 { base64_symbol((n / 64) % 64) } else { '=' },
        if k >= 3 { base64_symbol(n % 64) } else { '=' },
    ]
}

/// Base64 encoding (RFC 4648, standard alphabet, `'='` padding, no line
/// breaks): each group of three bytes, the last one possibly shorter, becomes
/// four symbols.
pub open spec fn base64_encode(src: Seq<u8>) -> Seq<char>
    decreases src.len(),
{
    if src.len() == 0 {
        Seq::empty()
    } else if src.len() == 1 {
        base64_quad(src[0] * 65536, 1)
    } else if src.len() == 2 {
        base64_quad(src[0] * 65536 + src[1] * 256, 2)
    } else {
        base64_quad(src[0] * 65536 + src[1] * 256 + src[2], 3) + base64_encode(src.subrange(3, src.len() as int))
    }
}

/// Length of the base64 encoding of `n` bytes: four characters for every
/// three bytes or part of three.
pub open spec fn base64_len(n: nat) -> nat {
    4 * ((n + 2) / 3)
}

/// A symbol of the base64 alphabet: `A`-`Z`, `a`-`z`, `0`-`9`, `+` or `/`.
pub open spec fn is_base64_symbol(c: char) -> bool {
    ||| 'A' <= c <= 'Z'
    ||| 'a' <= c <= 'z'
    ||| '0' <= c <= '9'
    ||| c == '+'
    ||| c == '/'
}

/// The shape of a base64 encoding: its length, every character a symbol of
/// the alphabet or `'='`, and `'='` only among the last two characters.
pub open spec fn is_base64_text(r: Seq<char>, n: nat) -> bool {
    &&& r.len() == base64_len(n)
    &&& forall|i: int| 0 <= i < r.len() ==> is_base64_symbol(#[trigger] r[i]) || r[i] == '='
    &&& forall|i: int| 0 <= i < r.len() && #[trigger] r[i] == '=' ==> i >= r.len() - 2
}

proof fn lemma_symbol(v: int)
    requires
        0 <= v < 64,
    ensures
        is_base64_symbol(base64_symbol(v)),
        base64_symbol(v) != '=',
{
}

proof fn lemma_quad(n: int, k: int)
    requires
        0 <= n < 16777216,
        1 <= k <= 3,
    ensures
        base64_quad(n, k).len() == 4,
        forall|i: int| 0 <= i < 4 ==> is_base64_symbol(#[trigger] base64_quad(n, k)[i]) || base64_quad(n, k)[i] == '=',
        forall|i: int| 0 <= i < 4 && #[trigger] base64_quad(n, k)[i] == '=' ==> i >= 2,
        k == 3 ==> forall|i: int| 0 <= i < 4 ==> is_base64_symbol(#[trigger] base64_quad(n, k)[i]),
{
    lemma_symbol(n / 262144);
    lemma_symbol((n / 4096) % 64);
    lemma_symbol((n / 64) % 64);
    lemma_symbol(n % 64);
}

/// Every base64 encoding has the length `base64_len`, holds only symbols of
/// the alphabet and `'='` (so it is ASCII and has no line break), and holds
/// `'='` only among its last two characters.
pub proof fn lemma_base64_shape(src: Seq<u8>)
    ensures
        is_base64_text(base64_encode(src), src.len()),
    decreases src.len(),
{
    let r = base64_encode(src);
    if src.len() == 0 {
    } else if src.len() == 1 {
        lemma_quad(src[0] * 65536, 1);
    } else if src.len() == 2 {
        lemma_quad(src[0] * 65536 + src[1] * 256, 2);
    } else {
        let n = src[0] * 65536 + src[1] * 256 + src[2];
        let rest = src.subrange(3, src.len() as int);
        lemma_quad(n, 3);
        lemma_base64_shape(rest);
        let q = base64_quad(n, 3);
        let t = base64_encode(rest);
        assert(r == q + t);
        assert(base64_len(src.len()) == 4 + base64_len(rest.len()));
        assert forall|i: int| 0 <= i < r.len() implies is_base64_symbol(#[trigger] r[i]) || r[i] == '=' by {
            if i < 4 {
                assert(r[i] == q[i]);
            } else {
                assert(r[i] == t[i - 4]);
            }
        }
        assert forall|i: int| 0 <= i < r.len() && #[trigger] r[i] == '=' implies i >= r.len() - 2 by {
            if i < 4 {
                assert(r[i] == q[i]);
            } else {
                assert(r[i] == t[i - 4]);
            }
        }
    }
}

/// Calls `openssl::base64::encode_block` (openssl 0.10.82). It panics unless
/// the input length and the encoded length plus its terminating NUL fit in a
/// C `int`. Claimed, from its documentation and that of OpenSSL's
/// `EVP_EncodeBlock`: the result is the standard base64 encoding of the bytes,
/// with `'='` padding and no line breaks.
#[verifier::external_body]
fn encode_block(src: &[u8]) -> (res: String)
    requires
        base64_len(src@.len()) + 1 <= i32::MAX,
    ensures
        res@ == base64_encode(src@),
{
    openssl::base64::encode_block(src)
}

/// Encodes what the user typed, as UTF-8 bytes, in base64. The text itself is
/// left as it was.
pub fn encrypt(user_buffer: &mut String) -> (res: String)
    requires
        base64_len(encode_utf8(old(user_buffer)@).len()) + 1 <= i32::MAX,
    ensures
        final(user_buffer)@ == old(user_buffer)@,
        res@ == base64_encode(encode_utf8(old(user_buffer)@)),
        is_base64_text(res@, encode_utf8(old(user_buffer)@).len()),
        is_ascii_chars(res@),
        encode_utf8(res@).len() == res@.len(),
{
    let bytes: &[u8] = user_buffer.as_str().as_bytes();
    let res = encode_block(bytes);
    proof {
        lemma_base64_shape(bytes@);
        assert(is_ascii_chars(res@)) by {
            assert forall|i: int| 0 <= i < res@.len() implies '\0' <= #[trigger] res@[i] <= '\u{7f}' by {
                assert(is_base64_symbol(res@[i]) || res@[i] == '=');
            }
        }
        is_ascii_chars_encode_utf8(res@);
    }
    res
}

/// A named program that reports its errors under its name.
pub struct Program {
    name: String,
}

impl View for Program {
    type V = Seq<char>;

    closed spec fn view(&self) -> Seq<char> {
        self.name@
    }
}

/// The line that reports the error `mesg` of the program named `name`.
pub open spec fn error_line(name: Seq<char>, mesg: Seq<char>) -> Seq<char> {
    name + ": error: "@ + mesg
}

impl Program {
    /// A program with the given name.
    pub fn new(name: String) -> (p: Program)
        ensures
            p@ == name@,
    {
        Program { name: name }
    }

    /// The line to print for the error `mesg`.
    pub fn print_error(&self, mesg: String) -> (line: String)
        ensures
            line@ == error_line(self@, mesg@),
    {
        join3(self.name.as_str(), ": error: ", mesg.as_str())
    }

    /// Reporting an error and failing: the line to print, then the status the
    /// program exits with.
    pub fn print_fail(&self, mesg: String) -> (res: (String, i32))
        ensures
            res.0@ == error_line(self@, mesg@),
            res.1 == -1,
    {
        let line = self.print_error(mesg);
        (line, self.fail())
    }

    /// The status with which the program exits when it fails.
    pub fn fail(&self) -> (status: i32)
        ensures
            status == -1,
    {
        -1
    }
}

/// What the client does after reading from the server.
pub enum Incoming {
    /// The server closed the connection: print the notice and exit with the
    /// status.
    ServerClosed { notice: String, status: i32 },
    /// Bytes arrived: write the whole buffer to the terminal.
    Output { bytes: Vec<u8> },
}

/// Decides what to do after reading `n` bytes into `buffer`: no bytes means
/// that the server is gone and the client exits with status 0; otherwise the
/// whole buffer is written out.
pub fn on_receive(buffer: &[u8], n: usize) -> (res: Incoming)
    ensures
        n == 0 ==> (res matches Incoming::ServerClosed { notice, status }
            && notice@ == "Connexion avec le serveur interrompu !"@ && status == 0),
        n != 0 ==> (res matches Incoming::Output { bytes } && bytes@ == buffer@),
{
    if n == 0 {
        Incoming::ServerClosed {
            notice: String::from_str("Connexion avec le serveur interrompu !"),
            status: 0,
        }
    } else {
        Incoming::Output { bytes: vstd::slice::slice_to_vec(buffer) }
    }
}

/// The error line starts with the program's name and ends with the message,
/// joined by `": error: "`; different messages of one program give different
/// lines.
pub proof fn lemma_error_line_shape(name: Seq<char>, mesg: Seq<char>, other: Seq<char>)
    ensures
        error_line(name, mesg) == name + ": error: "@ + mesg,
        error_line(name, mesg).subrange(0, name.len() as int) == name,
        error_line(name, mesg).subrange(error_line(name, mesg).len() - mesg.len(), error_line(name, mesg).len() as int) == mesg,
        error_line(name, mesg) == error_line(name, other) ==> mesg == other,
{
    let l = error_line(name, mesg);
    let k = error_line(name, other);
    assert(l.subrange(0, name.len() as int) =~= name);
    assert(l.subrange(l.len() - mesg.len(), l.len() as int) =~= mesg);
    if l == k {
        assert(k.subrange(k.len() - other.len(), k.len() as int) =~= other);
        assert(mesg =~= other);
    }
}

} // verus!

