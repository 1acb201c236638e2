//! The echo server: it sends every client back what it wrote, and shows it.
use vstd::prelude::*;
use vstd::utf8::{decode_utf8, valid_utf8};
use crate::crypto::str_from_utf8;
use crate::text::join3;

verus! {

/// The size of the buffer into which the server reads.
pub const BUFFER_SIZE: usize = 50;

/// How the server names a client: its address in brackets, or `inconnue`
/// when the address is unknown.
pub fn describe_peer(addr: Option<String>) -> (res: String)
    ensures
        addr matches Some(a) ==> res@ == "[adresse : "@ + a@ + "]"@,
        addr is None ==> res@ == "inconnue"@,
{
    match addr {
        Some(a) => join3("[adresse : ", a.as_str(), "]"),
        None => String::from_str("inconnue"),
    }
}

/// What the server does after a read.
pub enum EchoStep {
    /// The client closed the connection: log the line and stop serving it.
    Closed { log: String },
    /// Send `reply`, the bytes just read, back to the client.
    Echo { reply: Vec<u8> },
}

/// Decides what to do after reading `size` bytes into `buffer` from the
/// client described as `adresse`: no bytes means the client left; otherwise
/// the bytes read go back to it.
pub fn on_read(adresse: &str, buffer: &[u8], size: usize) -> (res: EchoStep)
    requires
        size <= buffer@.len(),
    ensures
        size == 0 ==> (res matches EchoStep::Closed { log } && log@ == "client déconnecté "@ + adresse@),
        size != 0 ==> (res matches EchoStep::Echo { reply } && reply@ == buffer@.subrange(0, size as int)),
{
    if size < 1 {
        return EchoStep::Closed { log: String::from_str("client déconnecté ").concat(adresse) };
    }
    EchoStep::Echo { reply: vstd::slice::slice_to_vec(vstd::slice::slice_subrange(buffer, 0, size)) }
}

/// The message just read, as the text that the server shows: the `size` bytes
/// read into `buffer`, which must be UTF-8.
pub fn shown_message(buffer: &[u8], size: usize) -> (text: String)
    requires
        size <= buffer@.len(),
        valid_utf8(buffer@.subrange(0, size as int)),
    ensures
        text@ == decode_utf8(buffer@.subrange(0, size as int)),
{
    let chunk = vstd::slice::slice_subrange(buffer, 0, size);
    match str_from_utf8(chunk) {
        Some(t) => String::from_str(t),
        None => {
            assert(false);
            String::new()
        },
    }
}

} // verus!
