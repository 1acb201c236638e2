//! The client of the echo server: it checks that what comes back is what it
//! sent.
use vstd::prelude::*;
use vstd::utf8::{decode_utf8, valid_utf8};
use crate::crypto::str_from_utf8;
use crate::text::bytes_equal;

verus! {

/// The outcome of one exchange with the echo server.
pub enum EchoCheck {
    /// The server sent back exactly what was sent; `text` is that text.
    Received { text: String },
    /// The server sent back something else; `text` is what came back.
    Unexpected { text: String },
}

/// Compares the reply, which must be UTF-8, with what was sent.
pub fn check_echo(sent: &[u8], received: &[u8]) -> (res: EchoCheck)
    requires
        valid_utf8(received@),
    ensures
        res matches EchoCheck::Received { text } ==> received@ == sent@ && text@ == decode_utf8(received@),
        res matches EchoCheck::Unexpected { text } ==> received@ != sent@ && text@ == decode_utf8(received@),
{
    let same = bytes_equal(received, sent);
    let text = match str_from_utf8(received) {
        Some(t) => String::from_str(t),
        None => {
            assert(false);
            String::new()
        },
    };
    if same {
        EchoCheck::Received { text }
    } else {
        EchoCheck::Unexpected { text }
    }
}

} // verus!
