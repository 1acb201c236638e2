//! What the chat client does with what it reads from the server.
use vstd::prelude::*;
use crate::crypto::{try_dechiffrer, decrypted_text, encrypted_text, DecryptError};

verus! {

/// What the client does after reading from the server.
pub enum Received {
    /// The server closed the connection: print the notice and exit with the
    /// status.
    ServerClosed { notice: String, status: i32 },
    /// A message arrived: print its text.
    Message { text: String },
}

/// A reading as plain values.
pub enum ReceivedView {
    ServerClosed(Seq<char>, i32),
    Message(Seq<char>),
}

impl View for Received {
    type V = ReceivedView;

    open spec fn view(&self) -> ReceivedView {
        match self {
            Received::ServerClosed { notice, status } => ReceivedView::ServerClosed(notice@, *status),
            Received::Message { text } => ReceivedView::Message(text@),
        }
    }
}

/// The notice printed when the server closes the connection.
pub open spec fn closed_notice() -> Seq<char> {
    "Connexion avec le serveur interrompu !"@
}

/// What the client does on reading `n` bytes into `buffer`: no bytes means
/// that the server is gone and the client exits with status 1; otherwise the
/// bytes read are decrypted into the text to show.
pub open spec fn received_step(buffer: Seq<u8>, n: nat) -> Result<ReceivedView, DecryptError> {
    if n == 0 {
        Ok(ReceivedView::ServerClosed(closed_notice(), 1))
    } else {
        match decrypted_text(buffer.subrange(0, n as int)) {
            Ok(t) => Ok(ReceivedView::Message(t)),
            Err(e) => Err(e),
        }
    }
}

/// Decides what to do with the `n` bytes just read into `buffer`.
pub fn on_receive(buffer: &[u8], n: usize) -> (res: Result<Received, DecryptError>)
    requires
        n <= buffer@.len(),
    ensures
        (match res {
            Ok(r) => Ok::<ReceivedView, DecryptError>(r@),
            Err(e) => Err(e),
        }) == received_step(buffer@, n as nat),
        n > 0 ==> forall|s: Seq<char>| buffer@.subrange(0, n as int) == #[trigger] encrypted_text(s)
            ==> (res matches Ok(Received::Message { text }) && text@ == s),
{
    if n == 0 {
        return Ok(Received::ServerClosed {
            notice: String::from_str("Connexion avec le serveur interrompu !"),
            status: 1,
        });
    }
    let part = vstd::slice::slice_subrange(buffer, 0, n);
    assert(part@ == buffer@.subrange(0, n as int));
    match try_dechiffrer(part) {
        Ok(text) => Ok(Received::Message { text }),
        Err(e) => Err(e),
    }
}

/// The client ends with status 1 exactly when nothing was read, with the
/// notice that the server is gone; otherwise it shows the decrypted text of
/// the bytes read, all of them and only them.
pub proof fn lemma_receive_cases(buffer: Seq<u8>, n: nat)
    requires
        n <= buffer.len(),
    ensures
        n == 0 ==> received_step(buffer, n) == Ok::<ReceivedView, DecryptError>(
            ReceivedView::ServerClosed("Connexion avec le serveur interrompu !"@, 1)),
        n > 0 && decrypted_text(buffer.subrange(0, n as int)) is Ok ==> received_step(buffer, n)
            == Ok::<ReceivedView, DecryptError>(ReceivedView::Message(decrypted_text(buffer.subrange(0, n as int))->Ok_0)),
        n > 0 && decrypted_text(buffer.subrange(0, n as int)) is Err ==> received_step(buffer, n)
            == Err::<ReceivedView, DecryptError>(decrypted_text(buffer.subrange(0, n as int))->Err_0),
{
}

} // verus!
