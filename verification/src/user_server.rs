//! The broadcasting server that keeps each client's messages as typed: the
//! first message names the client, every message (the first one too) goes to
//! the other clients with its line ending, and `:quit` followed by a line
//! ending leaves.
use vstd::prelude::*;
use crate::chat_server::{ChatMessage, ChatMessageView};
use crate::crypto::{try_dechiffrer, decrypted_text, encrypted_text, DecryptError};
use crate::text::{is_line_of, join3, lemma_strip_is_the_line, strip_line_ending, without_line_ending};

verus! {

/// A user of the chat: the pseudonym and the address it connects from.
pub struct User {
    pub username: String,
    pub ip: String,
}

/// Builds a user from its pseudonym and address.
pub fn build_user(username: String, ip: String) -> (u: User)
    ensures
        u.username@ == username@,
        u.ip@ == ip@,
{
    User { username, ip }
}

/// The session of one client, as plain values.
pub struct UserSessionView {
    pub pseudo_set: bool,
    pub pseudo: Seq<char>,
}

/// The session of one client: whether its pseudonym is set, and which.
pub struct UserSession {
    pseudo_set: bool,
    pseudo: String,
}

impl View for UserSession {
    type V = UserSessionView;

    closed spec fn view(&self) -> UserSessionView {
        UserSessionView { pseudo_set: self.pseudo_set, pseudo: self.pseudo@ }
    }
}

/// What this server does after reading from a client; each step carries the
/// line that it logs.
pub enum UserStep {
    /// The client closed the connection: the session ends.
    Closed { log: String },
    /// The client sent the quit command: the session ends.
    Quit { log: String },
    /// The client wrote a message, to be sent to the other clients.
    Relay { log: String, message: ChatMessage },
}

/// A step as plain values.
pub enum UserStepView {
    Closed(Seq<char>),
    Quit(Seq<char>),
    Relay(Seq<char>, ChatMessageView),
}

impl View for UserStep {
    type V = UserStepView;

    open spec fn view(&self) -> UserStepView {
        match self {
            UserStep::Closed { log } => UserStepView::Closed(log@),
            UserStep::Quit { log } => UserStepView::Quit(log@),
            UserStep::Relay { log, message } => UserStepView::Relay(log@, message@),
        }
    }
}

/// A step, or the reason the bytes read could not be read as a message.
pub open spec fn user_step_view(r: Result<UserStep, DecryptError>) -> Result<UserStepView, DecryptError> {
    match r {
        Ok(step) => Ok(step@),
        Err(e) => Err(e),
    }
}

/// The quit command, with the line ending that a terminal leaves.
pub open spec fn quit_line() -> Seq<char> {
    ":quit\n"@
}

/// What this server does on reading `data` from the client at `addr` in
/// session `s`. No bytes means the connection closed. The decrypted text
/// `":quit\n"` ends the session. Otherwise the first text becomes the
/// pseudonym, the pseudonym loses its line ending (again on every message),
/// and the text is relayed as it came, line ending included.
pub open spec fn user_step(s: UserSessionView, addr: Seq<char>, data: Seq<u8>) -> (UserSessionView, Result<UserStepView, DecryptError>) {
    if data.len() == 0 {
        (s, Ok(UserStepView::Closed("Utilisateur "@ + addr + " s'est déconnecté"@)))
    } else {
        match decrypted_text(data) {
            Err(e) => (s, Err(e)),
            Ok(t) => {
                if t == quit_line() {
                    (s, Ok(UserStepView::Quit("Utilisateur "@ + addr + ", s'est déconnecté"@)))
                } else {
                    let p = without_line_ending(if s.pseudo_set { s.pseudo } else { t });
                    (
                        UserSessionView { pseudo_set: true, pseudo: p },
                        Ok(UserStepView::Relay(
                            p + " à écrit : "@ + t,
                            ChatMessageView { text: t, sender: addr, pseudo: p },
                        )),
                    )
                }
            },
        }
    }
}

impl UserSession {
    /// A session whose client has not sent anything yet.
    pub fn new() -> (s: UserSession)
        ensures
            s@ == (UserSessionView { pseudo_set: false, pseudo: Seq::empty() }),
    {
        UserSession { pseudo_set: false, pseudo: String::new() }
    }

    /// The client's pseudonym; empty before its first message.
    pub fn pseudo(&self) -> (p: &str)
        ensures
            p@ == self@.pseudo,
    {
        self.pseudo.as_str()
    }

    /// Decides what to do with the bytes `data` just read from the client at
    /// `addr`, and moves the session on: see `user_step`.
    pub fn on_read(&mut self, addr: &str, data: &[u8]) -> (res: Result<UserStep, DecryptError>)
        ensures
            (final(self)@, user_step_view(res)) == user_step(old(self)@, addr@, data@),
    {
        if data.len() < 1 {
            return Ok(UserStep::Closed { log: join3("Utilisateur ", addr, " s'est déconnecté") });
        }
        let text = match try_dechiffrer(data) {
            Ok(text) => text,
            Err(e) => return Err(e),
        };
        if text == String::from_str(":quit\n") {
            return Ok(UserStep::Quit { log: join3("Utilisateur ", addr, ", s'est déconnecté") });
        }
        if !self.pseudo_set {
            self.pseudo = text.clone();
            self.pseudo_set = true;
        }
        self.pseudo = strip_line_ending(self.pseudo.as_str());
        let log = join3(self.pseudo.as_str(), " à écrit : ", text.as_str());
        let message = ChatMessage {
            text,
            sender: String::from_str(addr),
            pseudo: self.pseudo.clone(),
        };
        Ok(UserStep::Relay { log, message })
    }
}

/// Every readable message other than the quit command is relayed, the first
/// one too, and unchanged: the relayed text is the decrypted text, line ending
/// included, and the pseudonym is set from then on.
pub proof fn lemma_every_message_relayed(s: UserSessionView, addr: Seq<char>, data: Seq<u8>)
    requires
        data.len() > 0,
        decrypted_text(data) is Ok,
        decrypted_text(data)->Ok_0 != quit_line(),
    ensures
        user_step(s, addr, data).0.pseudo_set,
        user_step(s, addr, data).1 matches Ok(UserStepView::Relay(_, m))
            && m.text == decrypted_text(data)->Ok_0 && m.sender == addr,
{
}

/// Once set, the pseudonym only ever loses a line ending: the next pseudonym
/// is the current one without its line ending, whatever was read.
pub proof fn lemma_pseudo_only_trimmed(s: UserSessionView, addr: Seq<char>, data: Seq<u8>)
    requires
        s.pseudo_set,
    ensures
        user_step(s, addr, data).0 == s
            || user_step(s, addr, data).0 == (UserSessionView { pseudo_set: true, pseudo: without_line_ending(s.pseudo) }),
{
}

/// Reading `:quit` + `"\n"` ends the session in every state, pseudonym set or
/// not, and leaves the session as it was.
pub proof fn lemma_user_quit_always_ends(s: UserSessionView, addr: Seq<char>, data: Seq<u8>)
    requires
        data.len() > 0,
        decrypted_text(data) == Ok::<Seq<char>, DecryptError>(":quit\n"@),
    ensures
        user_step(s, addr, data) == (s, Ok::<UserStepView, DecryptError>(
            UserStepView::Quit("Utilisateur "@ + addr + ", s'est déconnecté"@))),
{
}

/// Any other readable message is relayed exactly as it came, under the
/// session's pseudonym, which is the previous pseudonym (or, the first time,
/// this message) without its line ending; the log line shows that pseudonym
/// and the message.
pub proof fn lemma_user_relay_under_session_pseudo(s: UserSessionView, addr: Seq<char>, data: Seq<u8>)
    requires
        data.len() > 0,
        decrypted_text(data) is Ok,
        decrypted_text(data)->Ok_0 != ":quit\n"@,
    ensures
        ({
            let raw = decrypted_text(data)->Ok_0;
            let st = user_step(s, addr, data);
            &&& st.0.pseudo_set
            &&& is_line_of(if s.pseudo_set { s.pseudo } else { raw }, st.0.pseudo)
            &&& st.1 matches Ok(UserStepView::Relay(log, m)) && {
                &&& m.text == raw
                &&& m.sender == addr
                &&& m.pseudo == st.0.pseudo
                &&& log == st.0.pseudo + " à écrit : "@ + raw
            }
        }),
{
    let raw = decrypted_text(data)->Ok_0;
    let base = if s.pseudo_set { s.pseudo } else { raw };
    lemma_strip_is_the_line(base, base);
}

/// No bytes read means the connection closed; bytes that do not decrypt to
/// text leave the session as it was and report why.
pub proof fn lemma_user_closed_or_unreadable(s: UserSessionView, addr: Seq<char>, data: Seq<u8>)
    ensures
        data.len() == 0 ==> user_step(s, addr, data) == (s, Ok::<UserStepView, DecryptError>(
            UserStepView::Closed("Utilisateur "@ + addr + " s'est déconnecté"@))),
        data.len() > 0 && decrypted_text(data) is Err ==> user_step(s, addr, data) == (s, Err::<UserStepView, DecryptError>(decrypted_text(data)->Err_0)),
{
}

} // verus!
