//! What the chat server decides for one connected client: it asks for a
//! pseudonym, takes the first message as that pseudonym, relays every later
//! message to the other clients, and ends the session on `:quit` or when the
//! connection closes.
use vstd::prelude::*;
use crate::crypto::{chiffrer, try_dechiffrer, decrypted_text, encrypted_text, DecryptError};
use crate::text::{is_line_of, join3, join4, join5, lemma_strip_is_the_line, strip_line_ending, without_line_ending};

verus! {

/// The session of one client, as plain values.
pub struct SessionView {
    pub pseudo_set: bool,
    pub pseudo: Seq<char>,
}

/// The session of one client: whether it has chosen its pseudonym yet, and
/// which.
pub struct Session {
    pseudo_set: bool,
    pseudo: String,
}

impl View for Session {
    type V = SessionView;

    closed spec fn view(&self) -> SessionView {
        SessionView { pseudo_set: self.pseudo_set, pseudo: self.pseudo@ }
    }
}

/// A message on its way to the other clients: the text, the address of the
/// client that wrote it, and that client's pseudonym.
pub struct ChatMessage {
    pub text: String,
    pub sender: String,
    pub pseudo: String,
}

/// A relayed message as plain values.
pub struct ChatMessageView {
    pub text: Seq<char>,
    pub sender: Seq<char>,
    pub pseudo: Seq<char>,
}

impl View for ChatMessage {
    type V = ChatMessageView;

    open spec fn view(&self) -> ChatMessageView {
        ChatMessageView { text: self.text@, sender: self.sender@, pseudo: self.pseudo@ }
    }
}

/// What the server does after reading from a client. Each step carries the
/// line that the server logs.
pub enum ReadStep {
    /// The client closed the connection: the session ends.
    Closed { log: String },
    /// The client chose its pseudonym.
    PseudoChosen { log: String },
    /// The client asked to leave: the session ends.
    Quit { log: String },
    /// The client wrote a message, to be sent to the other clients.
    Relay { log: String, message: ChatMessage },
}

/// A step as plain values.
pub enum ReadStepView {
    Closed(Seq<char>),
    PseudoChosen(Seq<char>),
    Quit(Seq<char>),
    Relay(Seq<char>, ChatMessageView),
}

impl View for ReadStep {
    type V = ReadStepView;

    open spec fn view(&self) -> ReadStepView {
        match self {
            ReadStep::Closed { log } => ReadStepView::Closed(log@),
            ReadStep::PseudoChosen { log } => ReadStepView::PseudoChosen(log@),
            ReadStep::Quit { log } => ReadStepView::Quit(log@),
            ReadStep::Relay { log, message } => ReadStepView::Relay(log@, message@),
        }
    }
}

/// A step, or the reason the bytes read could not be read as a message.
pub open spec fn step_view(r: Result<ReadStep, DecryptError>) -> Result<ReadStepView, DecryptError> {
    match r {
        Ok(step) => Ok(step@),
        Err(e) => Err(e),
    }
}

/// The line logged when the client at `addr` closes its connection. Once a
/// pseudonym is set the line names the address where the pseudonym is
/// expected, and the pseudonym where the address is.
pub open spec fn closed_log(s: SessionView, addr: Seq<char>) -> Seq<char> {
    if s.pseudo_set {
        "Utilisateur '"@ + addr + "' avec l'IP "@ + s.pseudo + " s'est déconnecté"@
    } else {
        "Utilisateur "@ + addr + " s'est déconnecté"@
    }
}

/// The line logged when the client at `addr` chooses `pseudo`.
pub open spec fn chosen_log(addr: Seq<char>, pseudo: Seq<char>) -> Seq<char> {
    "L'utilisateur avec l'IP '"@ + addr + "' à choisi le pseudo : "@ + pseudo
}

/// The line logged when the client at `addr`, called `pseudo`, leaves.
pub open spec fn quit_log(pseudo: Seq<char>, addr: Seq<char>) -> Seq<char> {
    "Utilisateur '"@ + pseudo + "' avec l'IP "@ + addr + " s'est déconnecté"@
}

/// The line logged when the client at `addr`, called `pseudo`, writes `text`.
pub open spec fn said_log(addr: Seq<char>, pseudo: Seq<char>, text: Seq<char>) -> Seq<char> {
    addr + " avec le pseudo '"@ + pseudo + "' à écrit : "@ + text
}

/// The text that asks a newly connected client for its pseudonym.
pub open spec fn prompt_text() -> Seq<char> {
    "Entrez votre pseudo :"@
}

/// The command with which a client leaves.
pub open spec fn quit_command() -> Seq<char> {
    ":quit"@
}

/// What the server does on reading the bytes `data` from the client at `addr`
/// in session `s`: the next session and the step. No bytes means that the
/// connection closed. Otherwise the bytes are decrypted and the line ending
/// removed; the first such text is the pseudonym, `:quit` ends the session,
/// and any other text is relayed. Bytes that do not decrypt to text leave the
/// session as it was.
pub open spec fn session_step(s: SessionView, addr: Seq<char>, data: Seq<u8>) -> (SessionView, Result<ReadStepView, DecryptError>) {
    if data.len() == 0 {
        (s, Ok(ReadStepView::Closed(closed_log(s, addr))))
    } else {
        match decrypted_text(data) {
            Err(e) => (s, Err(e)),
            Ok(raw) => {
                let t = without_line_ending(raw);
                if !s.pseudo_set {
                    (SessionView { pseudo_set: true, pseudo: t }, Ok(ReadStepView::PseudoChosen(chosen_log(addr, t))))
                } else if t == quit_command() {
                    (s, Ok(ReadStepView::Quit(quit_log(s.pseudo, addr))))
                } else {
                    (s, Ok(ReadStepView::Relay(
                        said_log(addr, s.pseudo, t),
                        ChatMessageView { text: t, sender: addr, pseudo: s.pseudo },
                    )))
                }
            },
        }
    }
}

/// The text that other clients receive for a relayed message.
pub open spec fn relay_text(m: ChatMessageView) -> Seq<char> {
    m.pseudo + " a envoyé : "@ + m.text
}

impl Session {
    /// A session whose client has not chosen a pseudonym yet.
    pub fn new() -> (s: Session)
        ensures
            s@ == (SessionView { pseudo_set: false, pseudo: Seq::empty() }),
    {
        Session { pseudo_set: false, pseudo: String::new() }
    }

    /// Whether the client has chosen its pseudonym.
    pub fn pseudo_set(&self) -> (b: bool)
        ensures
            b == self@.pseudo_set,
    {
        self.pseudo_set
    }

    /// The client's pseudonym; empty before it is chosen.
    pub fn pseudo(&self) -> (p: &str)
        ensures
            p@ == self@.pseudo,
    {
        self.pseudo.as_str()
    }

    /// Decides what to do with the bytes `data` just read from the client at
    /// `addr`, and moves the session on: see `session_step`.
    pub fn on_read(&mut self, addr: &str, data: &[u8]) -> (res: Result<ReadStep, DecryptError>)
        ensures
            (final(self)@, step_view(res)) == session_step(old(self)@, addr@, data@),
    {
        if data.len() < 1 {
            let log = if self.pseudo_set {
                join5("Utilisateur '", addr, "' avec l'IP ", self.pseudo.as_str(), " s'est déconnecté")
            } else {
                join3("Utilisateur ", addr, " s'est déconnecté")
            };
            return Ok(ReadStep::Closed { log });
        }
        let raw = match try_dechiffrer(data) {
            Ok(raw) => raw,
            Err(e) => return Err(e),
        };
        let text = strip_line_ending(raw.as_str());
        if !self.pseudo_set {
            let log = join4("L'utilisateur avec l'IP '", addr, "' à choisi le pseudo : ", text.as_str());
            self.pseudo = text;
            self.pseudo_set = true;
            Ok(ReadStep::PseudoChosen { log })
        } else if text == String::from_str(":quit") {
            let log = join5("Utilisateur '", self.pseudo.as_str(), "' avec l'IP ", addr, " s'est déconnecté");
            Ok(ReadStep::Quit { log })
        } else {
            let log = join5(addr, " avec le pseudo '", self.pseudo.as_str(), "' à écrit : ", text.as_str());
            let message = ChatMessage {
                text,
                sender: String::from_str(addr),
                pseudo: self.pseudo.clone(),
            };
            Ok(ReadStep::Relay { log, message })
        }
    }
}

/// The encrypted prompt that the server sends to a client as soon as it
/// connects.
pub fn pseudo_prompt() -> (ct: Vec<u8>)
    ensures
        ct@ == encrypted_text(prompt_text()),
{
    chiffrer(String::from_str("Entrez votre pseudo :"))
}

/// What the session of the client at `addr` sends it for a message relayed
/// by any session: nothing for its own messages, otherwise the encrypted
/// `"<pseudo> a envoyé : <text>"`.
pub fn relay(addr: &str, message: &ChatMessage) -> (res: Option<Vec<u8>>)
    ensures
        res is None <==> message.sender@ == addr@,
        res matches Some(ct) ==> ct@ == encrypted_text(relay_text(message@)),
{
    if String::from_str(addr) == message.sender {
        None
    } else {
        let shown = join3(message.pseudo.as_str(), " a envoyé : ", message.text.as_str());
        Some(chiffrer(shown))
    }
}

/// Once the pseudonym is chosen, no read changes the session.
pub proof fn lemma_pseudo_fixed(s: SessionView, addr: Seq<char>, data: Seq<u8>)
    requires
        s.pseudo_set,
    ensures
        session_step(s, addr, data).0 == s,
{
}

/// The session changes only when a client without a pseudonym sends its first
/// readable message, and it then holds that message, without its line ending,
/// as the pseudonym.
pub proof fn lemma_only_first_message_names(s: SessionView, addr: Seq<char>, data: Seq<u8>)
    ensures
        session_step(s, addr, data).0 != s ==> {
            &&& !s.pseudo_set
            &&& data.len() > 0
            &&& decrypted_text(data) is Ok
            &&& session_step(s, addr, data).0 == (SessionView {
                pseudo_set: true,
                pseudo: without_line_ending(decrypted_text(data)->Ok_0),
            })
            &&& session_step(s, addr, data).1 is Ok
            &&& session_step(s, addr, data).1->Ok_0 is PseudoChosen
        },
{
}

/// A session ends (closed or quit) exactly when the connection closes, or when
/// a client that has a pseudonym sends `:quit`; a client without one cannot
/// quit, since its first message is taken as its pseudonym.
pub proof fn lemma_session_ends(s: SessionView, addr: Seq<char>, data: Seq<u8>)
    ensures
        (session_step(s, addr, data).1 matches Ok(ReadStepView::Closed(_))) <==> data.len() == 0,
        (session_step(s, addr, data).1 matches Ok(ReadStepView::Quit(_))) <==> {
            &&& s.pseudo_set
            &&& data.len() > 0
            &&& decrypted_text(data) is Ok
            &&& without_line_ending(decrypted_text(data)->Ok_0) == quit_command()
        },
{
}

/// A relayed message carries the sender's address and its pseudonym, and is
/// never the quit command.
pub proof fn lemma_relay_carries_sender(s: SessionView, addr: Seq<char>, data: Seq<u8>)
    ensures
        session_step(s, addr, data).1 matches Ok(ReadStepView::Relay(_, m)) ==> {
            &&& s.pseudo_set
            &&& m.sender == addr
            &&& m.pseudo == s.pseudo
            &&& m.text != quit_command()
        },
{
}

/// Stripping the line ending gives `:quit` exactly for the lines `:quit`,
/// `:quit` + `"\n"` and `:quit` + `"\r\n"`.
proof fn lemma_quit_lines(raw: Seq<char>)
    ensures
        (without_line_ending(raw) == ":quit"@) <==> (raw == ":quit"@ || raw == ":quit\n"@ || raw == ":quit\r\n"@),
{
    reveal_strlit(":quit");
    reveal_strlit(":quit\n");
    reveal_strlit(":quit\r\n");
    lemma_strip_is_the_line(raw, ":quit"@);
    let w = without_line_ending(raw);
    if w == ":quit"@ {
        assert(":quit"@ + seq!['\n'] =~= ":quit\n"@);
        assert(":quit"@ + seq!['\r', '\n'] =~= ":quit\r\n"@);
    }
    if raw == ":quit\n"@ {
        assert(":quit"@ + seq!['\n'] =~= raw);
        assert(is_line_of(raw, ":quit"@));
    }
    if raw == ":quit\r\n"@ {
        assert(":quit"@ + seq!['\r', '\n'] =~= raw);
        assert(is_line_of(raw, ":quit"@));
    }
    if raw == ":quit"@ {
        assert(is_line_of(raw, ":quit"@));
    }
}

/// A client that has its pseudonym keeps it whatever it sends. A readable
/// line `:quit` (with or without its line ending) ends the session; any
/// other readable line is relayed whole: its text is the line without its
/// line ending, under the sender's address and pseudonym, and the log line
/// shows exactly that text.
pub proof fn lemma_chat_line_relayed_whole(s: SessionView, addr: Seq<char>, data: Seq<u8>)
    requires
        s.pseudo_set,
        data.len() > 0,
        decrypted_text(data) is Ok,
    ensures
        ({
            let raw = decrypted_text(data)->Ok_0;
            let st = session_step(s, addr, data);
            &&& st.0 == s
            &&& (raw == ":quit"@ || raw == ":quit\n"@ || raw == ":quit\r\n"@) ==> st.1 == Ok::<ReadStepView, DecryptError>(
                ReadStepView::Quit("Utilisateur '"@ + s.pseudo + "' avec l'IP "@ + addr + " s'est déconnecté"@))
            &&& !(raw == ":quit"@ || raw == ":quit\n"@ || raw == ":quit\r\n"@) ==> (st.1 matches Ok(ReadStepView::Relay(log, m)) && {
                &&& is_line_of(raw, m.text)
                &&& m.sender == addr
                &&& m.pseudo == s.pseudo
                &&& log == addr + " avec le pseudo '"@ + s.pseudo + "' à écrit : "@ + m.text
            })
        }),
{
    let raw = decrypted_text(data)->Ok_0;
    lemma_quit_lines(raw);
    lemma_strip_is_the_line(raw, raw);
}

/// The first readable line of a client without a pseudonym becomes its
/// pseudonym, without the line ending, whatever the line says (`:quit` too).
pub proof fn lemma_chat_first_line_is_pseudo(s: SessionView, addr: Seq<char>, data: Seq<u8>)
    requires
        !s.pseudo_set,
        data.len() > 0,
        decrypted_text(data) is Ok,
    ensures
        ({
            let raw = decrypted_text(data)->Ok_0;
            let st = session_step(s, addr, data);
            &&& st.0.pseudo_set
            &&& is_line_of(raw, st.0.pseudo)
            &&& st.1 == Ok::<ReadStepView, DecryptError>(ReadStepView::PseudoChosen(
                "L'utilisateur avec l'IP '"@ + addr + "' à choisi le pseudo : "@ + st.0.pseudo))
        }),
{
    lemma_strip_is_the_line(decrypted_text(data)->Ok_0, decrypted_text(data)->Ok_0);
}

/// No bytes read means the connection closed: the session is unchanged and
/// ends; bytes that do not decrypt to text leave the session unchanged and
/// report why.
pub proof fn lemma_chat_closed_or_unreadable(s: SessionView, addr: Seq<char>, data: Seq<u8>)
    ensures
        data.len() == 0 ==> session_step(s, addr, data) == (s, Ok::<ReadStepView, DecryptError>(ReadStepView::Closed(
            if s.pseudo_set {
                "Utilisateur '"@ + addr + "' avec l'IP "@ + s.pseudo + " s'est déconnecté"@
            } else {
                "Utilisateur "@ + addr + " s'est déconnecté"@
            }))),
        data.len() > 0 && decrypted_text(data) is Err ==> session_step(s, addr, data) == (s, Err::<ReadStepView, DecryptError>(decrypted_text(data)->Err_0)),
{
}

/// Other clients read the whole message: the pseudonym, `" a envoyé : "`, then
/// the whole text; so two messages under one pseudonym read the same only if
/// their texts are the same.
pub proof fn lemma_relay_text_whole(m1: ChatMessageView, m2: ChatMessageView)
    ensures
        relay_text(m1) == m1.pseudo + " a envoyé : "@ + m1.text,
        relay_text(m1).len() == m1.pseudo.len() + " a envoyé : "@.len() + m1.text.len(),
        relay_text(m1).subrange(relay_text(m1).len() - m1.text.len(), relay_text(m1).len() as int) == m1.text,
        m1.pseudo == m2.pseudo && relay_text(m1) == relay_text(m2) ==> m1.text == m2.text,
{
    let r1 = relay_text(m1);
    assert(r1.subrange(r1.len() - m1.text.len(), r1.len() as int) =~= m1.text);
    if m1.pseudo == m2.pseudo && relay_text(m1) == relay_text(m2) {
        let r2 = relay_text(m2);
        assert(r2.subrange(r2.len() - m2.text.len(), r2.len() as int) =~= m2.text);
        assert(m1.text =~= m2.text);
    }
}

/// The prompt asks for the pseudonym, and the quit command is `:quit`.
pub proof fn lemma_prompt_and_quit_words()
    ensures
        prompt_text() == "Entrez votre pseudo :"@,
        quit_command() == ":quit"@,
{
}

} // verus!
