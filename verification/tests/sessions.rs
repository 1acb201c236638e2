use messagerie::chat_server::{pseudo_prompt, relay, ChatMessage, ReadStep, Session};
use messagerie::crypto::{chiffrer, dechiffrer, DecryptError};
use messagerie::user_server::{build_user, UserSession, UserStep};

const ADDR: &str = "127.0.0.1:40000";

fn log_of(step: &ReadStep) -> String {
    match step {
        ReadStep::Closed { log } | ReadStep::PseudoChosen { log } | ReadStep::Quit { log } => log.clone(),
        ReadStep::Relay { log, .. } => log.clone(),
    }
}

#[test]
fn prompt_asks_for_a_pseudo() {
    assert_eq!(dechiffrer(&pseudo_prompt()), "Entrez votre pseudo :");
}

#[test]
fn first_message_is_the_pseudo() {
    let mut s = Session::new();
    assert!(!s.pseudo_set());
    let step = s.on_read(ADDR, &chiffrer("alice\r\n".to_string())).unwrap();
    assert!(matches!(step, ReadStep::PseudoChosen { .. }));
    assert_eq!(log_of(&step), "L'utilisateur avec l'IP '127.0.0.1:40000' à choisi le pseudo : alice");
    assert!(s.pseudo_set());
    assert_eq!(s.pseudo(), "alice");
}

#[test]
fn later_messages_are_relayed_and_pseudo_stays() {
    let mut s = Session::new();
    s.on_read(ADDR, &chiffrer("alice\n".to_string())).unwrap();
    let step = s.on_read(ADDR, &chiffrer("bonjour\n".to_string())).unwrap();
    assert_eq!(log_of(&step), "127.0.0.1:40000 avec le pseudo 'alice' à écrit : bonjour");
    match step {
        ReadStep::Relay { message, .. } => {
            assert_eq!(message.text, "bonjour");
            assert_eq!(message.sender, ADDR);
            assert_eq!(message.pseudo, "alice");
        }
        _ => panic!("expected a relay"),
    }
    assert_eq!(s.pseudo(), "alice");
}

#[test]
fn quit_ends_the_session() {
    let mut s = Session::new();
    s.on_read(ADDR, &chiffrer("bob\n".to_string())).unwrap();
    let step = s.on_read(ADDR, &chiffrer(":quit\n".to_string())).unwrap();
    assert!(matches!(step, ReadStep::Quit { .. }));
    assert_eq!(log_of(&step), "Utilisateur 'bob' avec l'IP 127.0.0.1:40000 s'est déconnecté");
}

#[test]
fn quit_as_first_message_is_a_pseudo() {
    let mut s = Session::new();
    let step = s.on_read(ADDR, &chiffrer(":quit\n".to_string())).unwrap();
    assert!(matches!(step, ReadStep::PseudoChosen { .. }));
    assert_eq!(s.pseudo(), ":quit");
}

#[test]
fn closing_logs_depend_on_the_pseudo() {
    let mut s = Session::new();
    let step = s.on_read(ADDR, &[]).unwrap();
    assert!(matches!(step, ReadStep::Closed { .. }));
    assert_eq!(log_of(&step), "Utilisateur 127.0.0.1:40000 s'est déconnecté");
    s.on_read(ADDR, &chiffrer("carol".to_string())).unwrap();
    let step = s.on_read(ADDR, &[]).unwrap();
    assert_eq!(log_of(&step), "Utilisateur '127.0.0.1:40000' avec l'IP carol s'est déconnecté");
}

#[test]
fn unreadable_bytes_leave_the_session_unchanged() {
    let mut s = Session::new();
    assert!(matches!(s.on_read(ADDR, &[1, 2, 3]), Err(DecryptError::Cipher)));
    assert!(!s.pseudo_set());
    s.on_read(ADDR, &chiffrer("dan".to_string())).unwrap();
    assert!(matches!(s.on_read(ADDR, &[9; 16]), Err(_)));
    assert_eq!(s.pseudo(), "dan");
}

#[test]
fn relay_skips_the_sender_and_formats_for_others() {
    let m = ChatMessage { text: "salut".to_string(), sender: ADDR.to_string(), pseudo: "eve".to_string() };
    assert!(relay(ADDR, &m).is_none());
    let ct = relay("127.0.0.1:40001", &m).unwrap();
    assert_eq!(dechiffrer(&ct), "eve a envoyé : salut");
}

#[test]
fn build_user_keeps_its_fields() {
    let u = build_user("zoe".to_string(), "10.0.0.1".to_string());
    assert_eq!(u.username, "zoe");
    assert_eq!(u.ip, "10.0.0.1");
}

#[test]
fn user_server_relays_every_message_as_typed() {
    let mut s = UserSession::new();
    match s.on_read(ADDR, &chiffrer("frank\n".to_string())).unwrap() {
        UserStep::Relay { log, message } => {
            assert_eq!(log, "frank à écrit : frank\n");
            assert_eq!(message.text, "frank\n");
            assert_eq!(message.pseudo, "frank");
            assert_eq!(message.sender, ADDR);
        }
        _ => panic!("expected a relay"),
    }
    match s.on_read(ADDR, &chiffrer("yo\r\n".to_string())).unwrap() {
        UserStep::Relay { log, message } => {
            assert_eq!(log, "frank à écrit : yo\r\n");
            assert_eq!(message.text, "yo\r\n");
        }
        _ => panic!("expected a relay"),
    }
}

#[test]
fn user_server_trims_the_pseudo_on_every_message() {
    let mut s = UserSession::new();
    s.on_read(ADDR, &chiffrer("gus\n\n".to_string())).unwrap();
    assert_eq!(s.pseudo(), "gus\n");
    s.on_read(ADDR, &chiffrer("hey".to_string())).unwrap();
    assert_eq!(s.pseudo(), "gus");
}

#[test]
fn user_server_quits_only_on_the_full_line() {
    let mut s = UserSession::new();
    match s.on_read(ADDR, &chiffrer(":quit\n".to_string())).unwrap() {
        UserStep::Quit { log } => assert_eq!(log, "Utilisateur 127.0.0.1:40000, s'est déconnecté"),
        _ => panic!("expected quit"),
    }
    assert!(matches!(s.on_read(ADDR, &chiffrer(":quit".to_string())).unwrap(), UserStep::Relay { .. }));
    match s.on_read(ADDR, &[]).unwrap() {
        UserStep::Closed { log } => assert_eq!(log, "Utilisateur 127.0.0.1:40000 s'est déconnecté"),
        _ => panic!("expected closed"),
    }
}
