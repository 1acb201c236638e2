use messagerie::b64_client;
use messagerie::chat_client::{on_receive, Received};
use messagerie::crypto::{chiffrer, DecryptError};
use messagerie::echo_client::{check_echo, EchoCheck};
use messagerie::echo_server::{self, describe_peer, shown_message, EchoStep};
use messagerie::program::Program;
use messagerie::text::{bytes_equal, join3, strip_line_ending};

#[test]
fn program_reports_errors_under_its_name() {
    let p = Program::new("Programme Client".to_string());
    assert_eq!(p.print_error("boom".to_string()), "Programme Client: Erreur rencontré : boom");
    let (line, status) = p.print_fail("refused".to_string());
    assert_eq!(line, "Programme Client: Erreur rencontré : refused");
    assert_eq!(status, -1);
    assert_eq!(p.fail(), -1);
}

#[test]
fn b64_program_reports_errors_under_its_name() {
    let p = b64_client::Program::new("test".to_string());
    assert_eq!(p.print_error("x".to_string()), "test: error: x");
    assert_eq!(p.print_fail("y".to_string()), ("test: error: y".to_string(), -1));
    assert_eq!(p.fail(), -1);
}

#[test]
fn b64_encrypt_encodes_in_base64() {
    let mut s = "hello\n".to_string();
    assert_eq!(b64_client::encrypt(&mut s), "aGVsbG8K");
    assert_eq!(s, "hello\n");
    assert_eq!(b64_client::encrypt(&mut String::new()), "");
    assert_eq!(b64_client::encrypt(&mut "ab".to_string()), "YWI=");
    assert_eq!(b64_client::encrypt(&mut "é".to_string()), "w6k=");
    assert_eq!(b64_client::encrypt(&mut "hi\n".to_string()), "aGkK");
    assert_eq!(b64_client::encrypt(&mut "a".to_string()), "YQ==");
    assert_eq!(b64_client::encrypt(&mut "\u{ff}\u{ff}".to_string()), "w7/Dvw==");
}

#[test]
fn b64_client_receive() {
    match b64_client::on_receive(&[0u8], 0) {
        b64_client::Incoming::ServerClosed { notice, status } => {
            assert_eq!(notice, "Connexion avec le serveur interrompu !");
            assert_eq!(status, 0);
        }
        _ => panic!("expected closed"),
    }
    match b64_client::on_receive(&[b'z'], 1) {
        b64_client::Incoming::Output { bytes } => assert_eq!(bytes, vec![b'z']),
        _ => panic!("expected output"),
    }
}

#[test]
fn chat_client_receive() {
    match on_receive(&[0u8; 8], 0).unwrap() {
        Received::ServerClosed { notice, status } => {
            assert_eq!(notice, "Connexion avec le serveur interrompu !");
            assert_eq!(status, 1);
        }
        _ => panic!("expected closed"),
    }
    let ct = chiffrer("eve a envoyé : salut".to_string());
    let mut buffer = vec![0u8; 2048];
    buffer[..ct.len()].copy_from_slice(&ct);
    match on_receive(&buffer, ct.len()).unwrap() {
        Received::Message { text } => assert_eq!(text, "eve a envoyé : salut"),
        _ => panic!("expected a message"),
    }
    assert!(matches!(on_receive(&buffer, 3), Err(DecryptError::Cipher)));
}

#[test]
fn strip_line_ending_cases() {
    assert_eq!(strip_line_ending("abc\n"), "abc");
    assert_eq!(strip_line_ending("abc\r\n"), "abc");
    assert_eq!(strip_line_ending("abc\r"), "abc\r");
    assert_eq!(strip_line_ending("abc\n\n"), "abc\n");
    assert_eq!(strip_line_ending("abc"), "abc");
    assert_eq!(strip_line_ending("\n"), "");
    assert_eq!(strip_line_ending("\r\n"), "");
    assert_eq!(strip_line_ending(""), "");
    assert_eq!(strip_line_ending("é\n"), "é");
}

#[test]
fn typed_line_comes_back() {
    for s in ["", "abc", "héllo wörld"] {
        assert_eq!(strip_line_ending(&format!("{}\r\n", s)), s);
        assert_eq!(strip_line_ending(&format!("{}\n", s)), s);
    }
}

#[test]
fn join_and_compare() {
    assert_eq!(join3("a", "bc", "d"), "abcd");
    assert!(bytes_equal(b"abc", b"abc"));
    assert!(!bytes_equal(b"abc", b"abd"));
    assert!(!bytes_equal(b"abc", b"ab"));
}

#[test]
fn echo_server_describes_peers() {
    assert_eq!(describe_peer(Some("1.2.3.4:5".to_string())), "[adresse : 1.2.3.4:5]");
    assert_eq!(describe_peer(None), "inconnue");
    assert_eq!(echo_server::BUFFER_SIZE, 50);
}

#[test]
fn echo_server_echoes_the_bytes_read() {
    match echo_server::on_read("[adresse : x]", &[0u8; 50], 0) {
        EchoStep::Closed { log } => assert_eq!(log, "client déconnecté [adresse : x]"),
        _ => panic!("expected closed"),
    }
    let mut buffer = [0u8; 50];
    buffer[..5].copy_from_slice(b"hello");
    match echo_server::on_read("a", &buffer, 5) {
        EchoStep::Echo { reply } => assert_eq!(reply, b"hello".to_vec()),
        _ => panic!("expected echo"),
    }
    assert_eq!(shown_message(&buffer, 5), "hello");
    buffer[..2].copy_from_slice(b"hi");
    match echo_server::on_read("a", &buffer, 2) {
        EchoStep::Echo { reply } => assert_eq!(reply, b"hi".to_vec()),
        _ => panic!("expected echo"),
    }
    assert_eq!(shown_message(&buffer, 2), "hi");
    buffer[10] = 0xff;
    assert_eq!(shown_message(&buffer, 2), "hi");
    buffer[..2].copy_from_slice("é".as_bytes());
    assert_eq!(shown_message(&buffer, 2), "é");
}

#[test]
fn echo_client_checks_the_reply() {
    match check_echo(b"ping\n", b"ping\n") {
        EchoCheck::Received { text } => assert_eq!(text, "ping\n"),
        _ => panic!("expected received"),
    }
    match check_echo(b"ping\n", b"pong\n") {
        EchoCheck::Unexpected { text } => assert_eq!(text, "pong\n"),
        _ => panic!("expected unexpected"),
    }
}

#[test]
fn b64_output_has_the_base64_shape() {
    for s in ["", "a", "ab", "abc", "héllo wörld\n", &"z".repeat(100)] {
        let r = b64_client::encrypt(&mut s.to_string());
        assert_eq!(r.len(), 4 * ((s.len() + 2) / 3));
        assert!(r.chars().all(|c| c.is_ascii_alphanumeric() || c == '+' || c == '/' || c == '='));
        assert!(r.char_indices().all(|(i, c)| c != '=' || i + 2 >= r.len()));
        assert!(!r.contains('\n'));
    }
}
