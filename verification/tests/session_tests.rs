use rkl_client::codec::decrypt_text;
use rkl_client::errors::ClientError;
use rkl_client::rpc::begin_read;
use rkl_client::session::{SessionKey, SessionState};
use rkl_client::ticket::next_ticket;

fn key_of(byte: u8) -> SessionKey {
    SessionKey::from_bytes(vec![byte; 32]).expect("32 bytes make a key")
}

#[test]
fn key_lifecycle() {
    let mut session = SessionState::new();
    assert!(!session.is_established());
    assert_eq!(
        session.current_key().err(),
        Some(ClientError::SessionNotEstablished)
    );

    session.establish(key_of(11), 5);
    assert!(session.is_established());
    let key = session.current_key().expect("established");
    assert_eq!(key.as_bytes(), &[11u8; 32][..]);
    assert_eq!(session.current_counter(), Ok(5));

    session.clear();
    assert!(!session.is_established());
    assert_eq!(
        session.current_key().err(),
        Some(ClientError::SessionNotEstablished)
    );
    session.clear();
    assert!(!session.is_established());
}

#[test]
fn establish_overwrites_prior_session() {
    let mut session = SessionState::new();
    session.establish(key_of(1), 100);
    session.establish(key_of(2), 7);
    let key = session.current_key().expect("established");
    assert_eq!(key.as_bytes(), &[2u8; 32][..]);
    assert_eq!(session.current_counter(), Ok(7));
}

#[test]
fn no_ticket_without_session() {
    let mut session = SessionState::new();
    assert_eq!(
        next_ticket(&mut session),
        Err(ClientError::SessionNotEstablished)
    );
    assert!(begin_read(&mut session).is_err());
}

#[test]
fn tickets_strictly_increase() {
    let mut session = SessionState::new();
    session.establish(key_of(12), 0);
    let key = key_of(12);
    let mut seen: Vec<u64> = Vec::new();
    for _ in 0..5 {
        let ticket = next_ticket(&mut session).expect("ticket issued");
        let plain = decrypt_text(&key, &ticket).expect("ticket decrypts under the session key");
        let digits = String::from_utf8(plain).expect("decimal text");
        seen.push(digits.parse::<u64>().expect("numeric ticket"));
    }
    assert_eq!(seen, vec![1, 2, 3, 4, 5]);
    for window in seen.windows(2) {
        assert!(window[0] < window[1]);
    }
}

#[test]
fn tickets_continue_from_bootstrap_counter() {
    let mut session = SessionState::new();
    session.establish(key_of(13), 42);
    let key = key_of(13);
    let ticket = next_ticket(&mut session).expect("ticket issued");
    let plain = decrypt_text(&key, &ticket).expect("ticket decrypts");
    assert_eq!(plain, b"43".to_vec());
    assert_eq!(session.current_counter(), Ok(43));
}

#[test]
fn begin_read_hands_out_matching_key_and_ticket() {
    let mut session = SessionState::new();
    session.establish(key_of(14), 0);
    let (key, ticket) = begin_read(&mut session).expect("session is established");
    assert_eq!(key.as_bytes(), &[14u8; 32][..]);
    let plain = decrypt_text(&key, &ticket).expect("ticket decrypts under the returned key");
    assert_eq!(plain, b"1".to_vec());
    assert_eq!(session.current_counter(), Ok(1));
}
