use std::sync::mpsc::channel;

use nostr::JsonUtil;
use simple_nostr_client::codec::{iv_is_sized, DecodeFailure, Inbound};
use simple_nostr_client::event::ENCRYPTED_DIRECT_MESSAGE;
use simple_nostr_client::router::{decrypt, decrypt_dm, route};
use simple_nostr_client::{Error, Event, Keys, PublicKey};

fn keys_of(seed: u8) -> Keys {
    Keys::from_secret_bytes([seed; 32]).expect("a secret key")
}

fn nostr_keys_of(seed: u8) -> nostr::Keys {
    nostr::Keys::new(nostr::SecretKey::from_slice(&[seed; 32]).unwrap())
}

fn event_of(kind: u16, author: &Keys, content: &str) -> Event {
    Event {
        id: [9; 32],
        pubkey: author.public_key(),
        created_at: 1_700_000_000,
        kind,
        tags: vec![vec![String::from("p"), String::from("someone")]],
        content: String::from(content),
        sig: [7; 64],
    }
}

fn encrypted(from: u8, to: u8, content: &str) -> String {
    nostr::nips::nip04::encrypt(
        nostr_keys_of(from).secret_key(),
        &nostr_keys_of(to).public_key(),
        content,
    )
    .unwrap()
}

#[test]
fn keys_hold_the_public_key_of_the_secret() {
    let keys = keys_of(1);
    assert_eq!(keys.secret_bytes(), &[1u8; 32]);
    assert_eq!(keys.public_key().bytes, nostr_keys_of(1).public_key().to_bytes());
    assert_ne!(keys.public_key().bytes, [1u8; 32]);
    assert_ne!(keys.public_key(), keys_of(2).public_key());
}

#[test]
fn bytes_that_are_no_secret_key_give_no_keys() {
    assert_eq!(Keys::from_secret_bytes([0; 32]), None);
    assert_eq!(Keys::from_secret_bytes([0xff; 32]), None);
}

#[test]
fn decrypting_a_text_note_is_not_applicable() {
    let note = event_of(1, &keys_of(2), "plain words");
    assert_eq!(decrypt_dm(&keys_of(1), note), Err(Error::NotNip04));
}

#[test]
fn text_note_passes_the_router_untouched() {
    let note = event_of(1, &keys_of(2), "plain words?iv=AAAAAAAAAAAAAAAAAAAAAA==");
    let routed = route(&keys_of(1), Ok(Inbound::Event(note.clone())));
    assert_eq!(routed, Ok(Some(note)));
}

#[test]
fn direct_message_is_decrypted_once() {
    let cipher = encrypted(2, 1, "for your eyes");
    let message = event_of(ENCRYPTED_DIRECT_MESSAGE, &keys_of(2), &cipher);
    let plain = route(&keys_of(1), Ok(Inbound::Event(message.clone()))).unwrap().unwrap();
    assert_eq!(plain.content, "for your eyes");
    assert_eq!(plain, Event { content: String::from("for your eyes"), ..message.clone() });
    // The same through the explicit call.
    assert_eq!(decrypt_dm(&keys_of(1), message), Ok(plain.clone()));
    // What was delivered is plain text: decrypting it again is an error,
    // not a second layer.
    assert_eq!(decrypt_dm(&keys_of(1), plain), Err(Error::Nip04Decrypt));
}

#[test]
fn sender_can_read_its_own_direct_message() {
    let cipher = encrypted(2, 1, "note to self");
    let receiver = keys_of(1).public_key();
    assert_eq!(decrypt(&keys_of(2), &receiver, &cipher), Ok(String::from("note to self")));
}

#[test]
fn known_cipher_text_is_decrypted() {
    let sender = "6b911fd37cdf5c81d4c0adb1ab7fa822ed253ab0ad9aa18d77257c88b29b718e";
    let receiver = "7b911fd37cdf5c81d4c0adb1ab7fa822ed253ab0ad9aa18d77257c88b29b718e";
    let sender = nostr::Keys::new(nostr::SecretKey::from_hex(sender).unwrap());
    let receiver = nostr::SecretKey::from_hex(receiver).unwrap().to_secret_bytes();
    let keys = Keys::from_secret_bytes(receiver).unwrap();
    let author = PublicKey { bytes: sender.public_key().to_bytes() };
    let cipher = "dJc+WbBgaFCD2/kfg1XCWJParplBDxnZIdJGZ6FCTOg=?iv=M6VxRPkMZu7aIdD+10xPuw==";
    assert_eq!(decrypt(&keys, &author, cipher), Ok(String::from("Saturn, bringer of old age")));
}

#[test]
fn content_that_is_no_cipher_text_fails_to_decrypt() {
    let keys = keys_of(1);
    let author = keys_of(2).public_key();
    let good = encrypted(2, 1, "hello");
    let (body, _) = good.split_once("?iv=").unwrap();
    let cases = vec![
        String::new(),
        String::from("hello"),
        String::from("invalidcontentformat"),
        String::from("badbase64?iv=encode"),
        // A vector of 8 bytes and one of 24.
        format!("{}?iv=AAAAAAAAAAA=", body),
        format!("{}?iv=AAAAAAAAAAAAAAAAAAAAAAAAAAAAAAAA", body),
        // The marker twice.
        format!("{}?iv=AAAA?iv=AAAAAAAAAAAAAAAAAAAAAA==", body),
        // The right shape, but no base64 before or after the marker.
        String::from("####?iv=AAAAAAAAAAAAAAAAAAAAAA=="),
        format!("{}?iv=\u{e9}AAAAAAAAAAAAAAAAAAAAA==", body),
        // A cipher text that is no whole number of blocks.
        String::from("AAAA?iv=AAAAAAAAAAAAAAAAAAAAAA=="),
        // Encrypted in another block mode.
        String::from("nseh0cQPEFID5C0CxYdcPwp091NhRQ==?iv=AAECAwQFBgcICQoLDA0ODw=="),
    ];
    for content in cases {
        assert_eq!(decrypt(&keys, &author, &content), Err(Error::Nip04Decrypt), "{:?}", content);
        let message = event_of(ENCRYPTED_DIRECT_MESSAGE, &keys_of(2), &content);
        assert_eq!(route(&keys, Ok(Inbound::Event(message))), Err(Error::Nip04Decrypt));
    }
    assert_eq!(decrypt(&keys, &author, &good), Ok(String::from("hello")));
}

#[test]
fn message_from_an_author_whose_key_is_no_key_fails_to_decrypt() {
    let cipher = encrypted(2, 1, "hello");
    let nobody = PublicKey { bytes: [0xff; 32] };
    assert_eq!(decrypt(&keys_of(1), &nobody, &cipher), Err(Error::Nip04Decrypt));
}

#[test]
fn wrong_reader_does_not_get_the_plain_text() {
    let cipher = encrypted(2, 1, "hello");
    let author = keys_of(2).public_key();
    assert_ne!(decrypt(&keys_of(3), &author, &cipher), Ok(String::from("hello")));
}

#[test]
fn vector_shape_is_recognised() {
    assert!(iv_is_sized("?iv=AAAAAAAAAAAAAAAAAAAAAA=="));
    assert!(iv_is_sized("abc?iv=M6VxRPkMZu7aIdD+10xPuw=="));
    assert!(iv_is_sized("\u{e9}?iv=\u{e9}6VxRPkMZu7aIdD+10xPuw=="));
    assert!(!iv_is_sized(""));
    assert!(!iv_is_sized("iv=AAAAAAAAAAAAAAAAAAAAAA=="));
    assert!(!iv_is_sized("abc?iv=AAAAAAAAAAAAAAAAAAAAAAA="));
    assert!(!iv_is_sized("abc?iv=AAAAAAAAAAAAAAAAAAAAA=="));
    assert!(!iv_is_sized("abc?iv=AAAAAAAAAAAAAAAAAAAAAAA=="));
    assert!(!iv_is_sized("abc?IV=AAAAAAAAAAAAAAAAAAAAAA=="));
    assert!(iv_is_sized(&encrypted(1, 2, "")));
    assert!(iv_is_sized(&encrypted(1, 2, "a longer message than one block of the cipher holds")));
}

#[test]
fn router_drops_what_is_no_event_and_reports_what_is_no_message() {
    let keys = keys_of(1);
    assert_eq!(route(&keys, Ok(Inbound::Auth)), Ok(None));
    assert_eq!(route(&keys, Ok(Inbound::Other)), Ok(None));
    assert_eq!(route(&keys, Err(DecodeFailure::Json)), Err(Error::RawRelayMessage));
    assert_eq!(route(&keys, Err(DecodeFailure::Shape)), Err(Error::RelayMessage));
}

#[test]
fn received_event_keeps_every_field() {
    let signer = nostr_keys_of(5);
    let tags = vec![
        nostr::Tag::parse(["t", "verus"]).unwrap(),
        nostr::Tag::public_key(nostr_keys_of(6).public_key()),
    ];
    let event = nostr::EventBuilder::new(nostr::Kind::from_u16(30023), "an article")
        .tags(tags)
        .custom_created_at(nostr::Timestamp::from_secs(1_612_809_991))
        .sign_with_keys(&signer)
        .unwrap();
    let payload =
        nostr::RelayMessage::event(nostr::SubscriptionId::new("s"), event.clone()).as_json();
    let (sender, _outbound) = channel();
    let (inbound, receiver) = channel();
    let mut client = simple_nostr_client::WsClient::attach(
        String::from("ws://relay"),
        keys_of(1),
        sender,
        receiver,
    );
    inbound.send(simple_nostr_client::RecvMsg::Msg(payload)).unwrap();
    let got = client.try_receive().unwrap().unwrap();
    assert_eq!(got.id, event.id.to_bytes());
    assert_eq!(got.pubkey.bytes, signer.public_key().to_bytes());
    assert_eq!(got.created_at, 1_612_809_991);
    assert_eq!(got.kind, 30023);
    assert_eq!(got.content, "an article");
    assert_eq!(got.sig, event.sig.serialize());
    assert_eq!(
        got.tags,
        vec![
            vec![String::from("t"), String::from("verus")],
            vec![String::from("p"), nostr_keys_of(6).public_key().to_hex()],
        ]
    );
}
