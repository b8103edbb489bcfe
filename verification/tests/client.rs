use std::sync::mpsc::{channel, Receiver, Sender, TryRecvError};

use nostr::JsonUtil;
use simple_nostr_client::event::ENCRYPTED_DIRECT_MESSAGE;
use simple_nostr_client::client::direct_message;
use simple_nostr_client::{
    Error, Event, EventBuilder, Keys, PublicKey, RecvMsg, SendMsg, WsClient, WsClientBuilder,
};

/// A handle together with the far ends of its two queues, which a session
/// would hold.
struct Wired {
    client: WsClient,
    outbound: Receiver<SendMsg>,
    inbound: Sender<RecvMsg>,
}

fn keys_of(seed: u8) -> Keys {
    Keys::from_secret_bytes([seed; 32]).expect("a secret key")
}

fn wire(seed: u8) -> Wired {
    let (sender, outbound) = channel();
    let (inbound, receiver) = channel();
    let client = WsClient::new()
        .relay(String::from("ws://127.0.0.1:7777"))
        .keys(keys_of(seed))
        .attach(sender, receiver)
        .expect("relay and keys were given");
    Wired { client, outbound, inbound }
}

fn sent_text(wired: &Wired) -> String {
    match wired.outbound.try_recv() {
        Ok(SendMsg::Msg(text)) => text,
        other => panic!("expected a text on the outbound queue, got {:?}", other),
    }
}

/// What a relay sends to a subscriber for an event that a client published.
fn relayed(published: &str) -> String {
    match nostr::ClientMessage::from_json(published).expect("a client message") {
        nostr::ClientMessage::Event(event) => {
            nostr::RelayMessage::event(nostr::SubscriptionId::new("sub"), event.into_owned())
                .as_json()
        }
        other => panic!("expected an event message, got {:?}", other),
    }
}

fn text_note(keys_seed: u8, content: &str) -> String {
    let keys = nostr::Keys::new(nostr::SecretKey::from_slice(&[keys_seed; 32]).unwrap());
    let event = nostr::EventBuilder::text_note(content).sign_with_keys(&keys).unwrap();
    nostr::RelayMessage::event(nostr::SubscriptionId::new("sub"), event).as_json()
}

#[test]
fn test_dm() {
    let mut a = wire(1);
    let mut b = wire(2);
    a.client.subscribe_dm().unwrap();
    let request = sent_text(&a);
    match nostr::ClientMessage::from_json(&request).unwrap() {
        nostr::ClientMessage::Req { filter, .. } => {
            let expected = nostr::Filter::new()
                .kind(nostr::Kind::EncryptedDirectMessage)
                .pubkey(nostr::PublicKey::from_byte_array(a.client.pubkey().bytes));
            assert_eq!(filter.into_owned(), expected);
        }
        other => panic!("expected a request, got {:?}", other),
    }
    b.client.send_dm("test dm", &a.client.pubkey()).unwrap();
    let published = sent_text(&b);
    a.inbound.send(RecvMsg::Msg(relayed(&published))).unwrap();
    loop {
        match a.client.try_receive() {
            Ok(Some(event)) => {
                if event.content == "test dm" {
                    assert_eq!(event.kind, ENCRYPTED_DIRECT_MESSAGE);
                    assert_eq!(event.pubkey, b.client.pubkey());
                    return;
                }
            }
            Err(e) => panic!("{:?}", e),
            Ok(None) => panic!("the message was queued"),
        }
    }
}

#[test]
fn direct_message_round_trip_says_hello() {
    let mut a = wire(3);
    let mut b = wire(4);
    a.client.subscribe_dm().unwrap();
    b.client.send_dm("hello", &a.client.pubkey()).unwrap();
    let published = sent_text(&b);
    // What travels is signed by the sender, tagged with the receiver, and
    // not the plain text.
    match nostr::ClientMessage::from_json(&published).unwrap() {
        nostr::ClientMessage::Event(event) => {
            assert!(event.verify().is_ok());
            assert_eq!(event.kind, nostr::Kind::EncryptedDirectMessage);
            assert_eq!(event.pubkey.to_bytes(), b.client.pubkey().bytes);
            assert_ne!(event.content, "hello");
            assert!(event.content.contains("?iv="));
            let tags: Vec<Vec<String>> = event.tags.iter().cloned().map(|t| t.to_vec()).collect();
            let hex = nostr::PublicKey::from_byte_array(a.client.pubkey().bytes).to_hex();
            assert_eq!(tags, vec![vec![String::from("p"), hex]]);
        }
        other => panic!("expected an event message, got {:?}", other),
    }
    a.inbound.send(RecvMsg::Msg(relayed(&published))).unwrap();
    let event: Event = a.client.try_receive().unwrap().expect("an event");
    assert_eq!(event.kind, ENCRYPTED_DIRECT_MESSAGE);
    assert_eq!(event.content, "hello");
    assert!(a.client.is_connected().is_ok());
    assert!(matches!(a.client.try_receive(), Ok(None)));
}

#[test]
fn fresh_handle_is_connected() {
    let wired = wire(1);
    assert_eq!(wired.client.is_connected(), Ok(()));
    assert_eq!(wired.client.get_relays(), &vec![String::from("ws://127.0.0.1:7777")]);
    assert_eq!(wired.client.get_keys(), &keys_of(1));
    assert_eq!(wired.client.pubkey(), keys_of(1).public_key());
}

#[test]
fn builder_without_relay_or_keys_is_refused() {
    assert_eq!(WsClient::new().into_parts(), Err(Error::ArgMissing));
    assert_eq!(WsClient::new().keys(keys_of(1)).into_parts(), Err(Error::ArgMissing));
    assert_eq!(
        WsClient::new().relay(String::from("ws://relay")).into_parts(),
        Err(Error::ArgMissing)
    );
    let (sender, _outbound) = channel();
    let (_inbound, receiver) = channel();
    assert!(matches!(WsClient::new().attach(sender, receiver), Err(Error::ArgMissing)));
    assert_eq!(
        WsClient::new().relay(String::from("ws://relay")).keys(keys_of(1)).into_parts(),
        Ok((String::from("ws://relay"), keys_of(1)))
    );
}

#[test]
fn default_builder_has_nothing_chosen() {
    assert_eq!(WsClientBuilder::default().into_parts(), Err(Error::ArgMissing));
    let chosen = WsClientBuilder::default().keys(keys_of(3)).relay(String::from("ws://a"));
    assert_eq!(chosen.clone().into_parts(), Ok((String::from("ws://a"), keys_of(3))));
    // The later choice stands.
    let again = chosen.relay(String::from("ws://b")).keys(keys_of(4));
    assert_eq!(again.into_parts(), Ok((String::from("ws://b"), keys_of(4))));
}

#[test]
fn direct_message_event_names_its_receiver() {
    let receiver = PublicKey { bytes: [0xab; 32] };
    let event = direct_message(String::from("cipher"), &receiver);
    assert_eq!(event.kind, 4);
    assert_eq!(event.content, "cipher");
    assert_eq!(event.tags, vec![vec![String::from("p"), "ab".repeat(32)]]);
    let low = PublicKey { bytes: [0x0f; 32] };
    assert_eq!(direct_message(String::new(), &low).tags[0][1], "0f".repeat(32));
}

#[test]
fn operations_after_stop_are_refused() {
    let mut wired = wire(1);
    let receiver = keys_of(2).public_key();
    wired.client.stop();
    assert_eq!(wired.client.is_connected(), Err(Error::NotConnected));
    assert_eq!(wired.client.subscribe_dm(), Err(Error::NotConnected));
    assert_eq!(wired.client.subscribe_pool(60), Err(Error::NotConnected));
    assert_eq!(wired.client.subscribe_custom(1, 60), Err(Error::NotConnected));
    assert_eq!(wired.client.send_dm("hello", &receiver), Err(Error::NotConnected));
    let note = EventBuilder::new(1, String::from("note"), Vec::new());
    assert_eq!(wired.client.post_event(note), Err(Error::NotConnected));
    wired.inbound.send(RecvMsg::Msg(text_note(5, "late"))).unwrap();
    assert!(matches!(wired.client.try_receive(), Err(Error::NotConnected)));
    // Only the stop request went out.
    assert!(matches!(wired.outbound.try_recv(), Ok(SendMsg::Stop)));
    assert!(matches!(wired.outbound.try_recv(), Err(TryRecvError::Empty)));
}

#[test]
fn direct_message_to_an_invalid_key_fails_to_encrypt_even_after_stop() {
    let mut wired = wire(1);
    let nobody = PublicKey { bytes: [0xff; 32] };
    assert_eq!(wired.client.send_dm("hello", &nobody), Err(Error::Nip04Encrypt));
    assert_eq!(wired.client.encrypt(&nobody, "hello"), Err(Error::Nip04Encrypt));
    wired.client.stop();
    assert_eq!(wired.client.send_dm("hello", &nobody), Err(Error::Nip04Encrypt));
}

#[test]
fn empty_queue_is_no_event() {
    let mut wired = wire(1);
    assert!(matches!(wired.client.try_receive(), Ok(None)));
    assert!(matches!(wired.client.try_receive(), Ok(None)));
    assert!(wired.client.is_connected().is_ok());
}

#[test]
fn close_is_reported_once() {
    let mut wired = wire(1);
    wired.inbound.send(RecvMsg::Close).unwrap();
    wired.inbound.send(RecvMsg::Msg(text_note(5, "after the end"))).unwrap();
    assert!(matches!(wired.client.try_receive(), Err(Error::ConnectionClosed)));
    assert_eq!(wired.client.is_connected(), Err(Error::NotConnected));
    assert!(matches!(wired.client.try_receive(), Err(Error::NotConnected)));
    assert!(matches!(wired.client.try_receive(), Err(Error::NotConnected)));
    // A handle that was closed from the other side has nothing to stop.
    wired.client.stop();
    assert!(matches!(wired.outbound.try_recv(), Err(TryRecvError::Empty)));
}

#[test]
fn stop_twice_sends_one_stop() {
    let mut wired = wire(1);
    wired.client.stop();
    wired.client.stop();
    assert!(matches!(wired.outbound.try_recv(), Ok(SendMsg::Stop)));
    assert!(matches!(wired.outbound.try_recv(), Err(TryRecvError::Empty)));
    assert_eq!(wired.client.is_connected(), Err(Error::NotConnected));
}

#[test]
fn stop_without_a_session_does_not_fail() {
    let Wired { mut client, outbound, inbound } = wire(1);
    drop(outbound);
    drop(inbound);
    client.stop();
    client.stop();
    assert_eq!(client.is_connected(), Err(Error::NotConnected));
}

#[test]
fn dropping_the_handle_stops_the_session() {
    let Wired { client, outbound, inbound: _inbound } = wire(1);
    drop(client);
    assert!(matches!(outbound.try_recv(), Ok(SendMsg::Stop)));
    assert!(matches!(outbound.try_recv(), Err(TryRecvError::Disconnected)));
}

#[test]
fn malformed_payload_is_an_error_and_the_next_message_arrives() {
    let mut wired = wire(1);
    wired.inbound.send(RecvMsg::Msg(String::from("this is not json"))).unwrap();
    wired.inbound.send(RecvMsg::Msg(String::from("[\"BOGUS\",\"x\"]"))).unwrap();
    wired.inbound.send(RecvMsg::Msg(String::new())).unwrap();
    wired.inbound.send(RecvMsg::Msg(String::from("{\"a\":1}"))).unwrap();
    wired.inbound.send(RecvMsg::Msg(text_note(5, "still here"))).unwrap();
    assert!(matches!(wired.client.try_receive(), Err(Error::RawRelayMessage)));
    assert!(wired.client.is_connected().is_ok());
    assert!(matches!(wired.client.try_receive(), Err(Error::RelayMessage)));
    assert!(matches!(wired.client.try_receive(), Err(Error::RawRelayMessage)));
    assert!(matches!(wired.client.try_receive(), Err(Error::RelayMessage)));
    assert!(wired.client.is_connected().is_ok());
    let event = wired.client.try_receive().unwrap().expect("an event");
    assert_eq!(event.content, "still here");
    assert_eq!(event.kind, 1);
    assert_eq!(event.pubkey, keys_of(5).public_key());
    assert!(event.tags.is_empty());
}

#[test]
fn other_messages_are_dropped() {
    let mut wired = wire(1);
    wired.inbound.send(RecvMsg::Msg(String::from("[\"AUTH\",\"challenge\"]"))).unwrap();
    wired.inbound.send(RecvMsg::Msg(String::from("[\"NOTICE\",\"hi\"]"))).unwrap();
    wired.inbound.send(RecvMsg::Msg(String::from("[\"EOSE\",\"sub\"]"))).unwrap();
    assert!(matches!(wired.client.try_receive(), Ok(None)));
    assert!(matches!(wired.client.try_receive(), Ok(None)));
    assert!(matches!(wired.client.try_receive(), Ok(None)));
    assert!(wired.client.is_connected().is_ok());
}

#[test]
fn queues_without_a_session_are_errors() {
    let Wired { mut client, outbound, inbound } = wire(1);
    drop(outbound);
    drop(inbound);
    assert!(matches!(client.try_receive(), Err(Error::Receive)));
    assert_eq!(client.subscribe_dm(), Err(Error::Send));
    assert_eq!(client.subscribe_pool(10), Err(Error::Send));
    let note = EventBuilder::new(1, String::from("note"), Vec::new());
    assert_eq!(client.post_event(note), Err(Error::Send));
    assert_eq!(client.send_dm("hello", &keys_of(2).public_key()), Err(Error::Send));
    assert!(client.is_connected().is_ok());
}

#[test]
fn event_with_an_empty_tag_is_not_signed() {
    let mut wired = wire(1);
    let broken = EventBuilder::new(1, String::from("note"), vec![Vec::new()]);
    assert_eq!(wired.client.post_event(broken), Err(Error::SignEvent));
    assert!(matches!(wired.outbound.try_recv(), Err(TryRecvError::Empty)));
}

#[test]
fn published_event_is_signed_and_keeps_its_parts() {
    let mut wired = wire(7);
    let tags = vec![vec![String::from("t"), String::from("verus")]];
    wired.client.post_event(EventBuilder::new(1, String::from("a note"), tags.clone())).unwrap();
    match nostr::ClientMessage::from_json(sent_text(&wired)).unwrap() {
        nostr::ClientMessage::Event(event) => {
            assert!(event.verify().is_ok());
            assert_eq!(event.kind.as_u16(), 1);
            assert_eq!(event.content, "a note");
            assert_eq!(event.pubkey.to_bytes(), wired.client.pubkey().bytes);
            let sent: Vec<Vec<String>> = event.tags.iter().cloned().map(|t| t.to_vec()).collect();
            assert_eq!(sent, tags);
        }
        other => panic!("expected an event message, got {:?}", other),
    }
}

#[test]
fn pool_subscription_asks_for_recent_events_of_the_pool_kind() {
    let mut wired = wire(1);
    let before = nostr::Timestamp::now().as_u64();
    wired.client.subscribe_pool(100).unwrap();
    let after = nostr::Timestamp::now().as_u64();
    match nostr::ClientMessage::from_json(sent_text(&wired)).unwrap() {
        nostr::ClientMessage::Req { filter, .. } => {
            let since = filter.since.expect("a lower bound").as_u64();
            assert!(before - 100 <= since && since <= after - 100);
            let expected = nostr::Filter::new()
                .kind(nostr::Kind::from_u16(2022))
                .since(nostr::Timestamp::from_secs(since));
            assert_eq!(filter.into_owned(), expected);
        }
        other => panic!("expected a request, got {:?}", other),
    }
}

#[test]
fn subscription_further_back_than_the_epoch_starts_at_zero() {
    let mut wired = wire(1);
    wired.client.subscribe_custom(30023, u64::MAX).unwrap();
    match nostr::ClientMessage::from_json(sent_text(&wired)).unwrap() {
        nostr::ClientMessage::Req { filter, .. } => {
            let expected = nostr::Filter::new()
                .kind(nostr::Kind::from_u16(30023))
                .since(nostr::Timestamp::from_secs(0));
            assert_eq!(filter.into_owned(), expected);
        }
        other => panic!("expected a request, got {:?}", other),
    }
}

#[test]
fn subscription_with_given_time_and_identifier_is_exact() {
    let mut wired = wire(1);
    assert_eq!(wired.client.subscribe_since(1, 100, 1_000, "abc"), Ok(()));
    let filter = nostr::Filter::new()
        .kind(nostr::Kind::from_u16(1))
        .since(nostr::Timestamp::from_secs(900));
    let expected = nostr::ClientMessage::req(nostr::SubscriptionId::new("abc"), filter).as_json();
    assert_eq!(sent_text(&wired), expected);
    assert_eq!(expected, "[\"REQ\",\"abc\",{\"kinds\":[1],\"since\":900}]");

    // Further back than the epoch: the bound is zero.
    assert_eq!(wired.client.subscribe_since(2022, 1_001, 1_000, "x y"), Ok(()));
    assert_eq!(sent_text(&wired), "[\"REQ\",\"x y\",{\"kinds\":[2022],\"since\":0}]");
    assert_eq!(wired.client.subscribe_since(7, 1_000, 1_000, ""), Ok(()));
    assert_eq!(sent_text(&wired), "[\"REQ\",\"\",{\"kinds\":[7],\"since\":0}]");

    wired.client.stop();
    assert_eq!(wired.client.subscribe_since(1, 100, 1_000, "abc"), Err(Error::NotConnected));
}

#[test]
fn dropping_a_stopped_handle_sends_no_second_stop() {
    let Wired { mut client, outbound, inbound: _inbound } = wire(1);
    client.stop();
    drop(client);
    assert!(matches!(outbound.try_recv(), Ok(SendMsg::Stop)));
    assert!(matches!(outbound.try_recv(), Err(TryRecvError::Disconnected)));
}

#[test]
fn subscriptions_get_different_identifiers() {
    let mut wired = wire(1);
    wired.client.subscribe_dm().unwrap();
    wired.client.subscribe_dm().unwrap();
    let first = sent_text(&wired);
    let second = sent_text(&wired);
    assert_ne!(first, second);
}

#[test]
fn outbound_messages_keep_their_order() {
    let mut wired = wire(1);
    wired.client.subscribe_dm().unwrap();
    wired.client.post_event(EventBuilder::new(1, String::from("one"), Vec::new())).unwrap();
    wired.client.subscribe_pool(5).unwrap();
    wired.client.stop();
    assert!(sent_text(&wired).starts_with("[\"REQ\""));
    assert!(sent_text(&wired).starts_with("[\"EVENT\""));
    assert!(sent_text(&wired).starts_with("[\"REQ\""));
    assert!(matches!(wired.outbound.try_recv(), Ok(SendMsg::Stop)));
}
