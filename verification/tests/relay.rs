use std::collections::HashMap;
use where_zome::{
    init, multicast_outcome, new_space_signal, notify, CapAccess, HostReply, Message,
    NotifyInput, SignalPayload, Space, Where, WhereError, WhereOutput,
};

const ENTRY_TEXT: &str = "uhCEkWCsAgoKkkfwyJAglj30xX_GLLV-3BXuFy436a2SqpcEwyBzm";
const HEADER_TEXT: &str = "uhCkkWCsAgoKkkfwyJAglj30xX_GLLV-3BXuFy436a2SqpcEwyBzm";
const AGENT_TEXT: &str = "uhCAkJCuynkgVdMn_bzZ2ZYaVfygkn0WCuzfFspczxFnZM1QAyXoo";
const OTHER_AGENT_TEXT: &str = "uhCAk39SDf7rynCg5bYgzroGaOJKGKrloI1o57Xao6S-U5KNZ0dUH";

fn entry_bytes() -> Vec<u8> {
    vec![
        132, 33, 36, 88, 43, 0, 130, 130, 164, 145, 252, 50, 36, 8, 37, 143, 125, 49, 95, 241,
        139, 45, 95, 183, 5, 123, 133, 203, 141, 250, 107, 100, 170, 165, 193, 48, 200, 28, 230,
    ]
}

fn agent_bytes() -> Vec<u8> {
    vec![
        132, 32, 36, 36, 43, 178, 158, 72, 21, 116, 201, 255, 111, 54, 118, 101, 134, 149, 127,
        40, 36, 159, 69, 130, 187, 55, 197, 178, 151, 51, 196, 89, 217, 51, 84, 0, 201, 122, 40,
    ]
}

fn other_agent_bytes() -> Vec<u8> {
    vec![
        132, 32, 36, 223, 212, 131, 127, 186, 242, 156, 40, 57, 109, 136, 51, 174, 129, 154, 56,
        146, 134, 42, 185, 104, 35, 90, 57, 237, 118, 168, 233, 47, 148, 228, 163, 89, 209, 213,
        7,
    ]
}

fn removal() -> SignalPayload {
    SignalPayload::new(ENTRY_TEXT.to_string(), Message::DeleteWhere(HEADER_TEXT.to_string()))
}

#[test]
fn the_grant_opens_the_receiving_entry_point_to_all() {
    let grant = init("where".to_string());
    assert_eq!(grant.tag, "");
    assert_eq!(grant.access, CapAccess::Unrestricted);
    assert_eq!(grant.functions, vec![("where".to_string(), "recv_remote_signal".to_string())]);
}

#[test]
fn an_envelope_holds_what_it_was_given() {
    let payload = removal();
    assert_eq!(payload.space_hash, ENTRY_TEXT);
    match payload.message {
        Message::DeleteWhere(id) => assert_eq!(id, HEADER_TEXT),
        _ => panic!("another message"),
    }
}

#[test]
fn an_envelope_carries_a_new_marker() {
    let shown = WhereOutput {
        entry: Where { location: "{}".to_string(), meta: HashMap::new() },
        hash: HEADER_TEXT.to_string(),
        author: AGENT_TEXT.to_string(),
    };
    let payload = SignalPayload::new(ENTRY_TEXT.to_string(), Message::NewWhere(shown));
    match payload.message {
        Message::NewWhere(w) => {
            assert_eq!(w.hash, HEADER_TEXT);
            assert_eq!(w.author, AGENT_TEXT);
            assert_eq!(w.entry.location, "{}");
        }
        _ => panic!("another message"),
    }
}

#[test]
fn a_new_space_is_announced_under_its_identifier() {
    let mut meta = HashMap::new();
    meta.insert("colour".to_string(), "red".to_string());
    let input = Space { name: "lobby".to_string(), surface: "{\"w\":10}".to_string(), meta };
    let signal = new_space_signal(input, &entry_bytes());
    assert_eq!(signal.space_hash, ENTRY_TEXT);
    match signal.message {
        Message::NewSpace(s) => {
            assert_eq!(s.name, "lobby");
            assert_eq!(s.surface, "{\"w\":10}");
            assert_eq!(s.meta.get("colour"), Some(&"red".to_string()));
        }
        _ => panic!("another message"),
    }
}

#[test]
fn a_multicast_that_was_handed_over_counts_as_sent() {
    assert_eq!(multicast_outcome(&HostReply::Done), Ok(()));
    assert_eq!(multicast_outcome(&HostReply::Hash(vec![1])), Ok(()));
}

#[test]
fn a_multicast_that_could_not_be_handed_over_is_a_send_failure() {
    assert_eq!(multicast_outcome(&HostReply::Failed), Err(WhereError::SendFailure));
}

#[test]
fn a_multicast_goes_to_the_peers_in_order_with_the_envelope_untouched() {
    let input = NotifyInput {
        folks: vec![AGENT_TEXT.to_string(), OTHER_AGENT_TEXT.to_string()],
        signal: removal(),
    };
    let multicast = notify(input).unwrap();
    assert_eq!(multicast.peers, vec![agent_bytes(), other_agent_bytes()]);
    assert_eq!(multicast.signal.space_hash, ENTRY_TEXT);
    match multicast.signal.message {
        Message::DeleteWhere(id) => assert_eq!(id, HEADER_TEXT),
        _ => panic!("another message"),
    }
}

#[test]
fn a_multicast_to_nobody_is_in_order() {
    let multicast = notify(NotifyInput { folks: Vec::new(), signal: removal() }).unwrap();
    assert!(multicast.peers.is_empty());
}

#[test]
fn a_multicast_to_a_malformed_peer_is_refused() {
    let input = NotifyInput {
        folks: vec![AGENT_TEXT.to_string(), ENTRY_TEXT.to_string()],
        signal: removal(),
    };
    match notify(input) {
        Err(e) => assert_eq!(e, WhereError::Undecodable),
        Ok(_) => panic!("the multicast went through"),
    }
}
