use rover::sink::{
    is_disconnect, on_accept, receive, retain_connected, settle_handshake, AcceptEvent, Handshake,
    IoErrorKind, LinkError,
};
use rover::value::{payload_bytes, Value};

fn parse_json(s: &String) -> Option<serde_json::Value> {
    serde_json::from_str::<serde_json::Value>(s).ok()
}

fn render_json(v: &serde_json::Value) -> String {
    serde_json::to_string(v).unwrap()
}

/// A stand-in for a connected client: an id, what it has received, and
/// whether its next write fails with a disconnect.
struct Client {
    id: u32,
    received: Vec<u8>,
    gone: bool,
}

fn client(id: u32) -> Client {
    Client { id, received: Vec::new(), gone: false }
}

/// One write round as a sink runs it: the payload goes to every live client,
/// and those whose write hit a disconnect are pruned.
fn write_round(clients: &mut Vec<Client>, v: &Value<serde_json::Value>) {
    let payload = payload_bytes(v, render_json);
    let mut faults = Vec::new();
    for c in clients.iter_mut() {
        if c.gone {
            faults.push(Some(LinkError::Io(IoErrorKind::BrokenPipe)));
        } else {
            c.received.extend_from_slice(&payload);
            faults.push(None);
        }
    }
    retain_connected(clients, &faults);
}

fn ids(clients: &Vec<Client>) -> Vec<u32> {
    clients.iter().map(|c| c.id).collect()
}

#[test]
fn disconnect_kinds() {
    assert!(is_disconnect(&LinkError::Io(IoErrorKind::ConnectionReset)));
    assert!(is_disconnect(&LinkError::Io(IoErrorKind::ConnectionAborted)));
    assert!(is_disconnect(&LinkError::Io(IoErrorKind::TimedOut)));
    assert!(is_disconnect(&LinkError::Io(IoErrorKind::BrokenPipe)));
    assert!(is_disconnect(&LinkError::Closed));
    assert!(!is_disconnect(&LinkError::Io(IoErrorKind::WouldBlock)));
    assert!(!is_disconnect(&LinkError::Io(IoErrorKind::Other)));
    assert!(!is_disconnect(&LinkError::Protocol));
}

#[test]
fn pruning_removes_exactly_the_disconnected() {
    let mut clients = vec![10, 20, 30, 40, 50];
    let faults = vec![
        None,
        Some(LinkError::Io(IoErrorKind::ConnectionReset)),
        Some(LinkError::Io(IoErrorKind::WouldBlock)),
        Some(LinkError::Closed),
        Some(LinkError::Protocol),
    ];
    retain_connected(&mut clients, &faults);
    assert_eq!(clients, vec![10, 30, 50]);
}

#[test]
fn pruning_an_empty_set() {
    let mut clients: Vec<u8> = Vec::new();
    retain_connected(&mut clients, &Vec::new());
    assert!(clients.is_empty());
}

#[test]
fn pruning_everyone() {
    let mut clients = vec![1, 2, 3];
    let f = Some(LinkError::Io(IoErrorKind::TimedOut));
    retain_connected(&mut clients, &vec![f, f, f]);
    assert!(clients.is_empty());
}

#[test]
fn one_client_receives_text() {
    let mut clients = vec![client(1)];
    write_round(&mut clients, &Value::String("hello".to_string()));
    assert_eq!(clients[0].received, b"hello".to_vec());
}

#[test]
fn broadcast_then_disconnect() {
    let mut clients = vec![client(1), client(2)];
    write_round(&mut clients, &Value::Bytes(vec![1, 2, 3]));
    assert_eq!(clients[0].received, vec![1, 2, 3]);
    assert_eq!(clients[1].received, vec![1, 2, 3]);

    clients[0].gone = true;
    write_round(&mut clients, &Value::Bytes(vec![4, 5, 6]));
    assert_eq!(ids(&clients), vec![2]);
    assert_eq!(clients[0].received, vec![1, 2, 3, 4, 5, 6]);

    write_round(&mut clients, &Value::Bytes(vec![7]));
    assert_eq!(ids(&clients), vec![2]);
    assert_eq!(clients[0].received, vec![1, 2, 3, 4, 5, 6, 7]);
}

#[test]
fn removed_on_read_gets_no_write() {
    let mut clients = vec![client(1), client(2), client(3)];
    let reads = vec![
        Ok(b"x".to_vec()),
        Err(LinkError::Io(IoErrorKind::ConnectionAborted)),
        Err(LinkError::Io(IoErrorKind::WouldBlock)),
    ];
    let mut faults = Vec::new();
    for r in reads {
        faults.push(receive(r, parse_json).err());
    }
    retain_connected(&mut clients, &faults);
    write_round(&mut clients, &Value::String("after".to_string()));
    assert_eq!(ids(&clients), vec![1, 3]);
    assert_eq!(clients[0].received, b"after".to_vec());
    assert_eq!(clients[1].received, b"after".to_vec());
}

#[test]
fn receive_classifies_reads() {
    assert!(matches!(receive(Ok(Vec::new()), parse_json), Err(LinkError::Closed)));
    assert!(matches!(
        receive(Err(LinkError::Io(IoErrorKind::WouldBlock)), parse_json),
        Err(LinkError::Io(IoErrorKind::WouldBlock))
    ));
    match receive(Ok(b"[true]".to_vec()), parse_json) {
        Ok(Value::StructuredString(v)) => assert_eq!(v[0], serde_json::Value::Bool(true)),
        _ => panic!("expected a structured record"),
    }
    match receive(Ok(vec![0xc3]), parse_json) {
        Ok(Value::Bytes(b)) => assert_eq!(b, vec![0xc3]),
        _ => panic!("expected bytes"),
    }
}

#[test]
fn accepting_clients() {
    let mut clients = vec![1];
    assert!(on_accept(&mut clients, AcceptEvent::Connected(2)));
    assert_eq!(clients, vec![1, 2]);
    assert!(on_accept(&mut clients, AcceptEvent::Idle));
    assert_eq!(clients, vec![1, 2]);
    assert!(!on_accept(&mut clients, AcceptEvent::Exhausted));
    assert_eq!(clients, vec![1, 2]);
}

#[test]
fn handshakes_are_filed() {
    let mut clients: Vec<u32> = Vec::new();
    let mut pending: Vec<&str> = Vec::new();
    settle_handshake(&mut clients, &mut pending, Handshake::InProgress("p1"));
    assert_eq!(pending, vec!["p1"]);
    assert!(clients.is_empty());
    settle_handshake(&mut clients, &mut pending, Handshake::Done(7));
    assert_eq!(clients, vec![7]);
    settle_handshake(&mut clients, &mut pending, Handshake::Failed);
    assert_eq!(clients, vec![7]);
    assert_eq!(pending, vec!["p1"]);
}
