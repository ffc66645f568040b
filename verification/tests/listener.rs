use net_relay::codec::{decode, encode, DecodeError};
use net_relay::listener::{
    datagram_signal, forward_decoded, listen_endpoint, mute_event_name, mute_signal,
    receiver_step, ListenerHandle, Reaction, ReceiverState, SocketEvent,
};
use net_relay::osc::{OscEvent, OscMessage, OscPacket, OscValue};

const MUTE: &str = "/avatar/parameters/MuteSelf";

fn packet(addr: &str, args: Vec<Option<OscValue>>) -> OscPacket {
    OscPacket::Message(OscEvent { addr: addr.to_string(), args })
}

fn datagram(addr: &str, args: Vec<OscValue>) -> Vec<u8> {
    encode(&OscMessage { addr: addr.to_string(), args })
}

#[test]
fn mute_true_is_forwarded() {
    assert_eq!(mute_signal(&packet(MUTE, vec![Some(OscValue::Bool(true))])), Some(true));
}

#[test]
fn mute_false_is_forwarded() {
    assert_eq!(mute_signal(&packet(MUTE, vec![Some(OscValue::Bool(false))])), Some(false));
}

#[test]
fn only_first_argument_counts() {
    let args = vec![Some(OscValue::Bool(false)), Some(OscValue::Bool(true))];
    assert_eq!(mute_signal(&packet(MUTE, args)), Some(false));
    let args = vec![None, Some(OscValue::Bool(true))];
    assert_eq!(mute_signal(&packet(MUTE, args)), None);
}

#[test]
fn other_address_is_not_forwarded() {
    let args = vec![Some(OscValue::Bool(true))];
    assert_eq!(mute_signal(&packet("/avatar/parameters/Voice", args.clone())), None);
    assert_eq!(mute_signal(&packet("/avatar/parameters/MuteSelf/", args.clone())), None);
    assert_eq!(mute_signal(&packet("/avatar/parameters/muteself", args.clone())), None);
    assert_eq!(mute_signal(&packet("", args)), None);
}

#[test]
fn mute_without_boolean_is_not_forwarded() {
    assert_eq!(mute_signal(&packet(MUTE, vec![])), None);
    assert_eq!(mute_signal(&packet(MUTE, vec![None])), None);
    assert_eq!(mute_signal(&packet(MUTE, vec![Some(OscValue::Text("true".to_string()))])), None);
}

#[test]
fn bundle_is_not_forwarded() {
    assert_eq!(mute_signal(&OscPacket::Bundle), None);
}

#[test]
fn malformed_datagram_forwards_nothing() {
    assert_eq!(forward_decoded(&Err(DecodeError::MalformedPacket)), None);
    assert_eq!(
        forward_decoded(&Ok(packet(MUTE, vec![Some(OscValue::Bool(true))]))),
        Some(true)
    );
}

#[test]
fn datagram_signal_reads_the_wire() {
    assert_eq!(datagram_signal(&datagram(MUTE, vec![OscValue::Bool(true)])), Some(true));
    assert_eq!(datagram_signal(&datagram(MUTE, vec![OscValue::Bool(false)])), Some(false));
    assert_eq!(datagram_signal(&datagram("/chatbox/typing", vec![OscValue::Bool(true)])), None);
    assert_eq!(datagram_signal(b"garbage"), None);
    assert_eq!(datagram_signal(&[]), None);
}

#[test]
fn datagram_signal_ignores_integer_mute() {
    let mut bytes = b"/avatar/parameters/MuteSelf\0,i\0\0".to_vec();
    bytes.extend_from_slice(&[0, 0, 0, 1]);
    assert!(decode(&bytes).is_ok());
    assert_eq!(datagram_signal(&bytes), None);
}

#[test]
fn first_start_launches_and_later_starts_do_not() {
    let mut handle = ListenerHandle::new();
    assert!(!handle.started());
    assert!(handle.start());
    assert!(handle.started());
    let mut launches = 1;
    for _ in 0..9 {
        if handle.start() {
            launches += 1;
        }
        assert!(handle.started());
    }
    assert_eq!(launches, 1);
}

#[test]
fn receiver_binds_then_receives() {
    let step = receiver_step(ReceiverState::Binding, &SocketEvent::Bound);
    assert_eq!(step, Reaction { next: ReceiverState::Receiving, mute: None });
}

#[test]
fn receiver_ends_on_failed_bind() {
    let step = receiver_step(ReceiverState::Binding, &SocketEvent::BindFailed);
    assert_eq!(step, Reaction { next: ReceiverState::Terminated, mute: None });
}

#[test]
fn receiver_forwards_mute_and_goes_on() {
    let event = SocketEvent::Datagram(datagram(MUTE, vec![OscValue::Bool(true)]));
    let step = receiver_step(ReceiverState::Receiving, &event);
    assert_eq!(step, Reaction { next: ReceiverState::Receiving, mute: Some(true) });
}

#[test]
fn receiver_drops_other_datagrams_and_goes_on() {
    let other = SocketEvent::Datagram(datagram("/chatbox/input", vec![OscValue::Bool(true)]));
    let step = receiver_step(ReceiverState::Receiving, &other);
    assert_eq!(step, Reaction { next: ReceiverState::Receiving, mute: None });
    let malformed = SocketEvent::Datagram(b"\xff\xfe".to_vec());
    let step = receiver_step(ReceiverState::Receiving, &malformed);
    assert_eq!(step, Reaction { next: ReceiverState::Receiving, mute: None });
}

#[test]
fn receiver_ends_on_failed_receive() {
    let step = receiver_step(ReceiverState::Receiving, &SocketEvent::ReceiveFailed);
    assert_eq!(step, Reaction { next: ReceiverState::Terminated, mute: None });
}

#[test]
fn receiver_ignores_events_out_of_turn() {
    let mute = SocketEvent::Datagram(datagram(MUTE, vec![OscValue::Bool(true)]));
    let step = receiver_step(ReceiverState::Binding, &mute);
    assert_eq!(step, Reaction { next: ReceiverState::Binding, mute: None });
    let step = receiver_step(ReceiverState::Binding, &SocketEvent::ReceiveFailed);
    assert_eq!(step, Reaction { next: ReceiverState::Binding, mute: None });
    let step = receiver_step(ReceiverState::Receiving, &SocketEvent::Bound);
    assert_eq!(step, Reaction { next: ReceiverState::Receiving, mute: None });
    let step = receiver_step(ReceiverState::Receiving, &SocketEvent::BindFailed);
    assert_eq!(step, Reaction { next: ReceiverState::Receiving, mute: None });
}

#[test]
fn terminated_receiver_stays_terminated() {
    let events = [
        SocketEvent::Bound,
        SocketEvent::BindFailed,
        SocketEvent::Datagram(datagram(MUTE, vec![OscValue::Bool(true)])),
        SocketEvent::ReceiveFailed,
    ];
    for event in events.iter() {
        let step = receiver_step(ReceiverState::Terminated, event);
        assert_eq!(step, Reaction { next: ReceiverState::Terminated, mute: None });
    }
}

#[test]
fn listener_names() {
    assert_eq!(listen_endpoint(), "127.0.0.1:9001");
    assert_eq!(mute_event_name(), "vrchat-mute");
}
