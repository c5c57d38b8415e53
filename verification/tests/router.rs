use gateway_core::error::{DecodeError, Error, ServiceError};
use gateway_core::router::{
    EnvelopeDown, EnvelopeUp, Phase, RecvAction, Register, RouterAction, RouterService,
    CONDUIT_CAPACITY,
};

type Service = RouterService<Vec<u8>>;

fn service() -> Service {
    RouterService::new("http://router.example:8080".to_string(), vec![1, 2, 3])
}

fn stream_closed() -> Error {
    Error::Service(ServiceError::Stream)
}

fn rpc_error() -> Error {
    Error::Service(ServiceError::Rpc("deadline exceeded".to_string()))
}

/// Drive a connect that was just asked for to its end, with success at every step.
fn finish_connect(service: &mut Service, timestamp: u64) -> RouterAction<Vec<u8>> {
    let sign = service.opened(Ok(timestamp));
    assert_eq!(
        sign,
        RouterAction::Sign(Register { timestamp, gateway: vec![1, 2, 3], signature: vec![] })
    );
    assert_eq!(service.phase(), Phase::Signing);
    let register = service.signed(Ok(vec![9, 9]));
    assert_eq!(
        register,
        RouterAction::Transmit(EnvelopeUp::Register(Register {
            timestamp,
            gateway: vec![1, 2, 3],
            signature: vec![9, 9],
        }))
    );
    assert_eq!(service.phase(), Phase::Registering);
    assert!(!service.is_connected());
    service.transmitted(Ok(()))
}

#[test]
fn capacity() {
    assert_eq!(CONDUIT_CAPACITY, 50);
}

#[test]
fn new_service_is_not_connected() {
    let service = service();
    assert_eq!(service.uri, "http://router.example:8080");
    assert!(!service.is_connected());
    assert_eq!(service.phase(), Phase::Idle);
}

#[test]
fn connect_registers() {
    let mut service = service();
    assert_eq!(service.connect(), RouterAction::Open { capacity: 50 });
    assert_eq!(service.phase(), Phase::Opening);
    assert!(!service.is_connected());
    assert_eq!(finish_connect(&mut service, 1_700_000_000_123), RouterAction::Finished(Ok(())));
    assert!(service.is_connected());
    assert_eq!(service.phase(), Phase::Idle);
}

#[test]
fn first_send_connects_and_registers() {
    let mut service = service();
    assert_eq!(service.send(vec![0xAA]), RouterAction::Open { capacity: 50 });
    assert_eq!(service.phase(), Phase::Opening);
    let action = finish_connect(&mut service, 5);
    assert_eq!(action, RouterAction::Transmit(EnvelopeUp::Packet(vec![0xAA])));
    assert!(service.is_connected());
    assert_eq!(service.phase(), Phase::Sending);
    assert_eq!(service.transmitted(Ok(())), RouterAction::Finished(Ok(())));
    assert!(service.is_connected());
    assert_eq!(service.phase(), Phase::Idle);
}

#[test]
fn send_on_a_conduit_goes_up_at_once() {
    let mut service = service();
    service.connect();
    finish_connect(&mut service, 5);
    for n in 0..3u8 {
        assert_eq!(
            service.send(vec![n]),
            RouterAction::Transmit(EnvelopeUp::Packet(vec![n]))
        );
        assert_eq!(service.phase(), Phase::Sending);
        assert_eq!(service.transmitted(Ok(())), RouterAction::Finished(Ok(())));
    }
    assert!(service.is_connected());
}

#[test]
fn conduit_reconnect() {
    let mut service = service();

    // the first send connects and registers
    assert_eq!(service.send(vec![1]), RouterAction::Open { capacity: 50 });
    assert_eq!(
        finish_connect(&mut service, 10),
        RouterAction::Transmit(EnvelopeUp::Packet(vec![1]))
    );
    assert_eq!(service.transmitted(Ok(())), RouterAction::Finished(Ok(())));

    // the second observes the closure and disconnects
    assert_eq!(service.send(vec![2]), RouterAction::Transmit(EnvelopeUp::Packet(vec![2])));
    assert_eq!(
        service.transmitted(Err(stream_closed())),
        RouterAction::Finished(Err(stream_closed()))
    );
    assert!(!service.is_connected());
    assert_eq!(service.phase(), Phase::Idle);

    // the third connects and registers again before it sends
    assert_eq!(service.send(vec![3]), RouterAction::Open { capacity: 50 });
    assert_eq!(
        finish_connect(&mut service, 20),
        RouterAction::Transmit(EnvelopeUp::Packet(vec![3]))
    );
    assert_eq!(service.transmitted(Ok(())), RouterAction::Finished(Ok(())));
    assert!(service.is_connected());
}

#[test]
fn failed_open_ends_the_send() {
    let mut service = service();
    service.send(vec![1]);
    assert_eq!(service.opened(Err(rpc_error())), RouterAction::Finished(Err(rpc_error())));
    assert!(!service.is_connected());
    assert_eq!(service.phase(), Phase::Idle);
    assert_eq!(service.send(vec![2]), RouterAction::Open { capacity: 50 });
}

#[test]
fn failed_clock_ends_the_connect() {
    let mut service = service();
    service.connect();
    assert_eq!(
        service.opened(Err(Error::SystemTime)),
        RouterAction::Finished(Err(Error::SystemTime))
    );
    assert!(!service.is_connected());
}

#[test]
fn failed_signature_ends_the_connect() {
    let mut service = service();
    service.send(vec![1]);
    service.opened(Ok(1));
    let failure = Error::CryptoError("signature error".to_string());
    assert_eq!(
        service.signed(Err(failure.clone())),
        RouterAction::Finished(Err(failure))
    );
    assert!(!service.is_connected());
    assert_eq!(service.phase(), Phase::Idle);
}

#[test]
fn failed_register_ends_the_connect() {
    let mut service = service();
    service.send(vec![1]);
    service.opened(Ok(1));
    service.signed(Ok(vec![7]));
    assert_eq!(
        service.transmitted(Err(stream_closed())),
        RouterAction::Finished(Err(stream_closed()))
    );
    assert!(!service.is_connected());
    assert_eq!(service.phase(), Phase::Idle);
}

#[test]
fn failed_connect_keeps_the_conduit() {
    let mut service = service();
    service.connect();
    finish_connect(&mut service, 1);
    assert!(service.is_connected());

    assert_eq!(service.connect(), RouterAction::Open { capacity: 50 });
    assert_eq!(service.opened(Err(rpc_error())), RouterAction::Finished(Err(rpc_error())));
    assert!(service.is_connected());

    service.connect();
    service.opened(Ok(2));
    service.signed(Err(rpc_error()));
    assert!(service.is_connected());

    service.connect();
    service.opened(Ok(3));
    service.signed(Ok(vec![]));
    service.transmitted(Err(stream_closed()));
    assert!(service.is_connected());
    assert_eq!(service.send(vec![4]), RouterAction::Transmit(EnvelopeUp::Packet(vec![4])));
}

#[test]
fn recv_while_disconnected_is_pending() {
    let mut service = service();
    for _ in 0..5 {
        assert_eq!(service.recv(), RecvAction::Pending);
        assert!(!service.is_connected());
        assert_eq!(service.phase(), Phase::Idle);
    }
    // a connect elsewhere ends the wait
    service.connect();
    finish_connect(&mut service, 1);
    assert_eq!(service.recv(), RecvAction::Read);
    assert_eq!(service.phase(), Phase::Receiving);
}

#[test]
fn recv_hands_on_packets() {
    let mut service = service();
    service.connect();
    finish_connect(&mut service, 1);
    for n in 0..3u32 {
        assert_eq!(service.recv(), RecvAction::Read);
        assert_eq!(service.received(Ok(Some(EnvelopeDown::Packet(n)))), Ok(Some(n)));
        assert!(service.is_connected());
        assert_eq!(service.phase(), Phase::Idle);
    }
}

#[test]
fn recv_rejects_unknown_envelopes() {
    let mut service = service();
    service.connect();
    finish_connect(&mut service, 1);
    service.recv();
    assert_eq!(
        service.received::<u32>(Ok(Some(EnvelopeDown::Unknown))),
        Err(Error::Decode(DecodeError::InvalidEnvelope))
    );
    assert!(!service.is_connected());
    assert_eq!(service.recv(), RecvAction::Pending);
}

#[test]
fn recv_end_of_stream_disconnects() {
    let mut service = service();
    service.connect();
    finish_connect(&mut service, 1);
    service.recv();
    assert_eq!(service.received::<u32>(Ok(None)), Ok(None));
    assert!(!service.is_connected());
    assert_eq!(service.phase(), Phase::Idle);
}

#[test]
fn recv_error_disconnects() {
    let mut service = service();
    service.connect();
    finish_connect(&mut service, 1);
    service.recv();
    assert_eq!(service.received::<u32>(Err(rpc_error())), Err(rpc_error()));
    assert!(!service.is_connected());
    assert_eq!(service.send(vec![1]), RouterAction::Open { capacity: 50 });
}

#[test]
fn disconnect_twice_is_disconnect_once() {
    let mut service = service();
    service.connect();
    finish_connect(&mut service, 1);
    service.disconnect();
    assert!(!service.is_connected());
    assert_eq!(service.phase(), Phase::Idle);
    service.disconnect();
    assert!(!service.is_connected());
    assert_eq!(service.phase(), Phase::Idle);
    assert_eq!(service.uri, "http://router.example:8080");

    // a connect after it makes a fresh stream, registered anew
    assert_eq!(service.connect(), RouterAction::Open { capacity: 50 });
    assert_eq!(finish_connect(&mut service, 2), RouterAction::Finished(Ok(())));
    assert!(service.is_connected());
}

#[test]
fn disconnect_abandons_what_is_under_way() {
    let mut service = service();
    service.send(vec![1]);
    service.opened(Ok(1));
    service.disconnect();
    assert_eq!(service.phase(), Phase::Idle);
    assert!(!service.is_connected());
    assert_eq!(service.send(vec![2]), RouterAction::Open { capacity: 50 });
    assert_eq!(
        finish_connect(&mut service, 2),
        RouterAction::Transmit(EnvelopeUp::Packet(vec![2]))
    );
}

#[test]
fn reconnect_drops_and_connects() {
    let mut service = service();
    service.connect();
    finish_connect(&mut service, 1);
    assert_eq!(service.reconnect(), RouterAction::Open { capacity: 50 });
    assert!(!service.is_connected());
    assert_eq!(service.phase(), Phase::Opening);
    assert_eq!(finish_connect(&mut service, 2), RouterAction::Finished(Ok(())));
    assert!(service.is_connected());

    let mut fresh: Service = RouterService::new("http://other".to_string(), vec![1, 2, 3]);
    assert_eq!(fresh.reconnect(), RouterAction::Open { capacity: 50 });
    assert_eq!(finish_connect(&mut fresh, 3), RouterAction::Finished(Ok(())));
}
