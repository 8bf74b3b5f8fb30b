use bytes::{Bytes, BytesMut};
use dotboard::daemon::{Daemon, Dispatcher, Ingress};
use dotboard::modules::{TennisAction, TennisModule};
use dotboard::registry::ModuleRegistry;
use dotboard::wire::encode_frame;
use tokio::sync::broadcast;

#[test]
fn new_registry_has_no_routes() {
    let (egress, _rx) = broadcast::channel::<Bytes>(4);
    let registry = ModuleRegistry::new(egress);
    for tag in 0..=255u8 {
        assert!(!registry.is_registered(tag));
    }
    let router = registry.build();
    for tag in 0..=255u8 {
        assert!(!router.has_route(tag));
        assert_eq!(router.route(tag, 1, Bytes::new()).err(), Some(tag));
    }
}

#[test]
fn register_marks_only_its_tag() {
    let (egress, _rx) = broadcast::channel::<Bytes>(4);
    let mut registry = ModuleRegistry::new(egress);
    let _pair = registry.register(0x00, 8);
    assert!(registry.is_registered(0x00));
    for tag in 1..=255u8 {
        assert!(!registry.is_registered(tag));
    }
    let _other = registry.register(0xFF, 1);
    assert!(registry.is_registered(0x00));
    assert!(registry.is_registered(0xFF));
    assert!(!registry.is_registered(0x01));
}

#[test]
fn routed_message_reaches_module_channel() {
    let (egress, _rx) = broadcast::channel::<Bytes>(4);
    let mut registry = ModuleRegistry::new(egress);
    let (mut module_rx, _egress) = registry.register(0x00, 8);
    let router = registry.build();
    let (sender, message) = router.route(0x00, 0x01, Bytes::from_static(b"ping")).ok().unwrap();
    assert_eq!(message.0, 0x01);
    sender.try_send(message).unwrap();
    let (tag, payload) = module_rx.try_recv().unwrap();
    assert_eq!(tag, 0x01);
    assert_eq!(&payload[..], b"ping");
}

#[test]
fn unregistered_tag_is_dropped() {
    let (egress, _rx) = broadcast::channel::<Bytes>(4);
    let mut registry = ModuleRegistry::new(egress);
    let _pair = registry.register(0x00, 8);
    let router = registry.build();
    assert_eq!(router.route(0x01, 0x01, Bytes::new()).err(), Some(0x01));
}

#[test]
fn register_hands_out_the_egress_bus() {
    let (egress, mut egress_rx) = broadcast::channel::<Bytes>(4);
    let mut registry = ModuleRegistry::new(egress);
    let (_module_rx, module_egress) = registry.register(0x00, 8);
    module_egress.send(Bytes::from_static(b"out")).unwrap();
    assert_eq!(&egress_rx.try_recv().unwrap()[..], b"out");
}

#[test]
fn module_channel_has_requested_capacity() {
    let (egress, _rx) = broadcast::channel::<Bytes>(4);
    let mut registry = ModuleRegistry::new(egress);
    let (_module_rx, _egress) = registry.register(0x00, 2);
    let router = registry.build();
    let (sender, _) = router.route(0x00, 0, Bytes::new()).ok().unwrap();
    assert_eq!(sender.max_capacity(), 2);
}

#[test]
fn cloned_router_keeps_routes() {
    let (egress, _rx) = broadcast::channel::<Bytes>(4);
    let mut registry = ModuleRegistry::new(egress);
    let (mut module_rx, _egress) = registry.register(0x03, 8);
    let router = registry.build();
    let copy = router.clone();
    for tag in 0..=255u8 {
        assert_eq!(copy.has_route(tag), router.has_route(tag));
    }
    let (sender, message) = copy.route(0x03, 0x02, Bytes::from_static(b"x")).ok().unwrap();
    sender.try_send(message).unwrap();
    assert_eq!(module_rx.try_recv().unwrap().0, 0x02);
}

#[test]
fn session_gets_routes_and_egress() {
    let (egress, _rx) = broadcast::channel::<Bytes>(4);
    let mut registry = ModuleRegistry::new(egress.clone());
    let (mut module_rx, _egress) = registry.register(0x00, 8);
    let router = registry.build();
    let (client_router, mut client_rx) = Daemon::session(&router, &egress);
    assert!(client_router.has_route(0x00));
    assert!(!client_router.has_route(0x01));
    egress.send(Bytes::from_static(b"delta")).unwrap();
    assert_eq!(&client_rx.try_recv().unwrap()[..], b"delta");
    let (sender, message) = client_router.route(0x00, 0x01, Bytes::new()).ok().unwrap();
    sender.try_send(message).unwrap();
    assert_eq!(module_rx.try_recv().unwrap().0, 0x01);
}

#[test]
fn ingress_delivers_encoded_frame() {
    let (egress, _rx) = broadcast::channel::<Bytes>(4);
    let mut registry = ModuleRegistry::new(egress);
    let (mut module_rx, _egress) = registry.register(0x00, 8);
    let router = registry.build();
    let frame = encode_frame(0x00, 0x02, b"pong");
    match Dispatcher::ingress(&router, BytesMut::from(&frame[..])) {
        Ingress::Deliver { module_tag, sender, message } => {
            assert_eq!(module_tag, 0x00);
            assert_eq!(message.0, 0x02);
            assert_eq!(&message.1[..], b"pong");
            sender.try_send(message).unwrap();
        }
        _ => panic!("frame was not delivered"),
    }
    let (tag, payload) = module_rx.try_recv().unwrap();
    assert_eq!((tag, &payload[..]), (0x02, &b"pong"[..]));
}

#[test]
fn ingress_unroutable_frame() {
    let (egress, _rx) = broadcast::channel::<Bytes>(4);
    let mut registry = ModuleRegistry::new(egress);
    let _pair = registry.register(0x00, 8);
    let router = registry.build();
    match Dispatcher::ingress(&router, BytesMut::from(&[0x09u8, 0x01, 0x00][..])) {
        Ingress::Unroutable { module_tag } => assert_eq!(module_tag, 0x09),
        _ => panic!("expected an unroutable frame"),
    }
}

#[test]
fn ingress_short_frame() {
    let (egress, _rx) = broadcast::channel::<Bytes>(4);
    let registry = ModuleRegistry::new(egress);
    let router = registry.build();
    assert!(matches!(Dispatcher::ingress(&router, BytesMut::new()), Ingress::Malformed));
    assert!(matches!(Dispatcher::ingress(&router, BytesMut::from(&[0x00u8][..])), Ingress::Malformed));
}

#[test]
fn tennis_dispatch() {
    let payload = Bytes::from_static(b"p");
    assert!(matches!(TennisModule::dispatch(Some((0x01, payload.clone()))), TennisAction::HandlePing(ref p) if p[..] == b"p"[..]));
    assert!(matches!(TennisModule::dispatch(Some((0x02, payload.clone()))), TennisAction::HandlePong(_)));
    assert!(matches!(TennisModule::dispatch(Some((0x07, payload))), TennisAction::UnknownTag(0x07)));
    assert!(matches!(TennisModule::dispatch(None), TennisAction::ReceiveFailed));
}

#[test]
fn registered_receiver_gets_frames_for_its_tag() {
    let (egress, _rx) = broadcast::channel::<Bytes>(16);
    let mut registry = ModuleRegistry::new(egress);
    let (mut rx, _egress) = registry.register(0x00, 8);
    let router = registry.build();
    match Dispatcher::ingress(&router, BytesMut::from(&[0x00u8, 0x02, 0xAB][..])) {
        Ingress::Deliver { sender, message, .. } => sender.try_send(message).unwrap(),
        _ => panic!("frame was not delivered"),
    }
    let (tag, payload) = rx.try_recv().unwrap();
    assert_eq!((tag, &payload[..]), (0x02, &[0xABu8][..]));
    assert!(rx.try_recv().is_err());
}
