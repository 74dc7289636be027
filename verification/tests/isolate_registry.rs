use rust_isolate::Isolate;
use rust_isolate::IsolateChannel;
use rust_isolate::IsolateIdentity;
use rust_isolate::IsolateRegistry;
use rust_isolate::IsolateRegistryError;
use rust_isolate::IsolateRuntimeRef;

#[derive(Debug)]
enum PeerMessage {
    Halt,
}

#[derive(Debug)]
enum MasterMessage {
    #[allow(dead_code)]
    Halt,
}

struct SilentIsolate {}

impl Isolate<PeerMessage> for SilentIsolate {
    fn spawn(
        &self,
        _identity: IsolateIdentity,
        channel: IsolateChannel<PeerMessage>,
        _runtime: IsolateRuntimeRef<PeerMessage>,
    ) {
        loop {
            match channel.receiver.recv() {
                Ok(PeerMessage::Halt) => break,
                Err(_) => break,
            }
        }
    }
}

#[test]
pub fn test_create_registry() {
    let _ = IsolateRegistry::new();
}

// Binding the same name twice is refused, and the first binding stays.
#[test]
pub fn test_bind_rejects_duplicate_name() {
    let mut registry = IsolateRegistry::new();
    registry.bind("Peer", SilentIsolate {}).unwrap();
    match registry.bind("Peer", SilentIsolate {}) {
        Err(e) => assert_eq!(e, IsolateRegistryError::IdentityAlreadyInUse),
        Ok(_) => panic!("a bound name must not be rebound"),
    }
    assert!(registry.find::<PeerMessage>("Peer").is_ok());
}

// Looking up a name that was never bound is a miss.
#[test]
pub fn test_find_unbound_name() {
    let registry = IsolateRegistry::new();
    match registry.find::<PeerMessage>("Peer") {
        Err(e) => assert_eq!(e, IsolateRegistryError::NoMatchingIdentity),
        Ok(_) => panic!("an unbound name must not be found"),
    }
}

// Looking up a bound name under the wrong message type is a type error,
// distinct from a miss: the stored runtime must never be handed out as one
// of another type.
#[test]
pub fn test_find_with_wrong_type_fails() {
    let mut registry = IsolateRegistry::new();
    registry.bind("Peer", SilentIsolate {}).unwrap();
    match registry.find::<MasterMessage>("Peer") {
        Err(e) => assert_eq!(e, IsolateRegistryError::InvalidRuntimeType),
        Ok(_) => panic!("a name match with a type mismatch must not be usable"),
    }
    // With the right type the same name is found.
    assert!(registry.find::<PeerMessage>("Peer").is_ok());
}

// A registry reference performs the same lookups as the registry itself.
#[test]
pub fn test_registry_ref_find() {
    let mut registry = IsolateRegistry::new();
    registry.bind("Peer", SilentIsolate {}).unwrap();
    let handle = registry.as_ref();
    assert!(handle.find::<PeerMessage>("Peer").is_ok());
    match handle.find::<MasterMessage>("Peer") {
        Err(e) => assert_eq!(e, IsolateRegistryError::InvalidRuntimeType),
        Ok(_) => panic!("a name match with a type mismatch must not be usable"),
    }
}

// wait() halts every bound runtime's workers before it returns.
#[test]
pub fn test_registry_wait_halts_workers() {
    let mut registry = IsolateRegistry::new();
    let mut peers = registry.bind("Peer", SilentIsolate {}).unwrap();
    let c1 = peers.spawn().unwrap();
    let c2 = peers.spawn().unwrap();
    c1.sender.send(PeerMessage::Halt).unwrap();
    c2.sender.send(PeerMessage::Halt).unwrap();
    registry.wait();
}

// A registry reference can bind as well as find: a bind performed through
// the handle is immediately visible to the registry and to other handles,
// because they all share one directory.
#[test]
pub fn test_registry_ref_bind() {
    let registry = IsolateRegistry::new();
    let mut handle = registry.as_ref();
    handle.bind("Peer", SilentIsolate {}).unwrap();
    assert!(registry.find::<PeerMessage>("Peer").is_ok());
    assert!(registry.as_ref().find::<PeerMessage>("Peer").is_ok());
    match handle.bind("Peer", SilentIsolate {}) {
        Err(e) => assert_eq!(e, IsolateRegistryError::IdentityAlreadyInUse),
        Ok(_) => panic!("a bound name must not be rebound"),
    }
}
