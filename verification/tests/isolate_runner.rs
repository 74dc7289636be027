use rust_isolate::Isolate;
use rust_isolate::IsolateChannel;
use rust_isolate::IsolateIdentity;
use rust_isolate::IsolateRuntime;
use rust_isolate::IsolateRuntimeRef;

struct TestIsolate {}

#[derive(Debug, Clone)]
enum TestIsolateEvent {
    Open,
    Who,
    Identity(IsolateIdentity),
    Peer(IsolateIdentity),
    PeerGot,
}

impl Isolate<TestIsolateEvent> for TestIsolate {
    fn spawn(
        &self,
        identity: IsolateIdentity,
        channel: IsolateChannel<TestIsolateEvent>,
        runtime: IsolateRuntimeRef<TestIsolateEvent>,
    ) {
        loop {
            match channel.receiver.recv() {
                Ok(v) => match v {
                    TestIsolateEvent::Who => {
                        let _ = channel.sender.send(TestIsolateEvent::Identity(identity));
                    }
                    TestIsolateEvent::Peer(id) => {
                        // Locate the peer by identity and greet it directly.
                        if let Some(peer) = runtime.find(&id) {
                            let _ = peer.sender.send(TestIsolateEvent::PeerGot);
                        }
                    }
                    _ => {
                        let _ = channel.sender.send(v);
                    }
                },
                Err(_) => break,
            }
        }
    }
}

#[test]
pub fn isolate_runner_test_create_runner() {
    let _ = IsolateRuntime::new(TestIsolate {});
}

#[test]
pub fn isolate_runner_test_spawn_worker() {
    let mut runner = IsolateRuntime::new(TestIsolate {});

    let channel = runner.spawn().unwrap();
    channel.sender.send(TestIsolateEvent::Open).unwrap();
    let output = channel.receiver.recv().unwrap();

    match output {
        TestIsolateEvent::Open => {}
        _ => unreachable!(),
    }
}

#[test]
pub fn isolate_runner_test_halt_runner() {
    let mut runner = IsolateRuntime::new(TestIsolate {});

    {
        let channel = runner.spawn().unwrap();
        channel.sender.send(TestIsolateEvent::Open).unwrap();
    }

    runner.halt();
}

#[test]
pub fn test_peer_to_peer() {
    let mut runner = IsolateRuntime::new(TestIsolate {});
    let channel1 = runner.spawn().unwrap();
    let channel2 = runner.spawn().unwrap();

    channel1.sender.send(TestIsolateEvent::Who).unwrap();
    let id = channel1.receiver.recv().unwrap();
    println!("Resp: {:?}", id);
    match id {
        TestIsolateEvent::Identity(i) => {
            channel2.sender.send(TestIsolateEvent::Peer(i)).unwrap();
            let output = channel1.receiver.recv().unwrap();
            match output {
                TestIsolateEvent::PeerGot => {}
                _ => unreachable!(),
            }
        }
        _ => unreachable!(),
    }
}
