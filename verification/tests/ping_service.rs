use rust_isolate::Isolate;
use rust_isolate::IsolateChannel;
use rust_isolate::IsolateIdentity;
use rust_isolate::IsolateRuntime;
use rust_isolate::IsolateRuntimeRef;
use rust_isolate::IsolateRuntimeWait;

struct PingService {}

impl Isolate<String> for PingService {
    fn spawn(
        &self,
        _identity: IsolateIdentity,
        channel: IsolateChannel<String>,
        _runtime: IsolateRuntimeRef<String>,
    ) {
        loop {
            match channel.receive_timeout(100) {
                Ok(r) => {
                    if r == "" {
                        break;
                    }
                }
                Err(e) => {
                    if e != rust_isolate::IsolateChannelError::Timeout {
                        break;
                    }
                }
            }
            channel.sender.send("PING".to_string()).unwrap();
        }
    }
}

#[test]
pub fn ping_service_main() {
    let mut runtime = IsolateRuntime::new(PingService {});

    let c1 = runtime.spawn().unwrap();
    let c2 = runtime.spawn().unwrap();
    let c3 = runtime.spawn().unwrap();

    test_isolate(c1);
    test_isolate(c2);
    test_isolate(c3);

    IsolateRuntimeWait::wait(&runtime);
}

fn test_isolate(channel: IsolateChannel<String>) {
    for _ in 1..10 {
        let value_out = channel.receiver.recv().unwrap();
        assert_eq!("PING", value_out)
    }
    channel.sender.send("".to_string()).unwrap();
}
