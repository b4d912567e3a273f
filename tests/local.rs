use stab::config::{Address, Link};
use stab::local::{init_port_request, init_port_result, on_control_message, LocalAction};
use stab::message::Msg;

fn link(remote_port: u16) -> Link {
    Link {
        local: Address { host: "127.0.0.1".to_string(), port: 8000 },
        remote: Address { host: "stab.com".to_string(), port: remote_port },
    }
}

#[test]
fn init_request_carries_port_and_secret() {
    let m = init_port_request(&link(10050), &Some("k".to_string()));
    match m {
        Msg::InitPort(port, secret) => {
            assert_eq!(port, 10050);
            assert_eq!(secret.as_deref(), Some("k"));
        }
        other => panic!("unexpected {:?}", other),
    }
    assert!(matches!(init_port_request(&link(0), &None), Msg::InitPort(0, None)));
}

#[test]
fn init_result_reads_reply() {
    assert_eq!(init_port_result(Msg::InitPort(10000, None)), Ok(10000));
    assert_eq!(
        init_port_result(Msg::Error("auth failed".to_string())),
        Err("auth failed".to_string())
    );
    assert_eq!(init_port_result(Msg::Heartbeat), Err("unexpect msg".to_string()));
}

#[test]
fn control_messages() {
    let secret = Some("k".to_string());
    match on_control_message(Msg::Connect(10000, None), &secret) {
        LocalAction::OpenDataStream(Msg::Connect(port, s)) => {
            assert_eq!(port, 10000);
            assert_eq!(s.as_deref(), Some("k"));
        }
        other => panic!("unexpected {:?}", other),
    }
    match on_control_message(Msg::Error("server closed this connection".to_string()), &secret) {
        LocalAction::Terminate(reason) => assert_eq!(reason, "server closed this connection"),
        other => panic!("unexpected {:?}", other),
    }
    assert!(matches!(on_control_message(Msg::Heartbeat, &secret), LocalAction::Ignore));
    assert!(matches!(
        on_control_message(Msg::InitPort(1, None), &secret),
        LocalAction::Ignore
    ));
}
