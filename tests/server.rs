use stab::config::{apply_args, default_config, StabArgs};
use stab::message::Msg;
use stab::pool::TcpPool;
use stab::registry::{CtlConns, CtlOpt};
use stab::server::{
    auth, finished_pairing, first_message_action, keep_accepting, new_tunnel_info, pairing_step, prime_requests,
    FirstAction, PairingStep,
};

fn args_with_secret(secret: &str) -> StabArgs {
    StabArgs {
        mode: None,
        file: None,
        control_port: None,
        log: None,
        log_path: None,
        secret: Some(secret.to_string()),
        link: None,
        port_range: None,
        web_port: None,
        pool_size: None,
    }
}

fn hashed(secret: &str) -> String {
    let mut cfg = default_config();
    apply_args(&mut cfg, args_with_secret(secret)).unwrap();
    cfg.secret.unwrap()
}

#[test]
fn secret_is_stored_as_sha256_hex() {
    assert_eq!(
        hashed("abc"),
        "ba7816bf8f01cfea414140de5dae2223b00361a396177a9cb410ff61f20015ad"
    );
}

#[test]
fn auth_cases() {
    let s = Some(hashed("s"));
    let t = Some(hashed("t"));
    assert!(auth(&None, &None));
    assert!(auth(&s, &s.clone()));
    assert!(!auth(&s, &t));
    assert!(!auth(&s, &None));
    assert!(!auth(&None, &t));
    assert!(!auth(&Some("ab".to_string()), &Some("abc".to_string())));
}

#[test]
fn init_port_without_secret_opens_tunnel() {
    let a = first_message_action(&None, Msg::InitPort(0, None));
    assert!(matches!(a, FirstAction::OpenTunnel(0)));
}

#[test]
fn wrong_secret_is_refused() {
    let server = Some(hashed("s"));
    let a = first_message_action(&server, Msg::InitPort(0, Some(hashed("t"))));
    match a {
        FirstAction::Refuse(Msg::Error(reason)) => assert_eq!(reason, "auth failed"),
        other => panic!("unexpected action {:?}", other),
    }
    let c = first_message_action(&server, Msg::Connect(10000, None));
    assert!(matches!(c, FirstAction::Refuse(Msg::Error(_))));
}

#[test]
fn connect_with_secret_joins_pool() {
    let server = Some(hashed("s"));
    let a = first_message_action(&server, Msg::Connect(10000, Some(hashed("s"))));
    assert!(matches!(a, FirstAction::JoinPool(10000)));
}

#[test]
fn other_first_message_is_refused() {
    match first_message_action(&None, Msg::Heartbeat) {
        FirstAction::Refuse(Msg::Error(reason)) => assert_eq!(reason, "unexpected message"),
        other => panic!("unexpected action {:?}", other),
    }
    let e = first_message_action(&None, Msg::Error("x".to_string()));
    assert!(matches!(e, FirstAction::Refuse(Msg::Error(_))));
}

#[test]
fn new_tunnel_starts_empty() {
    let info = new_tunnel_info(10000, "9.9.9.9:1234".to_string());
    assert_eq!(info.port, 10000);
    assert_eq!(info.src, "9.9.9.9:1234");
    assert_eq!(info.data, 0);
    assert_eq!(info.time.len(), 19);
}

#[test]
fn pool_is_primed_with_one_request_per_entry() {
    let r = prime_requests(10000, 8);
    assert_eq!(r.len(), 8);
    assert!(r.iter().all(|m| matches!(m, Msg::Connect(10000, None))));
    assert!(prime_requests(10000, 0).is_empty());
}

#[test]
fn accept_loop_runs_while_registered_and_open() {
    assert!(keep_accepting(true, false));
    assert!(!keep_accepting(false, false));
    assert!(!keep_accepting(true, true));
}

#[test]
fn pairing_steps() {
    assert!(matches!(pairing_step(10000, Some(Some(7u32))), PairingStep::Proxy(7)));
    assert!(matches!(
        pairing_step::<u32>(10000, Some(None)),
        PairingStep::Retry(Msg::Connect(10000, None))
    ));
    assert!(matches!(pairing_step::<u32>(10000, None), PairingStep::Stop));
}

#[test]
fn starved_pool_client_completes_after_replenish() {
    let mut pool: TcpPool<u32> = TcpPool::new(2);
    pool.open(10000);
    pool.add_tcp_stream(10000, 1);
    pool.add_tcp_stream(10000, 2);
    assert!(matches!(pairing_step(10000, pool.get_tcp_stream(10000)), PairingStep::Proxy(1)));
    assert!(matches!(pairing_step(10000, pool.get_tcp_stream(10000)), PairingStep::Proxy(2)));
    assert!(matches!(
        pairing_step(10000, pool.get_tcp_stream(10000)),
        PairingStep::Retry(Msg::Connect(10000, None))
    ));
    assert!(pool.add_tcp_stream(10000, 3).is_none());
    assert!(matches!(pairing_step(10000, pool.get_tcp_stream(10000)), PairingStep::Proxy(3)));
}

#[test]
fn finished_pairing_counts_only_successes() {
    let ok: Result<(u64, u64), String> = Ok((4, 4));
    let op = finished_pairing(10000, ok);
    assert!(matches!(op, Some(CtlOpt::AddData(10000, 4, 4))));
    let failed: Result<(u64, u64), String> = Err("reset".to_string());
    assert!(finished_pairing(10000, failed).is_none());
    let mut r = CtlConns::new();
    r.insert(10000, new_tunnel_info(10000, "a".to_string()));
    r.apply(op.unwrap());
    assert_eq!(r.get(10000).unwrap().data, 8);
}
