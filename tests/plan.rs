use tcp_latency::plan::{
    dial_target, plan_session, select_mode, Channel, Config, Mode, Role, Variant,
};

fn args(v: &[&str]) -> Vec<String> {
    v.iter().map(|s| s.to_string()).collect()
}

#[test]
fn standard_config_values() {
    let c = Config::standard();
    assert_eq!(c.server_port, "8001");
    assert_eq!(c.client_port, "8002");
    assert_eq!(c.ack, "message received\n");
}

#[test]
fn no_argument_selects_server() {
    assert!(matches!(select_mode(&args(&["prog"])), Mode::Server));
}

#[test]
fn one_argument_selects_client() {
    match select_mode(&args(&["prog", "10.0.0.2"])) {
        Mode::Client(h) => assert_eq!(h, "10.0.0.2"),
        m => panic!("unexpected mode {:?}", m),
    }
}

#[test]
fn other_argument_counts_are_usage_errors() {
    assert!(matches!(select_mode(&args(&[])), Mode::Usage));
    assert!(matches!(select_mode(&args(&["prog", "a", "b"])), Mode::Usage));
}

#[test]
fn dual_socket_listener_plan() {
    let c = Config::standard();
    let p = plan_session(&c, Role::Listener, Variant::DualSocket);
    assert_eq!(p.listen.as_deref(), Some("0.0.0.0:8001"));
    assert_eq!(p.dial_port.as_deref(), Some("8002"));
    assert!(!p.dial_first);
    assert!(p.serve_repeatedly);
    assert!(p.dial_failure_fatal);
    assert!(p.announce_bind);
    assert!(!p.announce_dial);
    assert_eq!(p.send_on, Channel::Dialed);
    assert_eq!(p.receive_on, Channel::Accepted);
    assert_eq!(dial_target(&p, "192.168.1.7").as_deref(), Some("192.168.1.7:8002"));
}

#[test]
fn dual_socket_dialer_plan() {
    let c = Config::standard();
    let p = plan_session(&c, Role::Dialer, Variant::DualSocket);
    assert_eq!(p.listen.as_deref(), Some("0.0.0.0:8002"));
    assert_eq!(p.dial_port.as_deref(), Some("8001"));
    assert!(p.dial_first);
    assert!(!p.serve_repeatedly);
    assert!(p.dial_failure_fatal);
    assert!(!p.announce_bind);
    assert!(p.announce_dial);
    assert_eq!(p.send_on, Channel::Dialed);
    assert_eq!(p.receive_on, Channel::Accepted);
    assert_eq!(dial_target(&p, "10.0.0.1").as_deref(), Some("10.0.0.1:8001"));
}

#[test]
fn single_socket_plans_share_one_connection() {
    let c = Config::standard();
    let l = plan_session(&c, Role::Listener, Variant::SingleSocket);
    assert_eq!(l.listen.as_deref(), Some("0.0.0.0:8001"));
    assert!(l.dial_port.is_none());
    assert!(dial_target(&l, "10.0.0.1").is_none());
    assert!(!l.serve_repeatedly);
    assert_eq!(l.send_on, Channel::Accepted);
    assert_eq!(l.receive_on, Channel::Accepted);
    let d = plan_session(&c, Role::Dialer, Variant::SingleSocket);
    assert!(d.listen.is_none());
    assert_eq!(dial_target(&d, "10.0.0.1").as_deref(), Some("10.0.0.1:8001"));
    assert!(!d.dial_failure_fatal);
    assert_eq!(d.send_on, Channel::Dialed);
    assert_eq!(d.receive_on, Channel::Dialed);
}

#[test]
fn custom_ports_are_used() {
    let c = Config {
        server_port: "9000".to_string(),
        client_port: "9001".to_string(),
        ack: "ok\n".to_string(),
    };
    let p = plan_session(&c, Role::Dialer, Variant::DualSocket);
    assert_eq!(p.listen.as_deref(), Some("0.0.0.0:9001"));
    assert_eq!(dial_target(&p, "h").as_deref(), Some("h:9000"));
}
