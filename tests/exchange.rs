use tcp_latency::framing::LineFramer;
use tcp_latency::plan::{plan_session, Config, Role, Variant};
use tcp_latency::session::{
    receive_step, send_step, ReceiverAction, ReceiverEvent, ReceiverState, SenderAction,
    SenderEvent, SenderState,
};

/// One end's sender and the other end's receiver over one connection: the
/// message bytes go one way, the acknowledgment the other.
struct Direction {
    sender: SenderState,
    receiver: ReceiverState,
    to_receiver: LineFramer,
    to_sender: LineFramer,
}

impl Direction {
    fn new() -> Direction {
        Direction {
            sender: SenderState::AwaitInput,
            receiver: ReceiverState::AwaitLine,
            to_receiver: LineFramer::new(),
            to_sender: LineFramer::new(),
        }
    }

    /// The sender transmits `line` toward the receiver.
    fn send(&mut self, line: &str) {
        let (s, a) = send_step(self.sender, SenderEvent::Input(line.as_bytes().to_vec()));
        match a {
            SenderAction::Transmit(b) => self.to_receiver.push(&b),
            _ => panic!("no transmit"),
        }
        let (s, a) = send_step(s, SenderEvent::Written);
        assert!(matches!(a, SenderAction::ReadAck));
        self.sender = s;
    }

    /// The receiver takes one line and acknowledges it; returns the text.
    fn receive(&mut self, ack: &str) -> String {
        let frame = self.to_receiver.take_frame(false).expect("no frame");
        let (r, a) = receive_step(self.receiver, ReceiverEvent::Line(frame), ack);
        let text = match a {
            ReceiverAction::Deliver { text, ack } => {
                self.to_sender.push(&ack);
                text
            }
            _ => panic!("no delivery"),
        };
        let (r, a) = receive_step(r, ReceiverEvent::Written, ack);
        assert!(matches!(a, ReceiverAction::ReadLine));
        self.receiver = r;
        text
    }

    /// The sender takes the acknowledgment; returns the reported time.
    fn ack(&mut self, secs: u64, nanos: u32, expected: &str) -> u128 {
        let frame = self.to_sender.take_frame(false).expect("no ack");
        assert_eq!(frame, expected.as_bytes().to_vec());
        let (s, a) = send_step(self.sender, SenderEvent::Ack { frame, secs, nanos });
        self.sender = s;
        match a {
            SenderAction::Report(us) => us,
            _ => panic!("no report"),
        }
    }
}

#[test]
fn hello_round_trip_between_listener_and_dialer() {
    let c = Config::standard();
    let listener = plan_session(&c, Role::Listener, Variant::DualSocket);
    assert_eq!(listener.listen.as_deref(), Some("0.0.0.0:8001"));
    let mut d = Direction::new();
    d.send("hello\n");
    let text = d.receive(&c.ack);
    assert_eq!(text.trim_end_matches('\n'), "hello");
    let us = d.ack(0, 1_500, "message received\n");
    assert!(us > 0);
    assert_eq!(us, 1);
    assert_eq!(d.sender, SenderState::AwaitInput);
}

#[test]
fn n_messages_give_n_acks_in_order() {
    let c = Config::standard();
    let mut d = Direction::new();
    let mut reports = Vec::new();
    for i in 0..7u32 {
        d.send(&format!("msg {}\n", i));
        assert_eq!(d.receive(&c.ack), format!("msg {}\n", i));
        reports.push(d.ack(0, (i + 1) * 1_000, "message received\n"));
    }
    assert_eq!(reports, vec![1, 2, 3, 4, 5, 6, 7]);
    assert!(d.to_sender.take_frame(false).is_none());
}

#[test]
fn two_directions_do_not_cross() {
    let c = Config::standard();
    let a_plan = plan_session(&c, Role::Dialer, Variant::DualSocket);
    let b_plan = plan_session(&c, Role::Listener, Variant::DualSocket);
    assert_eq!(a_plan.dial_port.as_deref(), Some("8001"));
    assert_eq!(b_plan.listen.as_deref(), Some("0.0.0.0:8001"));
    assert_eq!(b_plan.dial_port.as_deref(), Some("8002"));
    assert_eq!(a_plan.listen.as_deref(), Some("0.0.0.0:8002"));

    let mut a_to_b = Direction::new();
    let mut b_to_a = Direction::new();
    a_to_b.send("from a\n");
    b_to_a.send("from b\n");
    assert!(!a_to_b.to_sender.has_frame());
    assert!(!b_to_a.to_sender.has_frame());
    assert_eq!(b_to_a.receive("ack b\n"), "from b\n");
    assert!(!a_to_b.to_sender.has_frame());
    assert_eq!(a_to_b.receive("ack a\n"), "from a\n");
    assert_eq!(a_to_b.ack(0, 3_000, "ack a\n"), 3);
    assert_eq!(b_to_a.ack(0, 4_000, "ack b\n"), 4);
    assert!(!a_to_b.to_receiver.has_frame());
    assert!(!b_to_a.to_receiver.has_frame());
}
