use vstd::prelude::*;
use vstd::string::StringExecFns;
use crate::address::{addr_spec, get_addr};

verus! {

/// The host a listener binds: every local interface.
pub const ANY_HOST: &'static str = "0.0.0.0";

/// The fixed settings that both peers must agree on.
pub struct Config {
    /// The port of the channel that carries the listener's inbound
    /// messages (and, with one socket, everything).
    pub server_port: String,
    /// The port of the channel that carries the dialer's inbound messages.
    pub client_port: String,
    /// The acknowledgment line, delimiter included.
    pub ack: String,
}

impl Config {
    /// The well-known ports and acknowledgment.
    pub fn standard() -> (r: Config)
        ensures
            r.server_port@ == "8001"@,
            r.client_port@ == "8002"@,
            r.ack@ == "message received\n"@,
    {
        Config {
            server_port: String::from_str("8001"),
            client_port: String::from_str("8002"),
            ack: String::from_str("message received\n"),
        }
    }
}

/// What the process was asked to be.
#[derive(Debug)]
pub enum Mode {
    /// Listen for a peer.
    Server,
    /// Dial the peer at this host.
    Client(String),
    /// The arguments make no sense: show how to call the program.
    Usage,
}

/// Picks the mode from the program's arguments, the program's own name
/// first: no further argument makes a server, one (the peer's host) a
/// client, and anything else a usage error.
pub fn select_mode(args: &Vec<String>) -> (r: Mode)
    ensures
        args@.len() == 1 ==> r is Server,
        args@.len() == 2 ==> (r matches Mode::Client(h) && h@ == args@[1]@),
        args@.len() != 1 && args@.len() != 2 ==> r is Usage,
{
    if args.len() == 1 {
        Mode::Server
    } else if args.len() == 2 {
        Mode::Client(args[1].clone())
    } else {
        Mode::Usage
    }
}

/// The side a process takes when the connections are set up.
#[derive(Clone, Copy, Debug, PartialEq, Eq, Structural)]
pub enum Role {
    Listener,
    Dialer,
}

/// How the two directions of a session are carried.
#[derive(Clone, Copy, Debug, PartialEq, Eq, Structural)]
pub enum Variant {
    /// One connection carries both directions.
    SingleSocket,
    /// Each direction has a connection of its own, on a port of its own.
    DualSocket,
}

/// One of the connections that a process sets up.
#[derive(Clone, Copy, Debug, PartialEq, Eq, Structural)]
pub enum Channel {
    /// The connection that a peer opened to our listener.
    Accepted,
    /// The connection that we opened to the peer.
    Dialed,
}

/// How a process sets up its session: what it binds, what it dials and in
/// which order, and which connection each loop uses.
pub struct SessionPlan {
    /// The local address to bind and accept on, if any.
    pub listen: Option<String>,
    /// The peer's port to dial, if any. A dialer dials the host it was
    /// given; a listener dials back the host of the peer it accepted.
    pub dial_port: Option<String>,
    /// Whether to dial before accepting (else accept, then dial back).
    pub dial_first: bool,
    /// Whether the listener keeps accepting peers, one session each.
    pub serve_repeatedly: bool,
    /// Whether a failed dial ends the process (else only the attempt).
    pub dial_failure_fatal: bool,
    /// Whether a successful bind is reported.
    pub announce_bind: bool,
    /// Whether a successful dial is reported.
    pub announce_dial: bool,
    /// The connection the sender loop writes messages to and reads
    /// acknowledgments from.
    pub send_on: Channel,
    /// The connection the receiver loop reads messages from and writes
    /// acknowledgments to.
    pub receive_on: Channel,
}

/// The address `port` on every local interface.
pub open spec fn any_host_addr(port: Seq<char>) -> Seq<char> {
    addr_spec("0.0.0.0"@, port)
}

/// Who binds, who dials, and on which port, for each role and variant.
///
/// With one socket the listener binds the server port and the dialer dials
/// it; both loops share that connection, and a failed dial ends only the
/// attempt. With two sockets each side binds the port of its own inbound
/// direction and dials the peer's: the dialer first dials the server port
/// and then accepts on the client port; the listener accepts on the server
/// port and dials the accepted peer back on the client port. Messages go
/// out on the dialed connection and come in on the accepted one, and a
/// failed dial ends the process, since half a duplex carries nothing.
pub fn plan_session(config: &Config, role: Role, variant: Variant) -> (r: SessionPlan)
    ensures
        r.serve_repeatedly == (role == Role::Listener && variant == Variant::DualSocket),
        r.dial_failure_fatal == (variant == Variant::DualSocket),
        r.announce_bind == (role == Role::Listener),
        r.announce_dial == (role == Role::Dialer),
        r.dial_first == (role == Role::Dialer),
        variant == Variant::SingleSocket && role == Role::Listener ==> {
            &&& (r.listen matches Some(a) && a@ == any_host_addr(config.server_port@))
            &&& r.dial_port is None
            &&& r.send_on == Channel::Accepted
            &&& r.receive_on == Channel::Accepted
        },
        variant == Variant::SingleSocket && role == Role::Dialer ==> {
            &&& r.listen is None
            &&& (r.dial_port matches Some(p) && p@ == config.server_port@)
            &&& r.send_on == Channel::Dialed
            &&& r.receive_on == Channel::Dialed
        },
        variant == Variant::DualSocket && role == Role::Listener ==> {
            &&& (r.listen matches Some(a) && a@ == any_host_addr(config.server_port@))
            &&& (r.dial_port matches Some(p) && p@ == config.client_port@)
            &&& r.send_on == Channel::Dialed
            &&& r.receive_on == Channel::Accepted
        },
        variant == Variant::DualSocket && role == Role::Dialer ==> {
            &&& (r.listen matches Some(a) && a@ == any_host_addr(config.client_port@))
            &&& (r.dial_port matches Some(p) && p@ == config.server_port@)
            &&& r.send_on == Channel::Dialed
            &&& r.receive_on == Channel::Accepted
        },
{
    proof {
        reveal_strlit("0.0.0.0");
    }
    let listener = match role {
        Role::Listener => true,
        Role::Dialer => false,
    };
    match variant {
        Variant::SingleSocket => {
            if listener {
                SessionPlan {
                    listen: Some(get_addr(ANY_HOST, config.server_port.as_str())),
                    dial_port: None,
                    dial_first: false,
                    serve_repeatedly: false,
                    dial_failure_fatal: false,
                    announce_bind: true,
                    announce_dial: false,
                    send_on: Channel::Accepted,
                    receive_on: Channel::Accepted,
                }
            } else {
                SessionPlan {
                    listen: None,
                    dial_port: Some(config.server_port.clone()),
                    dial_first: true,
                    serve_repeatedly: false,
                    dial_failure_fatal: false,
                    announce_bind: false,
                    announce_dial: true,
                    send_on: Channel::Dialed,
                    receive_on: Channel::Dialed,
                }
            }
        },
        Variant::DualSocket => {
            let (bind_port, dial_port) = if listener {
                (config.server_port.as_str(), config.client_port.clone())
            } else {
                (config.client_port.as_str(), config.server_port.clone())
            };
            SessionPlan {
                listen: Some(get_addr(ANY_HOST, bind_port)),
                dial_port: Some(dial_port),
                dial_first: !listener,
                serve_repeatedly: listener,
                dial_failure_fatal: true,
                announce_bind: listener,
                announce_dial: !listener,
                send_on: Channel::Dialed,
                receive_on: Channel::Accepted,
            }
        },
    }
}

/// The address to dial for `plan`: the peer's host at the planned port.
pub fn dial_target(plan: &SessionPlan, peer_host: &str) -> (r: Option<String>)
    ensures
        match plan.dial_port {
            Some(p) => r matches Some(a) && a@ == addr_spec(peer_host@, p@),
            None => r is None,
        },
{
    match &plan.dial_port {
        Some(port) => Some(get_addr(peer_host, port.as_str())),
        None => None,
    }
}

} // verus!
