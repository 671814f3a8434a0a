use vstd::prelude::*;
use vstd::utf8::{decode_utf8, encode_utf8, valid_utf8};
use crate::timing::{elapsed_micros, micros_spec};

verus! {

/// Why a loop of a session stopped.
#[derive(Clone, Copy, Debug, PartialEq, Eq, Structural)]
pub enum StopReason {
    /// The local input ended: a clean stop.
    EndOfInput,
    /// The peer closed the stream: a zero-length read.
    PeerClosed,
    /// Reading the local input failed.
    InputFailed,
    /// Writing to the connection failed.
    WriteFailed,
    /// Reading from the connection failed.
    ReadFailed,
    /// A frame was not valid UTF-8 text.
    BadEncoding,
}

impl StopReason {
    /// Whether the stop is a session error, to be reported as such.
    pub open spec fn is_error_spec(self) -> bool {
        !(self is EndOfInput || self is PeerClosed)
    }

    pub fn is_error(&self) -> (r: bool)
        ensures
            r == self.is_error_spec(),
    {
        match self {
            StopReason::EndOfInput | StopReason::PeerClosed => false,
            _ => true,
        }
    }
}

/// Relies on std::str::from_utf8: it accepts exactly the well-formed UTF-8
/// byte sequences and reads their characters.
#[verifier::external_body]
fn decode_text(bytes: &[u8]) -> (r: Option<String>)
    ensures
        r is Some <==> valid_utf8(bytes@),
        match r {
            Some(s) => s@ == decode_utf8(bytes@),
            None => true,
        },
{
    match std::str::from_utf8(bytes) {
        Ok(s) => Some(s.to_string()),
        Err(_) => None,
    }
}

/// Where the sender loop stands.
#[derive(Clone, Copy, Debug, PartialEq, Eq, Structural)]
pub enum SenderState {
    /// Waiting for a line of local input.
    AwaitInput,
    /// Writing a line to the outbound connection.
    Transmitting,
    /// Waiting for the acknowledgment of the line just written.
    AwaitAck,
    /// Stopped for good.
    Closed,
}

/// What the sender loop learned from the work it was last asked to do.
pub enum SenderEvent {
    /// Bytes of one line of local input; none at the end of the input.
    Input(Vec<u8>),
    /// Reading the local input failed.
    InputFailed,
    /// The line was written whole.
    Written,
    /// Writing the line failed.
    WriteFailed,
    /// A frame read off the acknowledgment channel (empty when the peer
    /// closed it), with the time since the write began.
    Ack { frame: Vec<u8>, secs: u64, nanos: u32 },
    /// Reading the acknowledgment channel failed.
    ReadFailed,
}

/// What the sender loop is to do next.
pub enum SenderAction {
    /// Read one line of local input.
    ReadInput,
    /// Start the timer and write these bytes to the outbound connection.
    Transmit(Vec<u8>),
    /// Read one frame off the acknowledgment channel.
    ReadAck,
    /// Report this round-trip time in microseconds, then read input.
    Report(u128),
    /// Stop the loop.
    Stop(StopReason),
}

/// The events that the sender can receive in `state`: each answers the
/// action that led there. A stopped sender receives none.
pub open spec fn sender_accepts(state: SenderState, event: SenderEvent) -> bool {
    match state {
        SenderState::AwaitInput => event is Input || event is InputFailed,
        SenderState::Transmitting => event is Written || event is WriteFailed,
        SenderState::AwaitAck => event is Ack || event is ReadFailed,
        SenderState::Closed => false,
    }
}

impl SenderState {
    pub fn accepts(&self, event: &SenderEvent) -> (r: bool)
        ensures
            r == sender_accepts(*self, *event),
    {
        match self {
            SenderState::AwaitInput => match event {
                SenderEvent::Input(_) | SenderEvent::InputFailed => true,
                _ => false,
            },
            SenderState::Transmitting => match event {
                SenderEvent::Written | SenderEvent::WriteFailed => true,
                _ => false,
            },
            SenderState::AwaitAck => match event {
                SenderEvent::Ack { .. } | SenderEvent::ReadFailed => true,
                _ => false,
            },
            SenderState::Closed => false,
        }
    }
}

/// One message is outstanding at a time: while a line is being written or
/// awaits its acknowledgment, the sender takes no further input, so each
/// acknowledgment it reads answers the one line it last sent.
pub proof fn lemma_one_message_outstanding(event: SenderEvent)
    ensures
        sender_accepts(SenderState::Transmitting, event) ==> !(event is Input),
        sender_accepts(SenderState::AwaitAck, event) ==> !(event is Input),
        sender_accepts(SenderState::AwaitInput, event) ==> !(event is Ack),
{
}

/// One step of the sender loop: from its state and the outcome of the
/// last action, the next state and action.
///
/// A line of input is transmitted verbatim; the end of input stops the
/// loop cleanly. After a write the loop waits for exactly one
/// acknowledgment before it reads input again. An empty acknowledgment
/// frame means the peer closed the channel; one that is not UTF-8 text
/// stops the loop; a good one reports the elapsed time.
pub fn send_step(state: SenderState, event: SenderEvent) -> (r: (SenderState, SenderAction))
    requires
        sender_accepts(state, event),
    ensures
        match event {
            SenderEvent::Input(line) => if line@.len() == 0 {
                r.0 == SenderState::Closed && r.1 == SenderAction::Stop(StopReason::EndOfInput)
            } else {
                r.0 == SenderState::Transmitting && (r.1 matches SenderAction::Transmit(b) && b@
                    == line@)
            },
            SenderEvent::InputFailed => r.0 == SenderState::Closed && r.1 == SenderAction::Stop(
                StopReason::InputFailed,
            ),
            SenderEvent::Written => r.0 == SenderState::AwaitAck && r.1 == SenderAction::ReadAck,
            SenderEvent::WriteFailed => r.0 == SenderState::Closed && r.1 == SenderAction::Stop(
                StopReason::WriteFailed,
            ),
            SenderEvent::Ack { frame, secs, nanos } => if frame@.len() == 0 {
                r.0 == SenderState::Closed && r.1 == SenderAction::Stop(StopReason::PeerClosed)
            } else if !valid_utf8(frame@) {
                r.0 == SenderState::Closed && r.1 == SenderAction::Stop(StopReason::BadEncoding)
            } else {
                r.0 == SenderState::AwaitInput && r.1 == SenderAction::Report(
                    micros_spec(secs as int, nanos as int) as u128,
                )
            },
            SenderEvent::ReadFailed => r.0 == SenderState::Closed && r.1 == SenderAction::Stop(
                StopReason::ReadFailed,
            ),
        },
{
    match event {
        SenderEvent::Input(line) => {
            if line.len() == 0 {
                (SenderState::Closed, SenderAction::Stop(StopReason::EndOfInput))
            } else {
                (SenderState::Transmitting, SenderAction::Transmit(line))
            }
        },
        SenderEvent::InputFailed => (
            SenderState::Closed,
            SenderAction::Stop(StopReason::InputFailed),
        ),
        SenderEvent::Written => (SenderState::AwaitAck, SenderAction::ReadAck),
        SenderEvent::WriteFailed => (
            SenderState::Closed,
            SenderAction::Stop(StopReason::WriteFailed),
        ),
        SenderEvent::Ack { frame, secs, nanos } => {
            if frame.len() == 0 {
                (SenderState::Closed, SenderAction::Stop(StopReason::PeerClosed))
            } else {
                match decode_text(frame.as_slice()) {
                    None => (SenderState::Closed, SenderAction::Stop(StopReason::BadEncoding)),
                    Some(_) => (
                        SenderState::AwaitInput,
                        SenderAction::Report(elapsed_micros(secs, nanos)),
                    ),
                }
            }
        },
        SenderEvent::ReadFailed => (
            SenderState::Closed,
            SenderAction::Stop(StopReason::ReadFailed),
        ),
    }
}

/// Where the receiver loop stands.
#[derive(Clone, Copy, Debug, PartialEq, Eq, Structural)]
pub enum ReceiverState {
    /// Waiting for a line from the inbound connection.
    AwaitLine,
    /// Writing the acknowledgment of the line just received.
    Acknowledging,
    /// Stopped for good.
    Closed,
}

/// What the receiver loop learned from the work it was last asked to do.
pub enum ReceiverEvent {
    /// A frame read off the inbound connection (empty when the peer
    /// closed it).
    Line(Vec<u8>),
    /// Reading the inbound connection failed.
    ReadFailed,
    /// The acknowledgment was written whole.
    Written,
    /// Writing the acknowledgment failed.
    WriteFailed,
}

/// What the receiver loop is to do next.
pub enum ReceiverAction {
    /// Read one frame off the inbound connection.
    ReadLine,
    /// Show the received text, then write the acknowledgment bytes.
    Deliver { text: String, ack: Vec<u8> },
    /// Stop the loop.
    Stop(StopReason),
}

/// The events that the receiver can receive in `state`. A stopped
/// receiver receives none.
pub open spec fn receiver_accepts(state: ReceiverState, event: ReceiverEvent) -> bool {
    match state {
        ReceiverState::AwaitLine => event is Line || event is ReadFailed,
        ReceiverState::Acknowledging => event is Written || event is WriteFailed,
        ReceiverState::Closed => false,
    }
}

impl ReceiverState {
    pub fn accepts(&self, event: &ReceiverEvent) -> (r: bool)
        ensures
            r == receiver_accepts(*self, *event),
    {
        match self {
            ReceiverState::AwaitLine => match event {
                ReceiverEvent::Line(_) | ReceiverEvent::ReadFailed => true,
                _ => false,
            },
            ReceiverState::Acknowledging => match event {
                ReceiverEvent::Written | ReceiverEvent::WriteFailed => true,
                _ => false,
            },
            ReceiverState::Closed => false,
        }
    }
}

/// One step of the receiver loop: from its state and the outcome of the
/// last action, the next state and action.
///
/// A received line is shown and then acknowledged with the bytes of `ack`;
/// after the acknowledgment is written the loop reads the next line. An
/// empty frame means the peer closed the connection; one that is not UTF-8
/// text stops the loop.
pub fn receive_step(state: ReceiverState, event: ReceiverEvent, ack: &str) -> (r: (
    ReceiverState,
    ReceiverAction,
))
    requires
        receiver_accepts(state, event),
    ensures
        match event {
            ReceiverEvent::Line(frame) => if frame@.len() == 0 {
                r.0 == ReceiverState::Closed && r.1 == ReceiverAction::Stop(StopReason::PeerClosed)
            } else if !valid_utf8(frame@) {
                r.0 == ReceiverState::Closed && r.1 == ReceiverAction::Stop(
                    StopReason::BadEncoding,
                )
            } else {
                r.0 == ReceiverState::Acknowledging && (r.1 matches ReceiverAction::Deliver {
                    text,
                    ack: a,
                } && text@ == decode_utf8(frame@) && a@ == encode_utf8(ack@))
            },
            ReceiverEvent::ReadFailed => r.0 == ReceiverState::Closed && r.1
                == ReceiverAction::Stop(StopReason::ReadFailed),
            ReceiverEvent::Written => r.0 == ReceiverState::AwaitLine && r.1
                == ReceiverAction::ReadLine,
            ReceiverEvent::WriteFailed => r.0 == ReceiverState::Closed && r.1
                == ReceiverAction::Stop(StopReason::WriteFailed),
        },
{
    match event {
        ReceiverEvent::Line(frame) => {
            if frame.len() == 0 {
                (ReceiverState::Closed, ReceiverAction::Stop(StopReason::PeerClosed))
            } else {
                match decode_text(frame.as_slice()) {
                    None => (ReceiverState::Closed, ReceiverAction::Stop(StopReason::BadEncoding)),
                    Some(text) => {
                        let bytes = vstd::slice::slice_to_vec(ack.as_bytes());
                        (ReceiverState::Acknowledging, ReceiverAction::Deliver { text, ack: bytes })
                    },
                }
            }
        },
        ReceiverEvent::ReadFailed => (
            ReceiverState::Closed,
            ReceiverAction::Stop(StopReason::ReadFailed),
        ),
        ReceiverEvent::Written => (ReceiverState::AwaitLine, ReceiverAction::ReadLine),
        ReceiverEvent::WriteFailed => (
            ReceiverState::Closed,
            ReceiverAction::Stop(StopReason::WriteFailed),
        ),
    }
}

} // verus!
