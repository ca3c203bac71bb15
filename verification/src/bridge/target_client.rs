//! A device's end of a connection to the bridge daemon.

use crate::bridge::protocol::{Envelope, Hello, Incoming, Message, PeerRole, ShaderUpdate};
use vstd::prelude::*;
use vstd::string::StringExecFns;

verus! {

/// Why no connection came about.
#[derive(Debug)]
pub enum Error {
    /// Connecting, or reading the answer, failed for this reason.
    Connect(String),
    /// The connection closed, or brought something other than an
    /// acknowledgement.
    HandshakeFailed,
}

/// A connection that the daemon has acknowledged.
#[derive(Debug)]
pub struct TargetClient {
    pub session_id: String,
}

/// How far an attempt to connect got.
#[derive(Debug)]
pub enum Attempt {
    /// The daemon could not be reached, for this reason.
    Unreachable(String),
    /// It was reached, but introducing the device failed for this reason.
    Unheard(String),
    /// This was read in answer to the introduction.
    Answered(Incoming),
}

/// What came of reading from the connection once more.
#[derive(Debug)]
pub enum Received {
    /// A shader to run.
    Update(ShaderUpdate),
    /// Nothing of interest: read on.
    Skipped,
    /// The connection is over.
    Closed,
}

impl Error {
    /// The sentence for this error.
    pub open spec fn sentence(self) -> Seq<char> {
        match self {
            Error::Connect(reason) => "failed to connect: "@ + reason@,
            Error::HandshakeFailed =>
                "connection closed or sent an unexpected response before HelloAck"@,
        }
    }

    /// The sentence for this error.
    pub fn message(&self) -> (s: String)
        ensures
            s@ == self.sentence(),
    {
        match self {
            Error::Connect(reason) => {
                let mut s = "failed to connect: ".to_string();
                s.append(reason.as_str());
                s
            },
            Error::HandshakeFailed => "connection closed or sent an unexpected response before HelloAck".to_string(),
        }
    }
}

/// The introduction of a device.
pub fn hello(display_name: String) -> (envelope: Envelope)
    ensures
        envelope == (Envelope {
            message: Some(Message::Hello(Hello { role: PeerRole::Target, display_name })),
        }),
{
    Envelope { message: Some(Message::Hello(Hello { role: PeerRole::Target, display_name })) }
}

/// What the daemon's answer to an introduction amounts to.
pub open spec fn handshake(response: Incoming) -> Result<TargetClient, Error> {
    match response {
        Incoming::Failed(reason) => Err(Error::Connect(reason)),
        Incoming::Envelope(envelope) => match envelope.message {
            Some(Message::HelloAck(ack)) => Ok(TargetClient { session_id: ack.session_id }),
            _ => Err(Error::HandshakeFailed),
        },
        _ => Err(Error::HandshakeFailed),
    }
}

/// What an attempt to connect amounts to.
pub open spec fn connected(attempt: Attempt) -> Result<TargetClient, Error> {
    match attempt {
        Attempt::Unreachable(reason) => Err(Error::Connect(reason)),
        Attempt::Unheard(reason) => Err(Error::Connect(reason)),
        Attempt::Answered(response) => handshake(response),
    }
}

/// What something read from an acknowledged connection amounts to. Anything
/// that is neither a shader nor the end is skipped, so that newer daemons may
/// say more.
pub open spec fn reception(incoming: Incoming) -> Received {
    match incoming {
        Incoming::Closed => Received::Closed,
        Incoming::Failed(_) => Received::Closed,
        Incoming::Envelope(envelope) => match envelope.message {
            Some(Message::ShaderUpdate(update)) => Received::Update(update),
            _ => Received::Skipped,
        },
        _ => Received::Skipped,
    }
}

impl TargetClient {
    /// Judges an attempt to connect: the device said `hello`, and the daemon
    /// must have acknowledged it.
    pub fn connect(attempt: Attempt) -> (client: Result<TargetClient, Error>)
        ensures
            client == connected(attempt),
    {
        match attempt {
            Attempt::Unreachable(reason) => Err(Error::Connect(reason)),
            Attempt::Unheard(reason) => Err(Error::Connect(reason)),
            Attempt::Answered(Incoming::Failed(reason)) => Err(Error::Connect(reason)),
            Attempt::Answered(Incoming::Envelope(envelope)) => match envelope.message {
                Some(Message::HelloAck(ack)) => Ok(TargetClient { session_id: ack.session_id }),
                _ => Err(Error::HandshakeFailed),
            },
            Attempt::Answered(_) => Err(Error::HandshakeFailed),
        }
    }

    /// The session the daemon gave this device.
    pub fn session_id(&self) -> (id: &str)
        ensures
            id@ == self.session_id@,
    {
        self.session_id.as_str()
    }

    /// Looks at the next thing read from the connection.
    pub fn recv(&self, incoming: Incoming) -> (received: Received)
        ensures
            received == reception(incoming),
    {
        match incoming {
            Incoming::Closed => Received::Closed,
            Incoming::Failed(_) => Received::Closed,
            Incoming::Envelope(envelope) => match envelope.message {
                Some(Message::ShaderUpdate(update)) => Received::Update(update),
                _ => Received::Skipped,
            },
            _ => Received::Skipped,
        }
    }
}

/// The shaders among what is read until the connection ends, in order.
pub open spec fn shaders_received(incoming: Seq<Incoming>) -> Seq<ShaderUpdate>
    decreases incoming.len(),
{
    if incoming.len() == 0 {
        Seq::empty()
    } else {
        match reception(incoming.first()) {
            Received::Closed => Seq::empty(),
            Received::Skipped => shaders_received(incoming.drop_first()),
            Received::Update(update) => seq![update] + shaders_received(incoming.drop_first()),
        }
    }
}

/// What is skipped makes no difference to the shaders that are received.
pub proof fn skipping_changes_nothing(before: Seq<Incoming>, skipped: Incoming, after: Seq<Incoming>)
    requires
        reception(skipped) is Skipped,
    ensures
        shaders_received(before + seq![skipped] + after) == shaders_received(before + after),
    decreases before.len(),
{
    let with = before + seq![skipped] + after;
    let without = before + after;
    if before.len() == 0 {
        assert(with.drop_first() == after);
        assert(without == after);
    } else {
        skipping_changes_nothing(before.drop_first(), skipped, after);
        assert(with.drop_first() == before.drop_first() + seq![skipped] + after);
        assert(without.drop_first() == before.drop_first() + after);
        assert(with.first() == before.first());
        assert(without.first() == before.first());
    }
}

} // verus!
