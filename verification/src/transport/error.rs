//! Errors of the transport layer.
use vstd::prelude::*;

verus! {

/// What a transport operation can fail with.
///
/// A send to a peer that is no longer connected is not among them: such a send
/// succeeds and does nothing, since the peer may have disconnected between the
/// decision to send and the send.
#[derive(Debug, PartialEq, Eq)]
pub enum Error {
    /// Building the transport failed: binding, connecting or the handshake.
    /// Fatal to that attempt; carries the cause as text.
    Setup(String),
    /// A payload could not be queued for a connected peer: nobody reads the
    /// outbound channel of that peer any more.
    SendChannelClosed,
    /// Nothing is pending and nothing will come: every background task that fed
    /// the inbound channel is gone.
    RecvChannelClosed,
    /// The io has been closed: nothing is sent or received through it.
    IoClosed,
    /// A frame is longer than a packet may be; carries its length.
    FrameTooLarge(usize),
    /// The lock around the shared peer table was poisoned by a panic elsewhere.
    Poisoned,
    /// A peer was accepted under an address whose earlier connection has not
    /// been cleaned up yet.
    AlreadyConnected,
}

impl Error {
    /// The text that describes this error.
    pub open spec fn spec_message(&self) -> Seq<char> {
        match self {
            Error::Setup(cause) => cause@,
            Error::SendChannelClosed => "unable to send message to client: channel closed"@,
            Error::RecvChannelClosed =>
                "unable to receive message from client: receiving on a closed channel"@,
            Error::IoClosed => "the io is closed"@,
            Error::FrameTooLarge(_) => "a frame is longer than a packet may be"@,
            Error::Poisoned => "the lock of the peer table is poisoned"@,
            Error::AlreadyConnected => "the peer is connected already"@,
        }
    }

    /// The text that describes this error.
    pub fn message(&self) -> (text: String)
        ensures
            text@ == self.spec_message(),
    {
        match self {
            Error::Setup(cause) => cause.clone(),
            Error::SendChannelClosed => {
                "unable to send message to client: channel closed".to_owned()
            },
            Error::RecvChannelClosed => {
                "unable to receive message from client: receiving on a closed channel".to_owned()
            },
            Error::IoClosed => "the io is closed".to_owned(),
            Error::FrameTooLarge(_) => "a frame is longer than a packet may be".to_owned(),
            Error::Poisoned => "the lock of the peer table is poisoned".to_owned(),
            Error::AlreadyConnected => "the peer is connected already".to_owned(),
        }
    }
}

} // verus!
