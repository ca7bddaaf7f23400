//! Error taxonomy of the gateway connection and the REST client, and the
//! classification of transport close codes into recovery buckets.

use vstd::prelude::*;

verus! {

/// A close frame received from the transport: the numeric close code and the
/// textual reason the peer attached to it.
#[derive(Debug, Clone, PartialEq, Eq)]
pub struct CloseInfo {
    pub code: u16,
    pub reason: String,
}

/// Errors of the gateway connection engine.
#[derive(Debug)]
pub enum GCError {
    /// Fetching the transport entry-point URL from the REST surface failed.
    GatewayURLFetch(String),
    /// An internal channel between the engine and its consumers failed.
    InternalChannelError(String),
    /// An outbound frame could not be encoded.
    Serialization(String),
    /// An inbound frame could not be decoded.
    Deserialization(String),
    /// The connection closed with an unrecognized code, or without a frame.
    UnexpectedClose(Option<CloseInfo>),
    /// The connection closed with a code that forbids any reconnection.
    UnreconnectableClose(CloseInfo),
    /// The connection dropped, or should drop, but the session can be resumed.
    ReconnectableClose(Option<CloseInfo>),
    /// Writing a frame to the transport failed.
    SendError(String),
    /// The transport handshake failed.
    ConnectError(String),
    /// Any other transport-level failure.
    WSInternal(String),
    /// The command channel closed: cooperative shutdown, not an anomaly.
    Shutdown,
    /// The server stopped acknowledging heartbeats.
    NoHeartbeat,
    /// Anything else, with a description.
    Misc(String),
}

pub type GCResult<T> = Result<T, GCError>;

/// How a connection failure is to be handled by the supervisor.
#[derive(Debug, Clone, Copy, PartialEq, Eq, Structural)]
pub enum CloseBucket {
    /// The session can be resumed on a fresh transport.
    Reconnectable,
    /// The shard must stop permanently.
    Unreconnectable,
    /// Unexpected but retryable: a fresh connect (full identify) is in order.
    Unexpected,
}

/// Close codes after which the server still holds session state, so a resume
/// is worth attempting.
pub open spec fn spec_reconnectable_close(code: u16) -> bool {
    code == 4000 || code == 4001 || code == 4002 || code == 4003 || code == 4005 || code == 4007
        || code == 4008 || code == 4009
}

/// Close codes that are terminal for the shard (for example a rejected token):
/// no resume and no reconnect may follow.
pub open spec fn spec_unreconnectable_close(code: u16) -> bool {
    code == 4004 || code == 4010 || code == 4011 || code == 4012 || code == 4013 || code == 4014
}

/// The bucket a close code falls in: any code in neither table is unexpected
/// but retryable by a fresh connect.
pub open spec fn spec_close_bucket(code: u16) -> CloseBucket {
    if spec_reconnectable_close(code) {
        CloseBucket::Reconnectable
    } else if spec_unreconnectable_close(code) {
        CloseBucket::Unreconnectable
    } else {
        CloseBucket::Unexpected
    }
}

/// Classifies a numeric close code into its recovery bucket.
pub fn close_bucket(code: u16) -> (r: CloseBucket)
    ensures
        r == spec_close_bucket(code),
{
    if code == 4000 || code == 4001 || code == 4002 || code == 4003 || code == 4005 || code == 4007
        || code == 4008 || code == 4009 {
        CloseBucket::Reconnectable
    } else if code == 4004 || code == 4010 || code == 4011 || code == 4012 || code == 4013
        || code == 4014 {
        CloseBucket::Unreconnectable
    } else {
        CloseBucket::Unexpected
    }
}

/// Turns a received close frame (or its absence) into the engine error that
/// the supervisor classifies: the bucket decides between resume, permanent
/// stop, and fresh reconnect.
pub fn classify_close(frame: Option<CloseInfo>) -> (r: GCError)
    ensures
        match frame {
            Some(f) => match spec_close_bucket(f.code) {
                CloseBucket::Reconnectable => r matches GCError::ReconnectableClose(Some(g))
                    && g == f,
                CloseBucket::Unreconnectable => r matches GCError::UnreconnectableClose(g)
                    && g == f,
                CloseBucket::Unexpected => r matches GCError::UnexpectedClose(Some(g)) && g == f,
            },
            None => r matches GCError::UnexpectedClose(None),
        },
{
    match frame {
        Some(f) => match close_bucket(f.code) {
            CloseBucket::Reconnectable => GCError::ReconnectableClose(Some(f)),
            CloseBucket::Unreconnectable => GCError::UnreconnectableClose(f),
            CloseBucket::Unexpected => GCError::UnexpectedClose(Some(f)),
        },
        None => GCError::UnexpectedClose(None),
    }
}



/// The text of a close frame: its code in decimal, a separator, its reason.
pub open spec fn spec_close_text(f: CloseInfo) -> Seq<char> {
    crate::text::spec_decimal(f.code as int) + ": "@ + f.reason@
}

/// Writes a close frame as text.
pub fn close_text(f: &CloseInfo) -> (r: String)
    ensures
        r@ == spec_close_text(*f),
{
    let mut t = crate::text::decimal_string(f.code as u64);
    t.append(": ");
    t.append(f.reason.as_str());
    t
}

/// The description of each engine error.
pub open spec fn spec_gc_message(e: GCError) -> Seq<char> {
    match e {
        GCError::GatewayURLFetch(s) => "Fetching the gateway URL from API failed: "@ + s@,
        GCError::Deserialization(s) => "Could not deserialize GatewayEvent: "@ + s@,
        GCError::Serialization(s) => "Could not serialize GatewayEvent: "@ + s@,
        GCError::InternalChannelError(s) =>
            "An unhandled error occured while trying to use internal channels: "@ + s@,
        GCError::UnexpectedClose(Some(f)) =>
            "The connection with the gateway unexpectedly closed with the following frame: "@
            + spec_close_text(f),
        GCError::UnexpectedClose(None) =>
            "The connection with the gateway unexpectedly closed without a frame"@,
        GCError::UnreconnectableClose(f) => "The connection with the gateway was remotely closed: "@
            + spec_close_text(f),
        GCError::ReconnectableClose(Some(f)) =>
            "The connection dropped or should drop, however it should be Resumed: "@
            + spec_close_text(f),
        GCError::ReconnectableClose(None) =>
            "The connection dropped or should drop, however it should be Resumed"@,
        GCError::SendError(s) => "Sending an event to the gateway failed with: "@ + s@,
        GCError::Shutdown =>
            "The connection thread should shut down, this error should've been handled"@,
        GCError::ConnectError(s) => "Connecting with the remote websocket failed: "@ + s@,
        GCError::WSInternal(s) => "Unexpected WS error: "@ + s@,
        GCError::NoHeartbeat => "Didn't receive a Heartbeat ACK in time"@,
        GCError::Misc(s) => s@,
    }
}

impl GCError {
    /// Describes the error, for logs and for the relay.
    pub fn message(&self) -> (r: String)
        ensures
            r@ == spec_gc_message(*self),
    {
        match self {
            GCError::GatewayURLFetch(s) => {
                let mut t = String::from_str("Fetching the gateway URL from API failed: ");
                t.append(s.as_str());
                t
            },
            GCError::Deserialization(s) => {
                let mut t = String::from_str("Could not deserialize GatewayEvent: ");
                t.append(s.as_str());
                t
            },
            GCError::Serialization(s) => {
                let mut t = String::from_str("Could not serialize GatewayEvent: ");
                t.append(s.as_str());
                t
            },
            GCError::InternalChannelError(s) => {
                let mut t = String::from_str(
                    "An unhandled error occured while trying to use internal channels: ",
                );
                t.append(s.as_str());
                t
            },
            GCError::UnexpectedClose(Some(f)) => {
                let mut t = String::from_str(
                    "The connection with the gateway unexpectedly closed with the following frame: ",
                );
                let ft = close_text(f);
                t.append(ft.as_str());
                t
            },
            GCError::UnexpectedClose(None) => String::from_str(
                "The connection with the gateway unexpectedly closed without a frame",
            ),
            GCError::UnreconnectableClose(f) => {
                let mut t = String::from_str(
                    "The connection with the gateway was remotely closed: ",
                );
                let ft = close_text(f);
                t.append(ft.as_str());
                t
            },
            GCError::ReconnectableClose(Some(f)) => {
                let mut t = String::from_str(
                    "The connection dropped or should drop, however it should be Resumed: ",
                );
                let ft = close_text(f);
                t.append(ft.as_str());
                t
            },
            GCError::ReconnectableClose(None) => String::from_str(
                "The connection dropped or should drop, however it should be Resumed",
            ),
            GCError::SendError(s) => {
                let mut t = String::from_str("Sending an event to the gateway failed with: ");
                t.append(s.as_str());
                t
            },
            GCError::Shutdown => String::from_str(
                "The connection thread should shut down, this error should've been handled",
            ),
            GCError::ConnectError(s) => {
                let mut t = String::from_str("Connecting with the remote websocket failed: ");
                t.append(s.as_str());
                t
            },
            GCError::WSInternal(s) => {
                let mut t = String::from_str("Unexpected WS error: ");
                t.append(s.as_str());
                t
            },
            GCError::NoHeartbeat => String::from_str("Didn't receive a Heartbeat ACK in time"),
            GCError::Misc(s) => s.clone(),
        }
    }
}

} // verus!
