//! Wire-level protocol data: opcodes, dispatch event names, frame payloads,
//! and the two-pass payload selection that picks the payload variant from the
//! envelope fields (opcode and event name) before the payload itself is
//! decoded.

#![allow(non_camel_case_types)]

use vstd::prelude::*;

verus! {

/// Operation code of a gateway frame.
#[derive(Debug, Clone, Copy, PartialEq, Eq, Structural)]
pub enum GatewayOpcode {
    DISPATCH,
    HEARTBEAT,
    IDENTIFY,
    PRESENCE_UPDATE,
    VOICE_STATE_UPDATE,
    RESUME,
    RECONNECT,
    REQUEST_GUILD_MEMBERS,
    INVALID_SESSION,
    HELLO,
    HEARTBEAT_ACK,
}

/// The integer each opcode is written as on the wire.
pub open spec fn spec_opcode_value(op: GatewayOpcode) -> i32 {
    match op {
        GatewayOpcode::DISPATCH => 0,
        GatewayOpcode::HEARTBEAT => 1,
        GatewayOpcode::IDENTIFY => 2,
        GatewayOpcode::PRESENCE_UPDATE => 3,
        GatewayOpcode::VOICE_STATE_UPDATE => 4,
        GatewayOpcode::RESUME => 6,
        GatewayOpcode::RECONNECT => 7,
        GatewayOpcode::REQUEST_GUILD_MEMBERS => 8,
        GatewayOpcode::INVALID_SESSION => 9,
        GatewayOpcode::HELLO => 10,
        GatewayOpcode::HEARTBEAT_ACK => 11,
    }
}

impl GatewayOpcode {
    /// The integer this opcode is written as on the wire.
    pub fn value(self) -> (r: i32)
        ensures
            r == spec_opcode_value(self),
    {
        match self {
            GatewayOpcode::DISPATCH => 0,
            GatewayOpcode::HEARTBEAT => 1,
            GatewayOpcode::IDENTIFY => 2,
            GatewayOpcode::PRESENCE_UPDATE => 3,
            GatewayOpcode::VOICE_STATE_UPDATE => 4,
            GatewayOpcode::RESUME => 6,
            GatewayOpcode::RECONNECT => 7,
            GatewayOpcode::REQUEST_GUILD_MEMBERS => 8,
            GatewayOpcode::INVALID_SESSION => 9,
            GatewayOpcode::HELLO => 10,
            GatewayOpcode::HEARTBEAT_ACK => 11,
        }
    }

    /// The opcode a wire integer denotes, if it is a recognized one: the
    /// inverse of [`GatewayOpcode::value`].
    pub fn from_value(v: i32) -> (r: Option<GatewayOpcode>)
        ensures
            r matches Some(op) ==> spec_opcode_value(op) == v,
            r is None <==> (v < 0 || v == 5 || v > 11),
    {
        if v == 0 {
            Some(GatewayOpcode::DISPATCH)
        } else if v == 1 {
            Some(GatewayOpcode::HEARTBEAT)
        } else if v == 2 {
            Some(GatewayOpcode::IDENTIFY)
        } else if v == 3 {
            Some(GatewayOpcode::PRESENCE_UPDATE)
        } else if v == 4 {
            Some(GatewayOpcode::VOICE_STATE_UPDATE)
        } else if v == 6 {
            Some(GatewayOpcode::RESUME)
        } else if v == 7 {
            Some(GatewayOpcode::RECONNECT)
        } else if v == 8 {
            Some(GatewayOpcode::REQUEST_GUILD_MEMBERS)
        } else if v == 9 {
            Some(GatewayOpcode::INVALID_SESSION)
        } else if v == 10 {
            Some(GatewayOpcode::HELLO)
        } else if v == 11 {
            Some(GatewayOpcode::HEARTBEAT_ACK)
        } else {
            None
        }
    }
}

/// Name of a dispatch event. Unknown names decode to `Other`, so new events
/// added by the server never break decoding.
#[derive(Debug, Clone, Copy, PartialEq, Eq, Structural)]
pub enum GatewayDispatchEventName {
    READY,
    CHANNEL_CREATE,
    CHANNEL_UPDATE,
    CHANNEL_DELETE,
    GUILD_CREATE,
    GUILD_UPDATE,
    GUILD_DELETE,
    MESSAGE_CREATE,
    MESSAGE_UPDATE,
    Other,
}

/// Static client metadata sent with an identify frame.
#[derive(Debug, Clone)]
pub struct GatewayConnectionProperties {
    pub os: String,
    pub browser: String,
    pub device: String,
}

/// Capability flags declared at identify time, restricting which event
/// categories the server will push.
#[derive(Debug, Clone, Copy, PartialEq, Eq, Structural)]
pub struct GatewayIntents(pub u64);

impl GatewayIntents {
    pub const GUILDS: u64 = 1u64 << 0;

    pub const GUILD_MEMBERS: u64 = 1u64 << 1;

    pub const GUILD_MODERATION: u64 = 1u64 << 2;

    pub const GUILD_EMOJIS_AND_STICKERS: u64 = 1u64 << 3;

    pub const GUILD_INTEGRATIONS: u64 = 1u64 << 4;

    pub const GUILD_WEBHOOKS: u64 = 1u64 << 5;

    pub const GUILD_INVITES: u64 = 1u64 << 6;

    pub const GUILD_VOICE_STATES: u64 = 1u64 << 7;

    pub const GUILD_PRESENCES: u64 = 1u64 << 8;

    pub const GUILD_MESSAGES: u64 = 1u64 << 9;

    pub const GUILD_MESSAGE_REACTIONS: u64 = 1u64 << 10;

    pub const GUILD_MESSAGE_TYPING: u64 = 1u64 << 11;

    pub const DIRECT_MESSAGES: u64 = 1u64 << 12;

    pub const DIRECT_MESSAGE_REACTIONS: u64 = 1u64 << 13;

    pub const DIRECT_MESSAGE_TYPING: u64 = 1u64 << 14;

    pub const MESSAGE_CONTENT: u64 = 1u64 << 15;

    pub const GUILD_SCHEDULED_EVENTS: u64 = 1u64 << 16;

    pub const AUTO_MODERATION_CONFIGURATION: u64 = 1u64 << 20;

    pub const AUTO_MODERATION_EXECUTION: u64 = 1u64 << 21;

    /// The raw bitmask sent on the wire.
    pub fn bits(&self) -> (r: u64)
        ensures
            r == self.0,
    {
        self.0
    }
}

/// Payload of an identify frame.
#[derive(Debug, Clone)]
pub struct GatewayIdentifyPayload {
    pub token: String,
    pub properties: GatewayConnectionProperties,
    pub compress: Option<bool>,
    pub large_threshold: Option<i32>,
    pub shard: Option<(i32, i32)>,
    pub presence: Option<GatewayPresenceSend>,
    pub intents: GatewayIntents,
}

/// Payload of a resume frame: the token, the session to resume, and the last
/// sequence number observed before the connection dropped.
#[derive(Debug, Clone)]
pub struct GatewayResumePayload {
    pub token: String,
    pub session_id: String,
    pub seq: i64,
}

/// Payload of a hello frame: the heartbeat interval in milliseconds.
#[derive(Debug, Clone, Copy, PartialEq, Eq, Structural)]
pub struct GatewayHelloPayload {
    pub heartbeat_interval: i64,
}

/// Type of an activity advertised in a presence update.
#[derive(Debug, Clone, Copy, PartialEq, Eq, Structural)]
pub enum GatewayActivityType {
    PLAYING,
    STREAMING,
    LISTENING,
    WATCHING,
    CUSTOM,
    COMPETING,
}

/// Start and end instants of an activity, in unix milliseconds.
#[derive(Debug, Clone, Copy, PartialEq, Eq, Structural, Default)]
pub struct GatewayActivityTimestamps {
    pub start: Option<u64>,
    pub end: Option<u64>,
}

/// An activity advertised in a presence update. Only the fields the core
/// writes are carried; richer asset and party data belongs to the excluded
/// schema layer.
#[derive(Debug, Clone)]
pub struct GatewayActivity {
    pub name: String,
    pub activity_type: GatewayActivityType,
    pub url: Option<String>,
    pub created_at: u64,
    pub timestamps: Option<GatewayActivityTimestamps>,
}

/// Online status advertised in a presence update.
#[derive(Debug, Clone, Copy, PartialEq, Eq, Structural)]
pub enum GatewayStatus {
    online,
    dnd,
    idle,
    invisible,
    offline,
}

/// Payload of an outbound presence update.
#[derive(Debug, Clone)]
pub struct GatewayPresenceSend {
    pub since: Option<u64>,
    pub activities: Vec<GatewayActivity>,
    pub status: GatewayStatus,
    pub afk: bool,
}

/// A channel as the core reads it: its id and its optional name.
#[derive(Debug, Clone)]
pub struct ChannelInfo {
    pub id: String,
    pub name: Option<String>,
}

/// A guild the server could not (or did not) send in full.
#[derive(Debug, Clone)]
pub struct UnavailableGuild {
    pub id: String,
    pub unavailable: Option<bool>,
}

/// A guild as the core reads it from a guild-create dispatch.
#[derive(Debug, Clone)]
pub struct GatewayGuild {
    pub id: String,
    pub name: String,
    pub large: bool,
    pub unavailable: Option<bool>,
    pub member_count: i64,
    pub channels: Vec<ChannelInfo>,
    pub threads: Vec<ChannelInfo>,
}

/// Payload of a guild-create dispatch: either a full guild or an unavailable
/// placeholder.
#[derive(Debug, Clone)]
pub enum GatewayGuildCreatePayload {
    Unavailable(UnavailableGuild),
    Available(GatewayGuild),
}

/// Payload of a ready dispatch: the fields the core reads, notably the
/// session id and resume URL that make a later resume possible.
#[derive(Debug, Clone)]
pub struct GatewayReadyPayload {
    pub v: i32,
    pub user_name: String,
    pub guilds: Vec<GatewayGuildCreatePayload>,
    pub session_id: String,
    pub resume_gateway_url: String,
    pub shard: Option<(i32, i32)>,
}

/// A message as the core reads it from a message dispatch.
#[derive(Debug, Clone)]
pub struct MessageInfo {
    pub channel_id: String,
    pub guild_id: Option<String>,
    pub author_name: Option<String>,
    pub content: Option<String>,
}

/// Frame payload: one variant per recognized `(opcode, event name)` pair.
#[derive(Debug, Clone)]
pub enum GatewayData {
    SendIdentify(Box<GatewayIdentifyPayload>),
    SendResume(Box<GatewayResumePayload>),
    SendHeartbeat(i64),
    SendUpdatePresence(Box<GatewayPresenceSend>),
    Hello(GatewayHelloPayload),
    InvalidSession(bool),
    Ready(Box<GatewayReadyPayload>),
    ChannelCreate(Box<ChannelInfo>),
    ChannelUpdate(Box<ChannelInfo>),
    ChannelDelete(Box<ChannelInfo>),
    GuildCreate(Box<GatewayGuildCreatePayload>),
    GuildUpdate(Box<GatewayGuild>),
    GuildDelete(UnavailableGuild),
    MessageCreate(Box<MessageInfo>),
    MessageUpdate(Box<MessageInfo>),
}

/// One frame of the protocol: opcode, optional payload, optional sequence
/// number (populated only on frames the server numbers), and optional event
/// name (populated only on dispatch frames).
#[derive(Debug, Clone)]
pub struct GatewayEvent {
    pub op: GatewayOpcode,
    pub d: Option<GatewayData>,
    pub s: Option<i64>,
    pub t: Option<GatewayDispatchEventName>,
}

impl GatewayEvent {
    /// A bare frame with the given opcode and no payload, sequence number or
    /// event name.
    pub fn new(op: GatewayOpcode) -> (r: GatewayEvent)
        ensures
            r.op == op,
            r.d is None,
            r.s is None,
            r.t is None,
    {
        GatewayEvent { op, d: None, s: None, t: None }
    }
}

/// Which payload variant a frame carries, as selected by the envelope alone.
#[derive(Debug, Clone, Copy, PartialEq, Eq, Structural)]
pub enum PayloadKind {
    SendHeartbeat,
    SendIdentify,
    SendUpdatePresence,
    SendResume,
    InvalidSession,
    Hello,
    Ready,
    ChannelCreate,
    ChannelUpdate,
    ChannelDelete,
    GuildCreate,
    GuildUpdate,
    GuildDelete,
    MessageCreate,
    MessageUpdate,
}

/// The payload variant selected by the envelope fields: the opcode, the event
/// name (meaningful only for dispatch frames), and whether a payload is
/// present at all. `None` means the payload is not recognized — an unknown
/// dispatch, a payload-less control frame — and must be ignored rather than
/// rejected, preserving forward compatibility.
pub open spec fn spec_payload_kind(
    op: GatewayOpcode,
    t: Option<GatewayDispatchEventName>,
    has_payload: bool,
) -> Option<PayloadKind> {
    match (op, t) {
        (GatewayOpcode::HEARTBEAT, _) => if has_payload {
            Some(PayloadKind::SendHeartbeat)
        } else {
            None
        },
        (GatewayOpcode::IDENTIFY, _) => Some(PayloadKind::SendIdentify),
        (GatewayOpcode::PRESENCE_UPDATE, _) => Some(PayloadKind::SendUpdatePresence),
        (GatewayOpcode::RESUME, _) => Some(PayloadKind::SendResume),
        (GatewayOpcode::INVALID_SESSION, _) => Some(PayloadKind::InvalidSession),
        (GatewayOpcode::HELLO, _) => Some(PayloadKind::Hello),
        (GatewayOpcode::DISPATCH, Some(GatewayDispatchEventName::READY)) => Some(
            PayloadKind::Ready,
        ),
        (GatewayOpcode::DISPATCH, Some(GatewayDispatchEventName::CHANNEL_CREATE)) => Some(
            PayloadKind::ChannelCreate,
        ),
        (GatewayOpcode::DISPATCH, Some(GatewayDispatchEventName::CHANNEL_UPDATE)) => Some(
            PayloadKind::ChannelUpdate,
        ),
        (GatewayOpcode::DISPATCH, Some(GatewayDispatchEventName::CHANNEL_DELETE)) => Some(
            PayloadKind::ChannelDelete,
        ),
        (GatewayOpcode::DISPATCH, Some(GatewayDispatchEventName::GUILD_CREATE)) => Some(
            PayloadKind::GuildCreate,
        ),
        (GatewayOpcode::DISPATCH, Some(GatewayDispatchEventName::GUILD_UPDATE)) => Some(
            PayloadKind::GuildUpdate,
        ),
        (GatewayOpcode::DISPATCH, Some(GatewayDispatchEventName::GUILD_DELETE)) => Some(
            PayloadKind::GuildDelete,
        ),
        (GatewayOpcode::DISPATCH, Some(GatewayDispatchEventName::MESSAGE_CREATE)) => Some(
            PayloadKind::MessageCreate,
        ),
        (GatewayOpcode::DISPATCH, Some(GatewayDispatchEventName::MESSAGE_UPDATE)) => Some(
            PayloadKind::MessageUpdate,
        ),
        _ => None,
    }
}

/// First pass of the two-pass frame decoding: from the already decoded
/// envelope fields, pick the variant the payload must be decoded into.
pub fn payload_kind(op: GatewayOpcode, t: Option<GatewayDispatchEventName>, has_payload: bool) -> (
    r: Option<PayloadKind>)
    ensures
        r == spec_payload_kind(op, t, has_payload),
{
    match op {
        GatewayOpcode::HEARTBEAT => if has_payload {
            Some(PayloadKind::SendHeartbeat)
        } else {
            None
        },
        GatewayOpcode::IDENTIFY => Some(PayloadKind::SendIdentify),
        GatewayOpcode::PRESENCE_UPDATE => Some(PayloadKind::SendUpdatePresence),
        GatewayOpcode::RESUME => Some(PayloadKind::SendResume),
        GatewayOpcode::INVALID_SESSION => Some(PayloadKind::InvalidSession),
        GatewayOpcode::HELLO => Some(PayloadKind::Hello),
        GatewayOpcode::DISPATCH => match t {
            Some(GatewayDispatchEventName::READY) => Some(PayloadKind::Ready),
            Some(GatewayDispatchEventName::CHANNEL_CREATE) => Some(PayloadKind::ChannelCreate),
            Some(GatewayDispatchEventName::CHANNEL_UPDATE) => Some(PayloadKind::ChannelUpdate),
            Some(GatewayDispatchEventName::CHANNEL_DELETE) => Some(PayloadKind::ChannelDelete),
            Some(GatewayDispatchEventName::GUILD_CREATE) => Some(PayloadKind::GuildCreate),
            Some(GatewayDispatchEventName::GUILD_UPDATE) => Some(PayloadKind::GuildUpdate),
            Some(GatewayDispatchEventName::GUILD_DELETE) => Some(PayloadKind::GuildDelete),
            Some(GatewayDispatchEventName::MESSAGE_CREATE) => Some(PayloadKind::MessageCreate),
            Some(GatewayDispatchEventName::MESSAGE_UPDATE) => Some(PayloadKind::MessageUpdate),
            _ => None,
        },
        _ => None,
    }
}

/// Session identity captured from a ready dispatch: consumed when issuing a
/// resume after a recoverable drop.
#[derive(Debug, Clone)]
pub struct ResumeInfo {
    pub session_id: String,
    pub gateway_url: String,
}

} // verus!
