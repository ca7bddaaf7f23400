//! Plain domain values the core reads and writes: identifiers, the
//! structured API error body, and the small enumerations of the REST
//! surface. The open-ended catalog of full domain object schemas belongs to
//! the excluded schema layer and is not modeled here.

#![allow(non_camel_case_types)]

use vstd::prelude::*;

verus! {

/// A numeric identifier carried as its decimal string form.
pub type Snowflake = String;

/// A JSON field that may be a number or a string.
#[derive(Debug, Clone)]
pub enum IntOrStr {
    Integer(i64),
    Str(String),
}

/// The structured error body an API error response may carry: an error code,
/// a message, and optionally the raw text of a detail object.
#[derive(Debug, Clone)]
pub struct DiscordApiError {
    pub code: u32,
    pub message: String,
    pub errors: Option<String>,
}

/// Where a page of messages is anchored when listing a channel's messages.
#[derive(Debug, Clone)]
pub enum GetChannelMessagesAnchorParam {
    Around(Snowflake),
    Before(Snowflake),
    After(Snowflake),
}

/// Type of an embed.
#[derive(Debug, Clone, Copy, PartialEq, Eq, Structural)]
pub enum EmbedType {
    rich,
    image,
    video,
    gifv,
    article,
    link,
}

/// Mention categories a message is allowed to trigger.
#[derive(Debug, Clone, Copy, PartialEq, Eq, Structural)]
pub enum AllowedMentionTypes {
    roles,
    users,
    everyone,
}

/// The allowed-mentions object of an outbound message.
#[derive(Debug, Clone)]
pub struct AllowedMentions {
    pub parse: Vec<AllowedMentionTypes>,
    pub roles: Vec<Snowflake>,
    pub users: Vec<Snowflake>,
    pub replied_user: bool,
}

/// Reference from a message to the message it replies to.
#[derive(Debug, Clone)]
pub struct MessageReference {
    pub message_id: Option<Snowflake>,
    pub channel_id: Option<Snowflake>,
    pub guild_id: Option<Snowflake>,
    pub fail_if_not_exists: Option<bool>,
}

/// Type of a channel, as the wire integer.
#[derive(Debug, Clone, Copy, PartialEq, Eq, Structural)]
pub struct ChannelType(pub i32);

/// Verification level of a guild, as the wire integer.
#[derive(Debug, Clone, Copy, PartialEq, Eq, Structural)]
pub struct VerificationLevel(pub u8);

/// Default notification level of a guild, as the wire integer.
#[derive(Debug, Clone, Copy, PartialEq, Eq, Structural)]
pub struct DefaultMessageNotificationLevel(pub u8);

/// Explicit content filter level of a guild, as the wire integer.
#[derive(Debug, Clone, Copy, PartialEq, Eq, Structural)]
pub struct ExplicitContentFilterLevel(pub u8);

/// Multi-factor authentication level of a guild, as the wire integer.
#[derive(Debug, Clone, Copy, PartialEq, Eq, Structural)]
pub struct MfaLevel(pub u8);

/// Body of an entitlement redeem request.
#[derive(Debug, Clone)]
pub struct EntitlementRedeemBody {
    pub channel_id: Option<bool>,
    pub payment_source_id: Option<bool>,
}

impl EntitlementRedeemBody {
    /// The body the redeem flow sends: both fields absent.
    pub fn empty() -> (r: EntitlementRedeemBody)
        ensures
            r.channel_id is None,
            r.payment_source_id is None,
    {
        EntitlementRedeemBody { channel_id: None, payment_source_id: None }
    }
}

} // verus!
