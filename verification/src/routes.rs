//! The REST client state and the endpoint catalog: the per-instance token,
//! user agent and API base, the rate limit gate the client consults before
//! every attempt, and the functions that build each endpoint's path.
//!
//! Issuing the HTTP call itself is the embedding program's: it asks this
//! client for the URL, the headers' values and the limiter decisions, and hands
//! the response status and headers back.

#![allow(non_camel_case_types)]

use vstd::prelude::*;

use crate::limits::{GateModel, RateLimitGate, RateLimitScope, spec_poll_global,
    spec_poll_resource, spec_record_limit};
use crate::request::{HttpMethod, RequestStep, spec_parse_scope, spec_parse_u64, spec_retry_at,
    spec_status_class, on_response_status};
use crate::text::{decimal_string, spec_decimal};
use crate::types::GetChannelMessagesAnchorParam;

verus! {

/// A version of the REST surface: the path segment it is addressed by.
pub trait DApiVersion {
    /// The version's path segment, abstractly.
    spec fn spec_ver() -> Seq<char>;

    /// The version's path segment.
    fn ver() -> (r: &'static str)
        ensures
            r@ == Self::spec_ver(),
    ;
}

/// The current version of the REST surface.
pub struct v10;

impl DApiVersion for v10 {
    open spec fn spec_ver() -> Seq<char> {
        "v10"@
    }

    fn ver() -> (r: &'static str) {
        "v10"
    }
}

/// The legacy version of the REST surface, which the entitlement endpoints
/// still live on.
pub struct v6;

impl DApiVersion for v6 {
    open spec fn spec_ver() -> Seq<char> {
        "v6"@
    }

    fn ver() -> (r: &'static str) {
        "v6"
    }
}

/// An endpoint a request can be issued against: a verb and a path under the
/// API base.
pub trait DApiMethod<V: DApiVersion> {
    /// The endpoint's path, abstractly.
    spec fn spec_path(&self) -> Seq<char>;

    /// The endpoint's path.
    fn path(&self) -> (r: &str)
        ensures
            r@ == self.spec_path(),
    ;
}

/// One concrete endpoint: its verb and its path.
#[derive(Debug, Clone)]
pub struct Route {
    pub method: HttpMethod,
    pub path: String,
}

impl<V: DApiVersion> DApiMethod<V> for Route {
    open spec fn spec_path(&self) -> Seq<char> {
        self.path@
    }

    fn path(&self) -> (r: &str) {
        self.path.as_str()
    }
}

/// Posting a message to a channel.
pub fn channel_messages(channel_id: &str) -> (r: Route)
    ensures
        r.method is POST,
        r.path@ == "/channels/"@ + channel_id@ + "/messages"@,
{
    let mut p = String::from_str("/channels/");
    p.append(channel_id);
    p.append("/messages");
    Route { method: HttpMethod::POST, path: p }
}

/// Listing a channel's messages: at most `limit` of them, anchored around,
/// before or after a given message if asked.
pub fn channel_messages_get(
    channel_id: &str,
    limit: u32,
    anchor: Option<&GetChannelMessagesAnchorParam>,
) -> (r: Route)
    ensures
        r.method is GET,
        ({
            let base = "/channels/"@ + channel_id@ + "/messages?limit="@ + spec_decimal(
                limit as int,
            );
            r.path@ == (match anchor {
                None => base,
                Some(GetChannelMessagesAnchorParam::Around(s)) => base + "&around="@ + s@,
                Some(GetChannelMessagesAnchorParam::Before(s)) => base + "&before="@ + s@,
                Some(GetChannelMessagesAnchorParam::After(s)) => base + "&after="@ + s@,
            })
        }),
{
    let mut p = String::from_str("/channels/");
    p.append(channel_id);
    p.append("/messages?limit=");
    let limit_text = decimal_string(limit as u64);
    p.append(limit_text.as_str());
    match anchor {
        None => {},
        Some(GetChannelMessagesAnchorParam::Around(s)) => {
            p.append("&around=");
            p.append(s.as_str());
        },
        Some(GetChannelMessagesAnchorParam::Before(s)) => {
            p.append("&before=");
            p.append(s.as_str());
        },
        Some(GetChannelMessagesAnchorParam::After(s)) => {
            p.append("&after=");
            p.append(s.as_str());
        },
    }
    Route { method: HttpMethod::GET, path: p }
}

/// Leaving a guild.
pub fn users_guilds_leave(guild_id: &str) -> (r: Route)
    ensures
        r.method is DELETE,
        r.path@ == "/users/@me/guilds/"@ + guild_id@,
{
    let mut p = String::from_str("/users/@me/guilds/");
    p.append(guild_id);
    Route { method: HttpMethod::DELETE, path: p }
}

/// Executing a webhook, optionally waiting for the created message and
/// optionally into a thread.
pub fn webhook_execute(
    webhook_id: &str,
    webhook_token: &str,
    wait: bool,
    thread_id: Option<&str>,
) -> (r: Route)
    ensures
        r.method is POST,
        ({
            let base = "/webhooks/"@ + webhook_id@ + "/"@ + webhook_token@ + "?wait="@ + (if wait {
                "true"@
            } else {
                "false"@
            });
            r.path@ == (match thread_id {
                None => base,
                Some(t) => base + "&thread_id="@ + t@,
            })
        }),
{
    let mut p = String::from_str("/webhooks/");
    p.append(webhook_id);
    p.append("/");
    p.append(webhook_token);
    p.append("?wait=");
    if wait {
        p.append("true");
    } else {
        p.append("false");
    }
    match thread_id {
        None => {},
        Some(t) => {
            p.append("&thread_id=");
            p.append(t);
        },
    }
    Route { method: HttpMethod::POST, path: p }
}

/// Reading a gift code's entitlement.
pub fn entitlements_giftcode(gift_code: &str) -> (r: Route)
    ensures
        r.method is GET,
        r.path@ == "/entitlements/gift-codes/"@ + gift_code@,
{
    let mut p = String::from_str("/entitlements/gift-codes/");
    p.append(gift_code);
    Route { method: HttpMethod::GET, path: p }
}

/// Redeeming a gift code.
pub fn entitlements_giftcode_redeem(gift_code: &str) -> (r: Route)
    ensures
        r.method is POST,
        r.path@ == "/entitlements/gift-codes/"@ + gift_code@ + "/redeem"@,
{
    let mut p = String::from_str("/entitlements/gift-codes/");
    p.append(gift_code);
    p.append("/redeem");
    Route { method: HttpMethod::POST, path: p }
}

/// The REST client of one API version: its identity, its base URL and its
/// rate limiter. One instance is shared by every caller; the limiter is the
/// only cross-call state.
pub struct DApi<V: DApiVersion> {
    token: Option<String>,
    user_agent: String,
    api_base: String,
    gate: RateLimitGate,
    api_ver: core::marker::PhantomData<V>,
}

impl<V: DApiVersion> DApi<V> {
    /// The authorization token sent with every request, if one is set.
    pub closed spec fn spec_token(&self) -> Option<Seq<char>> {
        match self.token {
            Some(t) => Some(t@),
            None => None,
        }
    }

    /// The user agent sent with every request.
    pub closed spec fn spec_user_agent(&self) -> Seq<char> {
        self.user_agent@
    }

    /// The base URL every path is appended to.
    pub closed spec fn spec_api_base(&self) -> Seq<char> {
        self.api_base@
    }

    /// The model of the client's rate limit gate.
    pub closed spec fn spec_gate(&self) -> GateModel {
        self.gate@
    }

    /// A fresh client of the version's base URL: no token, a stock browser
    /// user agent, and an idle gate.
    pub fn new() -> (r: DApi<V>)
        ensures
            r.spec_token() is None,
            r.spec_api_base() == "https://discord.com/api/"@ + V::spec_ver(),
            r.spec_user_agent()
                == "Mozilla/5.0 (Windows NT 10.0; Win64; x64) AppleWebKit/537.36 (KHTML, like Gecko) Chrome/111.0.0.0 Safari/537.36"@,
            r.spec_gate().global_deadline is None,
            r.spec_gate().buckets == Map::<u128, Option<u64>>::empty(),
    {
        let mut base = String::from_str("https://discord.com/api/");
        base.append(V::ver());
        let ua = String::from_str(
            "Mozilla/5.0 (Windows NT 10.0; Win64; x64) AppleWebKit/537.36 (KHTML, like Gecko) Chrome/111.0.0.0 Safari/537.36",
        );
        proof {
            reveal_strlit(
                "Mozilla/5.0 (Windows NT 10.0; Win64; x64) AppleWebKit/537.36 (KHTML, like Gecko) Chrome/111.0.0.0 Safari/537.36",
            );
        }
        DApi {
            token: None,
            user_agent: ua,
            api_base: base,
            gate: RateLimitGate::new(),
            api_ver: core::marker::PhantomData,
        }
    }

    /// Sets the authorization token sent with every request.
    pub fn set_token(&mut self, token: String)
        ensures
            final(self).spec_token() == Some(token@),
            final(self).spec_user_agent() == old(self).spec_user_agent(),
            final(self).spec_api_base() == old(self).spec_api_base(),
            final(self).spec_gate() == old(self).spec_gate(),
    {
        self.token = Some(token);
    }

    /// Sets the user agent sent with every request.
    pub fn set_user_agent(&mut self, user_agent: String)
        ensures
            final(self).spec_user_agent() == user_agent@,
            final(self).spec_token() == old(self).spec_token(),
            final(self).spec_api_base() == old(self).spec_api_base(),
            final(self).spec_gate() == old(self).spec_gate(),
    {
        self.user_agent = user_agent;
    }

    /// The authorization token, for the embedding program to put on the wire.
    pub fn token(&self) -> (r: &Option<String>)
        ensures
            match r {
                Some(t) => self.spec_token() == Some(t@),
                None => self.spec_token() is None,
            },
    {
        &self.token
    }

    /// The user agent, for the embedding program to put on the wire.
    pub fn user_agent(&self) -> (r: &String)
        ensures
            r@ == self.spec_user_agent(),
    {
        &self.user_agent
    }

    /// The full URL of a path: the version's base followed by the path.
    pub fn url_for(&self, path: &str) -> (r: String)
        ensures
            r@ == self.spec_api_base() + path@,
    {
        let mut url = self.api_base.clone();
        url.append(path);
        url
    }

    /// Checks the global deadline before an attempt; see
    /// [`RateLimitGate::poll_global`].
    pub fn poll_global(&mut self, now: u64) -> (r: Option<u64>)
        ensures
            (final(self).spec_gate(), r) == spec_poll_global(old(self).spec_gate(), now),
            final(self).spec_token() == old(self).spec_token(),
            final(self).spec_user_agent() == old(self).spec_user_agent(),
            final(self).spec_api_base() == old(self).spec_api_base(),
    {
        self.gate.poll_global(now)
    }

    /// Checks one resource's deadline before an attempt; see
    /// [`RateLimitGate::poll_resource`].
    pub fn poll_resource(&mut self, id: u128, now: u64) -> (r: Option<u64>)
        ensures
            (final(self).spec_gate(), r) == spec_poll_resource(old(self).spec_gate(), id, now),
            final(self).spec_token() == old(self).spec_token(),
            final(self).spec_user_agent() == old(self).spec_user_agent(),
            final(self).spec_api_base() == old(self).spec_api_base(),
    {
        self.gate.poll_resource(id, now)
    }

    /// Acts on one HTTP response's status and throttle headers; see
    /// [`on_response_status`] for the step and gate semantics.
    pub fn on_response(
        &mut self,
        status: u16,
        scope_header: Option<&str>,
        retry_after_header: Option<&str>,
        resource: Option<u128>,
        now: u64,
    ) -> (r: RequestStep)
        ensures
            final(self).spec_token() == old(self).spec_token(),
            final(self).spec_user_agent() == old(self).spec_user_agent(),
            final(self).spec_api_base() == old(self).spec_api_base(),
            spec_status_class(status) is Success ==> r is DecodeBody && final(self).spec_gate()
                == old(self).spec_gate(),
            spec_status_class(status) is NoContent ==> r is NoContent && final(self).spec_gate()
                == old(self).spec_gate(),
            spec_status_class(status) is Failure ==> r is DecodeErrorBody
                && final(self).spec_gate() == old(self).spec_gate(),
            spec_status_class(status) is TooManyRequests ==> (match (
                scope_header,
                retry_after_header,
            ) {
                (Some(sc), Some(ra)) => match spec_parse_u64(ra@) {
                    Some(secs) => {
                        let scope = spec_parse_scope(sc@);
                        let t = spec_retry_at(now, secs);
                        let (m2, ok) = spec_record_limit(old(self).spec_gate(), scope, resource, t);
                        if ok {
                            r is Retry && final(self).spec_gate() == m2
                        } else {
                            (r matches RequestStep::Fail(
                                crate::request::DApiError::ParsingResponse(_),
                            )) && final(self).spec_gate() == old(self).spec_gate()
                        }
                    },
                    None => (r matches RequestStep::Fail(
                        crate::request::DApiError::ParsingResponse(_),
                    )) && final(self).spec_gate() == old(self).spec_gate(),
                },
                _ => r is Retry && final(self).spec_gate() == old(self).spec_gate(),
            }),
    {
        on_response_status(&mut self.gate, status, scope_header, retry_after_header, resource, now)
    }
}

} // verus!
