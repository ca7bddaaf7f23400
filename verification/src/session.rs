//! The session engine: the state machine that one live connection runs, from
//! hello through identify or resume into steady state with heartbeats.
//!
//! The engine never touches a socket or a clock itself. Every transition
//! takes the current clock reading in milliseconds and the decoded inbound
//! frame, mutates the session state, and tells the caller what to send or
//! which error to fail with; the embedding program carries those actions out.

use vstd::prelude::*;

use crate::error::GCError;
use crate::protocol::{
    GatewayConnectionProperties, GatewayData, GatewayEvent, GatewayIdentifyPayload, GatewayIntents,
    GatewayOpcode, GatewayResumePayload, ResumeInfo,
};

verus! {

/// Heartbeat timers are reset to this far-future interval ("disarmed") on
/// every fresh transport, until a hello frame arrives with the real interval.
pub const DISARM_INTERVAL_MS: u64 = 3_600_000;

/// If this long has passed since the last heartbeat was sent and the last
/// acknowledgement still predates that heartbeat by as much, the server is
/// presumed dead.
pub const NO_ACK_THRESHOLD_MS: u64 = 5_000;

/// Subtraction of clock readings, saturating at zero.
pub open spec fn sat_sub(a: u64, b: u64) -> u64 {
    if a >= b {
        (a - b) as u64
    } else {
        0
    }
}

/// Whether a frame demands a resumable drop: an explicit reconnect request,
/// or an invalid-session notice whose payload says the session is resumable.
pub open spec fn spec_reconnect_signal(e: GatewayEvent) -> bool {
    e.op is RECONNECT || (e.d matches Some(GatewayData::InvalidSession(resumable)) && resumable)
}

/// Whether a frame reports a non-resumable invalid session: the caller must
/// perform a fresh connect, discarding any resume identity.
pub open spec fn spec_nonresumable_invalid(e: GatewayEvent) -> bool {
    e.op is INVALID_SESSION && !spec_reconnect_signal(e)
}

/// The payload variants a frame may carry are keyed by its envelope: this
/// holds when the payload variant (if any) agrees with the envelope fields,
/// which the two-pass decoder guarantees of every frame it produces.
pub open spec fn wf_event(e: GatewayEvent) -> bool {
    match e.d {
        Some(d) => crate::protocol::spec_payload_kind(e.op, e.t, true) == Some(
            spec_data_kind(d),
        ),
        None => true,
    }
}

/// The variant tag of a payload value.
pub open spec fn spec_data_kind(d: GatewayData) -> crate::protocol::PayloadKind {
    match d {
        GatewayData::SendIdentify(_) => crate::protocol::PayloadKind::SendIdentify,
        GatewayData::SendResume(_) => crate::protocol::PayloadKind::SendResume,
        GatewayData::SendHeartbeat(_) => crate::protocol::PayloadKind::SendHeartbeat,
        GatewayData::SendUpdatePresence(_) => crate::protocol::PayloadKind::SendUpdatePresence,
        GatewayData::Hello(_) => crate::protocol::PayloadKind::Hello,
        GatewayData::InvalidSession(_) => crate::protocol::PayloadKind::InvalidSession,
        GatewayData::Ready(_) => crate::protocol::PayloadKind::Ready,
        GatewayData::ChannelCreate(_) => crate::protocol::PayloadKind::ChannelCreate,
        GatewayData::ChannelUpdate(_) => crate::protocol::PayloadKind::ChannelUpdate,
        GatewayData::ChannelDelete(_) => crate::protocol::PayloadKind::ChannelDelete,
        GatewayData::GuildCreate(_) => crate::protocol::PayloadKind::GuildCreate,
        GatewayData::GuildUpdate(_) => crate::protocol::PayloadKind::GuildUpdate,
        GatewayData::GuildDelete(_) => crate::protocol::PayloadKind::GuildDelete,
        GatewayData::MessageCreate(_) => crate::protocol::PayloadKind::MessageCreate,
        GatewayData::MessageUpdate(_) => crate::protocol::PayloadKind::MessageUpdate,
    }
}

/// What the session engine asks its caller to do after an inbound frame was
/// applied: send an identify frame first if demanded, then forward the frame
/// to the outbound event stream.
#[derive(Debug, Clone, Copy, PartialEq, Eq, Structural)]
pub struct FrameOutcome {
    /// The hello frame arrived with no resume pending: exactly one identify
    /// frame (see [`SessionState::identify_event`]) must be sent now, before
    /// the next heartbeat can fire.
    pub send_identify: bool,
}

/// The state of one session over one connection lifetime. All instants are
/// monotone clock readings in milliseconds.
pub struct SessionState {
    /// When the next heartbeat is due.
    pub next_heartbeat: u64,
    /// When the last heartbeat was sent.
    pub last_heartbeat: u64,
    /// When the last heartbeat acknowledgement arrived.
    pub last_ack: u64,
    /// Interval between heartbeats, from the hello frame.
    pub heartbeat_interval: u64,
    /// Last sequence number observed on a numbered inbound frame; sent with
    /// every heartbeat and with a resume request.
    pub last_sequence: i64,
    /// Identity token sent at identify and resume time.
    pub token: String,
    /// Capability flags sent at identify time.
    pub intents: GatewayIntents,
    /// Session identity captured from the last ready dispatch, if any fresh
    /// connect has not cleared it since.
    pub resume_info: Option<ResumeInfo>,
    /// Whether the supervisor keeps reconnecting forever once bounded
    /// retries are exhausted.
    pub force_reconnect: bool,
    /// Round-trip latency of the last acknowledged heartbeat.
    pub ping: u64,
}

impl SessionState {
    /// A fresh session for one shard, with disarmed heartbeat timers.
    pub fn new(token: String, intents: GatewayIntents, force_reconnect: bool, now: u64) -> (r:
        SessionState)
        requires
            now + DISARM_INTERVAL_MS <= u64::MAX,
        ensures
            r.next_heartbeat == now + DISARM_INTERVAL_MS,
            r.last_heartbeat == now,
            r.last_ack == now,
            r.heartbeat_interval == DISARM_INTERVAL_MS,
            r.last_sequence == 0,
            r.token == token,
            r.intents == intents,
            r.resume_info is None,
            r.force_reconnect == force_reconnect,
            r.ping == 999,
    {
        SessionState {
            next_heartbeat: now + DISARM_INTERVAL_MS,
            last_heartbeat: now,
            last_ack: now,
            heartbeat_interval: DISARM_INTERVAL_MS,
            last_sequence: 0,
            token,
            intents,
            resume_info: None,
            force_reconnect,
            ping: 999,
        }
    }

    /// On a successful transport handshake: heartbeat timers are reset to the
    /// disarmed far-future value until the next hello frame arrives.
    pub fn on_connected(&mut self, now: u64)
        requires
            now + DISARM_INTERVAL_MS <= u64::MAX,
        ensures
            final(self).next_heartbeat == now + DISARM_INTERVAL_MS,
            final(self).last_heartbeat == now,
            final(self).last_ack == now,
            final(self).heartbeat_interval == DISARM_INTERVAL_MS,
            final(self).last_sequence == old(self).last_sequence,
            final(self).token == old(self).token,
            final(self).intents == old(self).intents,
            final(self).resume_info == old(self).resume_info,
            final(self).force_reconnect == old(self).force_reconnect,
            final(self).ping == old(self).ping,
    {
        self.next_heartbeat = now + DISARM_INTERVAL_MS;
        self.last_heartbeat = now;
        self.last_ack = now;
        self.heartbeat_interval = DISARM_INTERVAL_MS;
    }

    /// Initiating a fresh (non-resuming) connect discards the captured
    /// session identity — after this, a hello frame leads to a full identify
    /// — and resets the sequence counter: the new session is numbered anew,
    /// where a resume would have preserved the counter.
    pub fn on_fresh_connect(&mut self)
        ensures
            final(self).resume_info is None,
            final(self).last_sequence == 0,
            *final(self) == (SessionState {
                resume_info: None::<ResumeInfo>,
                last_sequence: 0i64,
                ..*old(self)
            }),
            final(self)@ == spec_on_fresh_connect(old(self)@),
    {
        self.resume_info = None;
        self.last_sequence = 0;
    }

    /// The identify frame for this session: token, capability flags, and
    /// static client metadata.
    pub fn identify_event(&self) -> (r: GatewayEvent)
        ensures
            r.op is IDENTIFY,
            r.s is None,
            r.t is None,
            r.d matches Some(GatewayData::SendIdentify(p)) && {
                &&& p.token@ == self.token@
                &&& p.intents == self.intents
                &&& p.properties.os@ == "Windows"@
                &&& p.properties.browser@ == "danielek"@
                &&& p.properties.device@ == "danielek"@
                &&& p.compress is None
                &&& p.large_threshold is None
                &&& p.shard is None
                &&& p.presence is None
            },
    {
        let payload = GatewayIdentifyPayload {
            token: self.token.clone(),
            properties: GatewayConnectionProperties {
                os: String::from_str("Windows"),
                browser: String::from_str("danielek"),
                device: String::from_str("danielek"),
            },
            compress: None,
            large_threshold: None,
            shard: None,
            presence: None,
            intents: self.intents,
        };
        GatewayEvent {
            op: GatewayOpcode::IDENTIFY,
            d: Some(GatewayData::SendIdentify(Box::new(payload))),
            s: None,
            t: None,
        }
    }

    /// The resume request for this session: the transport URL to reconnect
    /// to, and the resume frame carrying token, session id and the last
    /// observed sequence number. Fails when no ready dispatch has supplied a
    /// session identity (or a fresh connect has discarded it).
    pub fn resume_request(&self) -> (r: Result<(String, GatewayEvent), GCError>)
        ensures
            r is Ok <==> self.resume_info is Some,
            r matches Ok((url, e)) ==> {
                &&& self.resume_info matches Some(info) && url@ == info.gateway_url@
                    + "/?v=10&encoding=json"@
                &&& e.op is RESUME
                &&& e.s is None
                &&& e.t is None
                &&& e.d matches Some(GatewayData::SendResume(p)) && {
                    &&& p.token@ == self.token@
                    &&& self.resume_info matches Some(info2) && p.session_id@ == info2.session_id@
                    &&& p.seq == self.last_sequence
                }
            },
            r is Err ==> r matches Err(GCError::Misc(_)),
    {
        match &self.resume_info {
            None => Err(
                GCError::Misc(
                    String::from_str("Cannot resume, lacking Resume Info from the Ready event"),
                ),
            ),
            Some(info) => {
                let payload = GatewayResumePayload {
                    token: self.token.clone(),
                    session_id: info.session_id.clone(),
                    seq: self.last_sequence,
                };
                let event = GatewayEvent {
                    op: GatewayOpcode::RESUME,
                    d: Some(GatewayData::SendResume(Box::new(payload))),
                    s: None,
                    t: None,
                };
                let mut url = info.gateway_url.clone();
                url.append("/?v=10&encoding=json");
                Ok((url, event))
            },
        }
    }

    /// Whether the heartbeat timer has fired at clock reading `now`.
    pub fn heartbeat_due(&self, now: u64) -> (r: bool)
        ensures
            r == (now >= self.next_heartbeat),
            r == spec_heartbeat_due(self@, now),
    {
        now >= self.next_heartbeat
    }

    /// The heartbeat frame: it carries the last observed sequence number.
    pub fn heartbeat_event(&self) -> (r: GatewayEvent)
        ensures
            r.op is HEARTBEAT,
            r.d == Some(GatewayData::SendHeartbeat(self.last_sequence)),
            r.s is None,
            r.t is None,
    {
        GatewayEvent {
            op: GatewayOpcode::HEARTBEAT,
            d: Some(GatewayData::SendHeartbeat(self.last_sequence)),
            s: None,
            t: None,
        }
    }

    /// After a heartbeat frame was successfully written to the transport:
    /// record when it went out and advance the timer by one interval, keeping
    /// exactly one outstanding heartbeat cycle.
    pub fn on_heartbeat_sent(&mut self, now: u64)
        requires
            old(self).next_heartbeat + old(self).heartbeat_interval <= u64::MAX,
        ensures
            final(self).last_heartbeat == now,
            final(self).next_heartbeat == old(self).next_heartbeat + old(
                self,
            ).heartbeat_interval,
            *final(self) == (SessionState {
                last_heartbeat: now,
                next_heartbeat: (old(self).next_heartbeat + old(self).heartbeat_interval) as u64,
                ..*old(self)
            }),
    {
        self.last_heartbeat = now;
        self.next_heartbeat = self.next_heartbeat + self.heartbeat_interval;
    }

    /// The liveness check run on every loop iteration: the connection is
    /// presumed dead — the engine must fail with the no-heartbeat error —
    /// when the last heartbeat has gone unacknowledged for the threshold and
    /// at least the threshold has passed since it was sent.
    pub fn liveness_failed(&self, now: u64) -> (r: bool)
        ensures
            r == (sat_sub(self.last_heartbeat, self.last_ack) >= NO_ACK_THRESHOLD_MS && sat_sub(
                now,
                self.last_heartbeat,
            ) >= NO_ACK_THRESHOLD_MS),
    {
        let since_ack = if self.last_heartbeat >= self.last_ack {
            self.last_heartbeat - self.last_ack
        } else {
            0
        };
        let since_beat = if now >= self.last_heartbeat {
            now - self.last_heartbeat
        } else {
            0
        };
        since_ack >= NO_ACK_THRESHOLD_MS && since_beat >= NO_ACK_THRESHOLD_MS
    }

    /// Applies one decoded inbound frame to the session at clock reading
    /// `now`. In order: a hello frame arms the heartbeat timer at half the
    /// announced interval and demands an identify when no resume is pending;
    /// a numbered frame assigns the sequence counter; a ready dispatch
    /// captures the resume identity (the only way it is ever populated); a
    /// reconnect request or resumable invalid-session fails resumably and a
    /// non-resumable invalid-session fails unexpectedly (both after the
    /// updates above); a heartbeat acknowledgement records the round-trip
    /// latency; a server heartbeat request makes the next heartbeat due
    /// immediately. On success the caller forwards the frame to the event
    /// stream, after sending the identify frame if one is demanded. What this
    /// does to the session's model is exactly [`spec_handle_frame`].
    pub fn handle_frame(&mut self, event: &GatewayEvent, now: u64) -> (r: Result<
        FrameOutcome,
        GCError,
    >)
        requires
            wf_event(*event),
            event.d matches Some(GatewayData::Hello(h)) ==> 0 <= h.heartbeat_interval && now
                + h.heartbeat_interval as u64 / 2 <= u64::MAX,
        ensures
            final(self)@ == spec_handle_frame(old(self)@, *event, now).0,
            r == spec_handle_frame(old(self)@, *event, now).1,
            r is Err <==> spec_reconnect_signal(*event) || spec_nonresumable_invalid(*event),
            spec_reconnect_signal(*event) ==> r matches Err(
                GCError::ReconnectableClose(None::<crate::error::CloseInfo>),
            ),
            spec_nonresumable_invalid(*event) ==> r matches Err(
                GCError::UnexpectedClose(None::<crate::error::CloseInfo>),
            ),
            r matches Ok(o) ==> o.send_identify == (event.d matches Some(GatewayData::Hello(_))
                && old(self).resume_info is None),
    {
        let mut send_identify = false;

        if let Some(GatewayData::Hello(h)) = &event.d {
            self.heartbeat_interval = h.heartbeat_interval as u64;
            self.next_heartbeat = now + self.heartbeat_interval / 2;
            if self.resume_info.is_none() {
                // when resuming, the resume frame replaces the identify
                send_identify = true;
            }
        }

        if let Some(q) = event.s {
            self.last_sequence = q;
        }

        if let Some(GatewayData::Ready(p)) = &event.d {
            self.resume_info = Some(
                ResumeInfo {
                    session_id: p.session_id.clone(),
                    gateway_url: p.resume_gateway_url.clone(),
                },
            );
        }

        let reconnect_signal = match (&event.op, &event.d) {
            (GatewayOpcode::RECONNECT, _) => true,
            (_, Some(GatewayData::InvalidSession(resumable))) => *resumable,
            _ => false,
        };
        if reconnect_signal {
            return Err(GCError::ReconnectableClose(None));
        }
        if let GatewayOpcode::INVALID_SESSION = event.op {
            return Err(GCError::UnexpectedClose(None));
        }

        if let GatewayOpcode::HEARTBEAT_ACK = event.op {
            self.last_ack = now;
            self.ping = if now >= self.last_heartbeat {
                now - self.last_heartbeat
            } else {
                0
            };
        }

        if let GatewayOpcode::HEARTBEAT = event.op {
            self.next_heartbeat = now;
        }

        Ok(FrameOutcome { send_identify })
    }
}

/// The transport URL a fresh connect dials: the entry point the bootstrap
/// call returned, with the protocol version appended.
pub fn wss_url_with_version(base: &str) -> (r: String)
    ensures
        r@ == base@ + "/?v=10"@,
{
    let mut url = String::from_str("");
    url.append(base);
    url.append("/?v=10");
    proof {
        reveal_strlit("");
        assert(url@ =~= base@ + "/?v=10"@);
    }
    url
}

/// The model of one session: its state with the strings read abstractly, so
/// that laws can be stated and proved over the engine's step function.
pub struct SessionModel {
    pub next_heartbeat: u64,
    pub last_heartbeat: u64,
    pub last_ack: u64,
    pub heartbeat_interval: u64,
    pub last_sequence: i64,
    pub token: Seq<char>,
    pub intents: GatewayIntents,
    /// The captured resume identity: the session id and the resume URL.
    pub resume_info: Option<(Seq<char>, Seq<char>)>,
    pub force_reconnect: bool,
    pub ping: u64,
}

impl View for SessionState {
    type V = SessionModel;

    open spec fn view(&self) -> SessionModel {
        SessionModel {
            next_heartbeat: self.next_heartbeat,
            last_heartbeat: self.last_heartbeat,
            last_ack: self.last_ack,
            heartbeat_interval: self.heartbeat_interval,
            last_sequence: self.last_sequence,
            token: self.token@,
            intents: self.intents,
            resume_info: match self.resume_info {
                Some(i) => Some((i.session_id@, i.gateway_url@)),
                None => None,
            },
            force_reconnect: self.force_reconnect,
            ping: self.ping,
        }
    }
}

/// What a fresh (non-resuming) connect does to the model: it discards the
/// captured resume identity and resets the sequence counter, where a resume
/// preserves both.
pub open spec fn spec_on_fresh_connect(m: SessionModel) -> SessionModel {
    SessionModel { resume_info: None, last_sequence: 0, ..m }
}

/// Whether the heartbeat timer has fired at clock reading `now`, on the model.
pub open spec fn spec_heartbeat_due(m: SessionModel, now: u64) -> bool {
    now >= m.next_heartbeat
}

/// What [`SessionState::handle_frame`] does to the model, step by step in the
/// order the engine applies them: the hello arming, the sequence assignment,
/// the resume-identity capture, then either the failure the frame demands or
/// the acknowledgement and heartbeat-request updates.
pub open spec fn spec_handle_frame(m: SessionModel, e: GatewayEvent, now: u64) -> (
    SessionModel,
    Result<FrameOutcome, GCError>,
) {
    let send_identify = e.d matches Some(GatewayData::Hello(_)) && m.resume_info is None;
    let m1 = match e.d {
        Some(GatewayData::Hello(h)) => SessionModel {
            heartbeat_interval: h.heartbeat_interval as u64,
            next_heartbeat: (now + (h.heartbeat_interval as u64) / 2) as u64,
            ..m
        },
        _ => m,
    };
    let m2 = match e.s {
        Some(q) => SessionModel { last_sequence: q, ..m1 },
        None => m1,
    };
    let m3 = match e.d {
        Some(GatewayData::Ready(p)) => SessionModel {
            resume_info: Some((p.session_id@, p.resume_gateway_url@)),
            ..m2
        },
        _ => m2,
    };
    if spec_reconnect_signal(e) {
        (m3, Err(GCError::ReconnectableClose(None)))
    } else if spec_nonresumable_invalid(e) {
        (m3, Err(GCError::UnexpectedClose(None)))
    } else {
        let m4 = if e.op is HEARTBEAT_ACK {
            SessionModel { last_ack: now, ping: sat_sub(now, m.last_heartbeat), ..m3 }
        } else {
            m3
        };
        let m5 = if e.op is HEARTBEAT {
            SessionModel { next_heartbeat: now, ..m4 }
        } else {
            m4
        };
        (m5, Ok(FrameOutcome { send_identify }))
    }
}

/// The session model after the first `n` of a series of inbound frames, each
/// paired with the clock reading at which it arrived.
pub open spec fn spec_session_after(
    m: SessionModel,
    frames: Seq<(GatewayEvent, u64)>,
    n: int,
) -> SessionModel
    decreases n,
{
    if n <= 0 {
        m
    } else {
        spec_handle_frame(spec_session_after(m, frames, n - 1), frames[n - 1].0, frames[n - 1].1).0
    }
}

/// One frame moves the sequence counter exactly by the assignment rule: a
/// numbered frame assigns it, an unnumbered one leaves it.
proof fn lemma_frame_moves_sequence(m: SessionModel, e: GatewayEvent, now: u64)
    ensures
        spec_handle_frame(m, e, now).0.last_sequence == (match e.s {
            Some(q) => q,
            None => m.last_sequence,
        }),
{
}

/// The counter after `n` frames is the initial value or a number carried by
/// one of those frames.
proof fn lemma_sequence_origin(m: SessionModel, frames: Seq<(GatewayEvent, u64)>, n: int)
    requires
        0 <= n <= frames.len(),
    ensures
        spec_session_after(m, frames, n).last_sequence == m.last_sequence || exists|k: int|
            0 <= k < n && frames[k].0.s == Some(spec_session_after(m, frames, n).last_sequence),
    decreases n,
{
    if n > 0 {
        lemma_frame_moves_sequence(spec_session_after(m, frames, n - 1), frames[n - 1].0, frames[n - 1].1);
        match frames[n - 1].0.s {
            Some(q) => {
                assert(frames[n - 1].0.s == Some(spec_session_after(m, frames, n).last_sequence));
            },
            None => {
                lemma_sequence_origin(m, frames, n - 1);
            },
        }
    }
}

/// Observed by the consumer of one logically continuous session, the sequence
/// counter never decreases: for any series of inbound frames whose numbered
/// members are at least the initial counter and arrive in non-decreasing
/// order — the server numbers them increasingly — the counter after any
/// prefix of the series is at most the counter after any longer prefix.
pub proof fn lemma_last_sequence_monotone(
    m: SessionModel,
    frames: Seq<(GatewayEvent, u64)>,
    i: int,
    j: int,
)
    requires
        forall|k: int| #![auto] 0 <= k < frames.len() && frames[k].0.s is Some
            ==> frames[k].0.s->Some_0 >= m.last_sequence,
        forall|k1: int, k2: int| #![auto]
            0 <= k1 < k2 < frames.len() && frames[k1].0.s is Some && frames[k2].0.s is Some
                ==> frames[k1].0.s->Some_0 <= frames[k2].0.s->Some_0,
        0 <= i <= j <= frames.len(),
    ensures
        spec_session_after(m, frames, i).last_sequence <= spec_session_after(
            m,
            frames,
            j,
        ).last_sequence,
    decreases j - i,
{
    if i < j {
        lemma_last_sequence_monotone(m, frames, i, j - 1);
        lemma_frame_moves_sequence(spec_session_after(m, frames, j - 1), frames[j - 1].0, frames[j - 1].1);
        match frames[j - 1].0.s {
            Some(q) => {
                lemma_sequence_origin(m, frames, j - 1);
            },
            None => {},
        }
    }
}

/// After a hello frame announcing interval `I` arrives at instant `now`, the
/// next heartbeat is scheduled at exactly `now + I / 2` — so no heartbeat is
/// due before that — and exactly one identify frame is demanded, precisely
/// when no resume is pending.
pub proof fn lemma_hello_schedules_heartbeat(m: SessionModel, e: GatewayEvent, now: u64)
    requires
        wf_event(e),
        e.d matches Some(GatewayData::Hello(_)),
        (match e.d {
            Some(GatewayData::Hello(h)) => 0 <= h.heartbeat_interval && now
                + h.heartbeat_interval as u64 / 2 <= u64::MAX,
            _ => true,
        }),
    ensures
        ({
            let (m2, r) = spec_handle_frame(m, e, now);
            match e.d {
                Some(GatewayData::Hello(h)) => {
                    &&& m2.heartbeat_interval == h.heartbeat_interval as u64
                    &&& m2.next_heartbeat == now + h.heartbeat_interval as u64 / 2
                    &&& r == Ok::<FrameOutcome, GCError>(
                        FrameOutcome { send_identify: m.resume_info is None },
                    )
                    &&& forall|t: u64| t < m2.next_heartbeat ==> !spec_heartbeat_due(m2, t)
                },
                _ => true,
            }
        }),
{
    assert(e.op is HELLO);
}

/// No frame but a ready dispatch ever touches the resume identity: it is
/// populated in exactly one way.
pub proof fn lemma_resume_identity_only_from_ready(m: SessionModel, e: GatewayEvent, now: u64)
    requires
        !(e.d matches Some(GatewayData::Ready(_))),
    ensures
        spec_handle_frame(m, e, now).0.resume_info == m.resume_info,
{
}

/// A ready dispatch captures the resume identity — exactly the session id and
/// resume URL of its payload, and this is the only way it is ever populated —
/// and the next fresh (non-resuming) connect discards it again.
pub proof fn lemma_ready_sets_resume_identity(m: SessionModel, e: GatewayEvent, now: u64)
    requires
        e.d matches Some(GatewayData::Ready(_)),
    ensures
        ({
            let m2 = spec_handle_frame(m, e, now).0;
            match e.d {
                Some(GatewayData::Ready(p)) => {
                    &&& m2.resume_info == Some((p.session_id@, p.resume_gateway_url@))
                    &&& spec_on_fresh_connect(m2).resume_info is None
                },
                _ => true,
            }
        }),
{
}

} // verus!
