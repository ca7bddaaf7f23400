//! Decision logic of the gift scanner: the message pattern it watches for,
//! the dedup of already-tried codes, the registry that keeps any guild
//! watched by at most one scanner, the classification of redeem responses,
//! and the command words of the control channel.
//!
//! Everything here is a function over plain values; the scanner's I/O — the
//! event stream, the REST calls, the relay messages — is the embedding
//! program's.

use vstd::prelude::*;

use crate::protocol::GatewayIntents;
use crate::request::DApiError;

verus! {

/// The capability flags a scanner declares: guilds, their messages, direct
/// messages, and message content.
pub fn scanner_intents() -> (r: GatewayIntents)
    ensures
        r.0 == GatewayIntents::GUILDS | GatewayIntents::MESSAGE_CONTENT
            | GatewayIntents::GUILD_MESSAGES | GatewayIntents::DIRECT_MESSAGES,
{
    GatewayIntents(
        GatewayIntents::GUILDS | GatewayIntents::MESSAGE_CONTENT | GatewayIntents::GUILD_MESSAGES
            | GatewayIntents::DIRECT_MESSAGES,
    )
}

/// One try at a gift code.
#[derive(Debug, Clone)]
pub enum GiftRedeemAttempt {
    /// The code was redeemed.
    Success { info: String },
    /// Someone was faster: the code is already claimed, by `gifter`.
    Claimed { info: String, gifter: String },
    /// The code does not exist.
    Invalid { info: String },
    /// The code was looked up and deliberately not redeemed.
    Ignored,
}

/// What one scanned message produced, for the relay.
#[derive(Debug, Clone)]
pub struct GiftReport {
    pub from: String,
    pub channel: String,
    pub guild: String,
    pub content: String,
    pub ping: u64,
    pub attempts: Vec<(String, GiftRedeemAttempt)>,
}

/// Whether any attempt of a report succeeded: decides the report's color and
/// whether the relay pings everyone.
pub fn report_has_success(attempts: &Vec<(String, GiftRedeemAttempt)>) -> (r: bool)
    ensures
        r == exists|i: int|
            0 <= i < attempts@.len() && #[trigger] attempts@[i].1 is Success,
{
    let n = attempts.len();
    let mut i: usize = 0;
    while i < n
        invariant
            i <= n,
            n == attempts@.len(),
            forall|k: int| 0 <= k < i ==> !(#[trigger] attempts@[k].1 is Success),
        decreases n - i,
    {
        if let GiftRedeemAttempt::Success { .. } = &attempts[i].1 {
            return true;
        }
        i = i + 1;
    }
    false
}

/// The first `max` characters of a string, or all of it if it is shorter:
/// how the relay fits a message's content into an embed field.
pub fn truncate_chars(s: &str, max: usize) -> (r: String)
    ensures
        s@.len() > max ==> r@ == s@.take(max as int),
        s@.len() <= max ==> r@ == s@,
{
    let n = s.unicode_len();
    if n > max {
        let cut = s.substring_char(0, max);
        proof {
            assert(s@.subrange(0, max as int) =~= s@.take(max as int));
        }
        String::from_str(cut)
    } else {
        proof {
            assert(s@.subrange(0, n as int) =~= s@);
        }
        String::from_str(s)
    }
}

/// The codes already tried by any scanner, shared so that no code is
/// redeemed twice.
pub struct UsedCodes {
    codes: Vec<String>,
}

impl View for UsedCodes {
    type V = Set<Seq<char>>;

    closed spec fn view(&self) -> Set<Seq<char>> {
        Set::new(|c: Seq<char>| exists|i: int| 0 <= i < self.codes@.len() && self.codes@[i]@ == c)
    }
}

impl UsedCodes {
    /// No code tried yet.
    pub fn new() -> (r: UsedCodes)
        ensures
            r@ == Set::<Seq<char>>::empty(),
    {
        let r = UsedCodes { codes: Vec::new() };
        proof {
            assert(r@ =~= Set::<Seq<char>>::empty());
        }
        r
    }

    /// Claims a code: returns whether it was fresh, and remembers it either
    /// way. A code is redeemed only when this returns true.
    pub fn claim(&mut self, code: String) -> (fresh: bool)
        ensures
            fresh == !old(self)@.contains(code@),
            final(self)@ == old(self)@.insert(code@),
    {
        let n = self.codes.len();
        let mut i: usize = 0;
        while i < n
            invariant
                i <= n,
                n == self.codes@.len(),
                forall|k: int| 0 <= k < i ==> #[trigger] self.codes@[k]@ != code@,
            decreases n - i,
        {
            if self.codes[i].eq(&code) {
                proof {
                    assert(self@.contains(code@));
                    assert(self@.insert(code@) =~= self@);
                }
                return false;
            }
            i = i + 1;
        }
        proof {
            assert(!self@.contains(code@));
        }
        let ghost pre = *self;
        self.codes.push(code);
        proof {
            assert forall|c: Seq<char>| self@.contains(c) <==> pre@.insert(code@).contains(
                c,
            ) by {
                if pre@.insert(code@).contains(c) {
                    if c == code@ {
                        assert(self.codes@[self.codes@.len() - 1]@ == c);
                    } else {
                        let i = choose|i: int|
                            0 <= i < pre.codes@.len() && pre.codes@[i]@ == c;
                        assert(self.codes@[i]@ == c);
                    }
                }
            }
            assert(self@ =~= pre@.insert(code@));
        }
        true
    }
}

/// Which guilds each scanner watches, shared by all scanners of one process
/// so that no guild is watched twice. A pair `(scanner, guild)` is present
/// exactly when that scanner watches that guild; no pair is present twice.
pub struct GuildRegistry {
    pairs: Vec<(u128, String)>,
}

impl View for GuildRegistry {
    type V = Seq<(u128, Seq<char>)>;

    closed spec fn view(&self) -> Seq<(u128, Seq<char>)> {
        Seq::new(self.pairs@.len(), |i: int| (self.pairs@[i].0, self.pairs@[i].1@))
    }
}

/// Whether a scanner watches a guild, in a registry state.
pub open spec fn spec_watches(r: Seq<(u128, Seq<char>)>, scanner: u128, guild: Seq<char>) -> bool {
    exists|i: int| 0 <= i < r.len() && r[i] == (scanner, guild)
}

/// Whether any scanner other than the given one watches a guild.
pub open spec fn spec_watched_by_other(
    r: Seq<(u128, Seq<char>)>,
    scanner: u128,
    guild: Seq<char>,
) -> bool {
    exists|i: int| 0 <= i < r.len() && r[i].0 != scanner && r[i].1 == guild
}

impl GuildRegistry {
    /// An empty registry.
    pub fn new() -> (r: GuildRegistry)
        ensures
            r@ =~= Seq::<(u128, Seq<char>)>::empty(),
    {
        GuildRegistry { pairs: Vec::new() }
    }

    /// Whether any scanner but `scanner` watches `guild`: if so, a scanner
    /// that just joined `guild` must leave it again.
    pub fn watched_by_other(&self, scanner: u128, guild: &String) -> (r: bool)
        ensures
            r == spec_watched_by_other(self@, scanner, guild@),
    {
        let n = self.pairs.len();
        let mut i: usize = 0;
        while i < n
            invariant
                i <= n,
                n == self@.len(),
                forall|k: int|
                    0 <= k < i ==> !(#[trigger] self@[k].0 != scanner && self@[k].1 == guild@),
            decreases n - i,
        {
            if self.pairs[i].0 != scanner && self.pairs[i].1.eq(guild) {
                proof {
                    assert(self@[i as int].0 != scanner && self@[i as int].1 == guild@);
                }
                return true;
            }
            i = i + 1;
        }
        false
    }

    /// Records that `scanner` watches `guild`, once: a pair already present
    /// is not doubled.
    pub fn insert(&mut self, scanner: u128, guild: String)
        ensures
            old(self)@.contains((scanner, guild@)) ==> final(self)@ == old(self)@,
            !old(self)@.contains((scanner, guild@)) ==> final(self)@ == old(self)@.push(
                (scanner, guild@),
            ),
    {
        let n = self.pairs.len();
        let mut i: usize = 0;
        while i < n
            invariant
                i <= n,
                n == self@.len(),
                forall|k: int| 0 <= k < i ==> #[trigger] self@[k] != (scanner, guild@),
            decreases n - i,
        {
            if self.pairs[i].0 == scanner && self.pairs[i].1.eq(&guild) {
                proof {
                    assert(self@[i as int] == (scanner, guild@));
                }
                return ;
            }
            i = i + 1;
        }
        let ghost pre = self@;
        self.pairs.push((scanner, guild));
        proof {
            assert(self@ =~= pre.push((scanner, guild@)));
        }
    }

    /// Forgets that `scanner` watches `guild` (all such pairs, were the
    /// registry ever to hold more than one).
    pub fn remove(&mut self, scanner: u128, guild: &String)
        ensures
            final(self)@ =~= old(self)@.filter(
                |p: (u128, Seq<char>)| p != (scanner, guild@),
            ),
    {
        let ghost pre = self@;
        let n = self.pairs.len();
        let mut kept: Vec<(u128, String)> = Vec::new();
        let mut i: usize = 0;
        while i < n
            invariant
                i <= n,
                n == self@.len(),
                self@ == pre,
                Seq::new(kept@.len(), |k: int| (kept@[k].0, kept@[k].1@)) =~= pre.take(
                    i as int,
                ).filter(|p: (u128, Seq<char>)| p != (scanner, guild@)),
            decreases n - i,
        {
            proof {
                assert(pre.take(i as int + 1).drop_last() =~= pre.take(i as int));
                assert(pre.take(i as int + 1).last() == pre[i as int]);
                reveal(Seq::filter);
            }
            if !(self.pairs[i].0 == scanner && self.pairs[i].1.eq(guild)) {
                let entry = (self.pairs[i].0, self.pairs[i].1.clone());
                proof {
                    assert(entry.1@ == self.pairs@[i as int].1@);
                }
                kept.push(entry);
            }
            i = i + 1;
        }
        proof {
            assert(pre.take(n as int) =~= pre);
        }
        self.pairs = kept;
    }

    /// Forgets a scanner entirely, as when it is dropped.
    pub fn remove_scanner(&mut self, scanner: u128)
        ensures
            final(self)@ =~= old(self)@.filter(|p: (u128, Seq<char>)| p.0 != scanner),
    {
        let ghost pre = self@;
        let n = self.pairs.len();
        let mut kept: Vec<(u128, String)> = Vec::new();
        let mut i: usize = 0;
        while i < n
            invariant
                i <= n,
                n == self@.len(),
                self@ == pre,
                Seq::new(kept@.len(), |k: int| (kept@[k].0, kept@[k].1@)) =~= pre.take(
                    i as int,
                ).filter(|p: (u128, Seq<char>)| p.0 != scanner),
            decreases n - i,
        {
            proof {
                assert(pre.take(i as int + 1).drop_last() =~= pre.take(i as int));
                assert(pre.take(i as int + 1).last() == pre[i as int]);
                reveal(Seq::filter);
            }
            if self.pairs[i].0 != scanner {
                let entry = (self.pairs[i].0, self.pairs[i].1.clone());
                kept.push(entry);
            }
            i = i + 1;
        }
        proof {
            assert(pre.take(n as int) =~= pre);
        }
        self.pairs = kept;
    }

    /// How many guilds a scanner watches.
    pub fn count(&self, scanner: u128) -> (r: usize)
        ensures
            r == self@.filter(|p: (u128, Seq<char>)| p.0 == scanner).len(),
    {
        let n = self.pairs.len();
        let mut c: usize = 0;
        let mut i: usize = 0;
        while i < n
            invariant
                i <= n,
                n == self@.len(),
                c == self@.take(i as int).filter(|p: (u128, Seq<char>)| p.0 == scanner).len(),
                c <= i,
            decreases n - i,
        {
            proof {
                assert(self@.take(i as int + 1).drop_last() =~= self@.take(i as int));
                assert(self@.take(i as int + 1).last() == self@[i as int]);
                reveal(Seq::filter);
            }
            if self.pairs[i].0 == scanner {
                c = c + 1;
            }
            i = i + 1;
        }
        proof {
            assert(self@.take(n as int) =~= self@);
        }
        c
    }

    /// A guild other than `exclude` that both `scanner` and some other
    /// scanner watch, if any: found at startup, it is a configuration error
    /// the scanner refuses to run with.
    pub fn first_duplicate(&self, scanner: u128, exclude: &String) -> (r: Option<String>)
        ensures
            match r {
                Some(g) => g@ != exclude@ && spec_watches(self@, scanner, g@)
                    && spec_watched_by_other(self@, scanner, g@),
                None => forall|g: Seq<char>|
                    #![auto]
                    g != exclude@ && spec_watches(self@, scanner, g) ==> !spec_watched_by_other(
                        self@,
                        scanner,
                        g,
                    ),
            },
    {
        let n = self.pairs.len();
        let mut i: usize = 0;
        while i < n
            invariant
                i <= n,
                n == self@.len(),
                forall|k: int|
                    #![auto]
                    0 <= k < i ==> !(self@[k].0 == scanner && self@[k].1 != exclude@
                        && spec_watched_by_other(self@, scanner, self@[k].1)),
            decreases n - i,
        {
            if self.pairs[i].0 == scanner && !self.pairs[i].1.eq(exclude) {
                let g = &self.pairs[i].1;
                if self.watched_by_other(scanner, g) {
                    proof {
                        assert(self@[i as int] == (scanner, g@));
                    }
                    return Some(g.clone());
                }
            }
            i = i + 1;
        }
        proof {
            assert forall|g: Seq<char>|
                g != exclude@ && spec_watches(self@, scanner, g) implies !spec_watched_by_other(
                self@,
                scanner,
                g,
            ) by {
                let k = choose|k: int| 0 <= k < self@.len() && self@[k] == (scanner, g);
            }
        }
        None
    }
}

/// The presence update a scanner advertises once it is ready: online,
/// watching, created at the given unix instant.
pub fn status_event(created_at: u64) -> (r: crate::protocol::GatewayEvent)
    ensures
        r.op is PRESENCE_UPDATE,
        r.s is None,
        r.t is None,
        r.d matches Some(crate::protocol::GatewayData::SendUpdatePresence(p)) && {
            &&& p.since is None
            &&& !p.afk
            &&& p.status is online
            &&& p.activities@.len() == 1
            &&& p.activities@[0].name@ == "y'all"@
            &&& p.activities@[0].activity_type is WATCHING
            &&& p.activities@[0].url is None
            &&& p.activities@[0].created_at == created_at
            &&& p.activities@[0].timestamps is None
        },
{
    let activity = crate::protocol::GatewayActivity {
        name: String::from_str("y'all"),
        activity_type: crate::protocol::GatewayActivityType::WATCHING,
        url: None,
        created_at,
        timestamps: None,
    };
    let mut activities = Vec::new();
    activities.push(activity);
    let presence = crate::protocol::GatewayPresenceSend {
        since: None,
        activities,
        status: crate::protocol::GatewayStatus::online,
        afk: false,
    };
    crate::protocol::GatewayEvent {
        op: crate::protocol::GatewayOpcode::PRESENCE_UPDATE,
        d: Some(crate::protocol::GatewayData::SendUpdatePresence(Box::new(presence))),
        s: None,
        t: None,
    }
}

/// What the pre-redeem lookup of a gift code decides.
#[derive(Debug, Clone)]
pub enum PrecheckDecision {
    /// The code does not exist: report it invalid, do not redeem.
    Invalid { info: String },
    /// The gift is not worth redeeming: report it ignored.
    Ignored,
    /// Worth redeeming: proceed.
    Proceed,
    /// The lookup itself failed: give up on this code with an error.
    Fail { info: String },
}

/// The error code the API answers a lookup of an unknown gift code with.
pub const UNKNOWN_GIFT_CODE: u32 = 10038;

/// The error code the API answers a redeem of an already claimed code with.
pub const GIFT_ALREADY_CLAIMED: u32 = 50050;

/// Decides, from the outcome of the gift lookup, whether a code is redeemed.
/// The lookup outcome is handed in as plain values: the structured API error
/// if the call failed with one, a description of any other failure, or the
/// name of the gifted product on success (when the response named one).
///
/// An unknown-code error makes the code invalid; any other failure gives the
/// code up; a product that is absent or the basic tier is ignored; anything
/// else is redeemed.
pub fn classify_gift_lookup(
    outcome: Result<Option<&String>, &DApiError>,
) -> (r: PrecheckDecision)
    ensures
        match outcome {
            Err(DApiError::ApiError(e)) => if e.code == UNKNOWN_GIFT_CODE {
                r matches PrecheckDecision::Invalid { info } && info@ == e.message@
            } else {
                r matches PrecheckDecision::Fail { info } && info@ == e.message@
            },
            Err(_) => r matches PrecheckDecision::Fail { info } && info@
                == "Could not get gift info"@,
            Ok(name) => match name {
                None => r is Ignored,
                Some(n) => if n@ == "Nitro Basic"@ {
                    r is Ignored
                } else {
                    r is Proceed
                },
            },
        },
{
    match outcome {
        Err(e) => match e {
            DApiError::ApiError(api) => {
                if api.code == UNKNOWN_GIFT_CODE {
                    PrecheckDecision::Invalid { info: api.message.clone() }
                } else {
                    PrecheckDecision::Fail { info: api.message.clone() }
                }
            },
            _ => PrecheckDecision::Fail {
                info: String::from_str("Could not get gift info"),
            },
        },
        Ok(None) => PrecheckDecision::Ignored,
        Ok(Some(n)) => {
            let basic = String::from_str("Nitro Basic");
            if n.eq(&basic) {
                proof {
                    reveal_strlit("Nitro Basic");
                }
                PrecheckDecision::Ignored
            } else {
                proof {
                    reveal_strlit("Nitro Basic");
                }
                PrecheckDecision::Proceed
            }
        },
    }
}

/// What the redeem call decides.
#[derive(Debug, Clone)]
pub enum RedeemDecision {
    /// Redeemed: report success with the response body.
    Success { info: String },
    /// Already claimed: look the gifter up and report the claim.
    NeedGifterLookup { info: String },
    /// The code does not exist: report it invalid.
    Invalid { info: String },
    /// Anything else: give up on this code with an error.
    Fail { info: String },
}

/// Decides, from the outcome of the redeem call, how the attempt is
/// reported. The outcome is handed in as plain values: the response body's
/// text on success, or the error.
pub fn classify_redeem(outcome: Result<&String, &DApiError>) -> (r: RedeemDecision)
    ensures
        match outcome {
            Ok(body) => r matches RedeemDecision::Success { info } && info@ == body@,
            Err(DApiError::ApiError(e)) => if e.code == GIFT_ALREADY_CLAIMED {
                r matches RedeemDecision::NeedGifterLookup { info } && info@ == e.message@
            } else if e.code == UNKNOWN_GIFT_CODE {
                r matches RedeemDecision::Invalid { info } && info@ == e.message@
            } else {
                r matches RedeemDecision::Fail { info } && info@ == e.message@
            },
            Err(_) => r matches RedeemDecision::Fail { info } && info@
                == "DApi error while trying to claim gift"@,
        },
{
    match outcome {
        Ok(body) => RedeemDecision::Success { info: body.clone() },
        Err(e) => match e {
            DApiError::ApiError(api) => {
                if api.code == GIFT_ALREADY_CLAIMED {
                    RedeemDecision::NeedGifterLookup { info: api.message.clone() }
                } else if api.code == UNKNOWN_GIFT_CODE {
                    RedeemDecision::Invalid { info: api.message.clone() }
                } else {
                    RedeemDecision::Fail { info: api.message.clone() }
                }
            },
            _ => RedeemDecision::Fail {
                info: String::from_str("DApi error while trying to claim gift"),
            },
        },
    }
}

/// A word of the control channel.
#[derive(Debug, Clone, Copy, PartialEq, Eq, Structural)]
pub enum Command {
    /// Report the shard's latency.
    Ping,
    /// Report the scanner's statistics.
    Stats,
    /// Toggle whether the basic tier is ignored.
    ToggleIgnore,
    /// Not a command.
    NotACommand,
}

/// Whether `p` is a prefix of `s`.
pub fn str_has_prefix(s: &str, p: &str) -> (r: bool)
    ensures
        r == (p@.len() <= s@.len() && s@.take(p@.len() as int) == p@),
{
    let np = p.unicode_len();
    let ns = s.unicode_len();
    if np > ns {
        return false;
    }
    let mut i: usize = 0;
    while i < np
        invariant
            i <= np,
            np == p@.len(),
            np <= ns == s@.len(),
            forall|k: int| 0 <= k < i ==> s@[k] == p@[k],
        decreases np - i,
    {
        if s.get_char(i) != p.get_char(i) {
            proof {
                assert(s@.take(np as int)[i as int] != p@[i as int]);
            }
            return false;
        }
        i = i + 1;
    }
    proof {
        assert(s@.take(np as int) =~= p@);
    }
    true
}

/// Reads a message of the control channel as a command: the word it starts
/// with decides, and anything else is no command.
pub fn parse_command(msg: &str) -> (r: Command)
    ensures
        ("...ping"@.len() <= msg@.len() && msg@.take(7) == "...ping"@) ==> r is Ping,
        !("...ping"@.len() <= msg@.len() && msg@.take(7) == "...ping"@) && ("...stats"@.len()
            <= msg@.len() && msg@.take(8) == "...stats"@) ==> r is Stats,
        !("...ping"@.len() <= msg@.len() && msg@.take(7) == "...ping"@) && !("...stats"@.len()
            <= msg@.len() && msg@.take(8) == "...stats"@) && ("...ignore"@.len() <= msg@.len()
            && msg@.take(9) == "...ignore"@) ==> r is ToggleIgnore,
        !("...ping"@.len() <= msg@.len() && msg@.take(7) == "...ping"@) && !("...stats"@.len()
            <= msg@.len() && msg@.take(8) == "...stats"@) && !("...ignore"@.len() <= msg@.len()
            && msg@.take(9) == "...ignore"@) ==> r is NotACommand,
{
    proof {
        reveal_strlit("...ping");
        reveal_strlit("...stats");
        reveal_strlit("...ignore");
    }
    if str_has_prefix(msg, "...ping") {
        Command::Ping
    } else if str_has_prefix(msg, "...stats") {
        Command::Stats
    } else if str_has_prefix(msg, "...ignore") {
        Command::ToggleIgnore
    } else {
        Command::NotACommand
    }
}


use crate::paths::spec_is_digit;


/// Whether a character can be part of a gift code: an ASCII letter, a digit,
/// or an underscore.
pub open spec fn spec_is_word(c: char) -> bool {
    spec_is_digit(c) || (97 <= c as u32 <= 122) || (65 <= c as u32 <= 90) || c == '_'
}

/// Whether the gift link prefix occurs at position `i`, in any letter case.
pub open spec fn spec_gift_prefix_at(s: Seq<char>, i: int) -> bool {
    &&& 0 <= i && i + 13 <= s.len()
    &&& (s[i] == 'd' || s[i] == 'D')
    &&& (s[i + 1] == 'i' || s[i + 1] == 'I')
    &&& (s[i + 2] == 's' || s[i + 2] == 'S')
    &&& (s[i + 3] == 'c' || s[i + 3] == 'C')
    &&& (s[i + 4] == 'o' || s[i + 4] == 'O')
    &&& (s[i + 5] == 'r' || s[i + 5] == 'R')
    &&& (s[i + 6] == 'd' || s[i + 6] == 'D')
    &&& s[i + 7] == '.'
    &&& (s[i + 8] == 'g' || s[i + 8] == 'G')
    &&& (s[i + 9] == 'i' || s[i + 9] == 'I')
    &&& (s[i + 10] == 'f' || s[i + 10] == 'F')
    &&& (s[i + 11] == 't' || s[i + 11] == 'T')
    &&& s[i + 12] == '/'
}

/// The length of the word-character run starting at `j`.
pub open spec fn spec_word_run_len(s: Seq<char>, j: int) -> int
    decreases s.len() - j,
{
    if j < 0 || j >= s.len() || !spec_is_word(s[j]) {
        0
    } else {
        1 + spec_word_run_len(s, j + 1)
    }
}

/// Whether a gift code occurs at position `i`: the gift link prefix, then
/// one to nineteen word characters, then a space, a line end or the end of
/// the message.
pub open spec fn spec_gift_match_at(s: Seq<char>, i: int) -> bool {
    &&& spec_gift_prefix_at(s, i)
    &&& ({
        let run = spec_word_run_len(s, i + 13);
        &&& 1 <= run <= 19
        &&& (i + 13 + run == s.len() || s[i + 13 + run] == ' ' || s[i + 13 + run] == '\n')
    })
}

/// The start and length of the first gift code at or after position `i`.
pub open spec fn spec_find_gift_from(s: Seq<char>, i: int) -> Option<(int, int)>
    decreases s.len() - i,
{
    if i < 0 || i >= s.len() {
        None
    } else if spec_gift_match_at(s, i) {
        Some((i + 13, spec_word_run_len(s, i + 13)))
    } else {
        spec_find_gift_from(s, i + 1)
    }
}

/// A word run is never of negative length.
proof fn lemma_word_run_nonneg(s: Seq<char>, j: int)
    ensures
        spec_word_run_len(s, j) >= 0,
    decreases s.len() - j,
{
    if 0 <= j && j < s.len() && spec_is_word(s[j]) {
        lemma_word_run_nonneg(s, j + 1);
    }
}

/// A prefix of word characters makes the run at least that long.
proof fn lemma_word_run_at_least(s: Seq<char>, j: int, m: int)
    requires
        m >= 0,
        0 <= j && j + m <= s.len(),
        forall|l: int| j <= l < j + m ==> spec_is_word(#[trigger] s[l]),
    ensures
        spec_word_run_len(s, j) >= m,
    decreases m,
{
    if m > 0 {
        assert(spec_is_word(s[j]));
        lemma_word_run_at_least(s, j + 1, m - 1);
        assert(spec_word_run_len(s, j) == 1 + spec_word_run_len(s, j + 1));
    } else {
        lemma_word_run_nonneg(s, j);
    }
}

/// A prefix of word characters bounded by a non-word character (or the end)
/// is the whole run.
proof fn lemma_word_run_exact(s: Seq<char>, j: int, m: int)
    requires
        m >= 0,
        0 <= j && j + m <= s.len(),
        forall|l: int| j <= l < j + m ==> spec_is_word(#[trigger] s[l]),
        j + m == s.len() || !spec_is_word(s[j + m]),
    ensures
        spec_word_run_len(s, j) == m,
    decreases m,
{
    if m > 0 {
        assert(spec_is_word(s[j]));
        lemma_word_run_exact(s, j + 1, m - 1);
        assert(spec_word_run_len(s, j) == 1 + spec_word_run_len(s, j + 1));
    }
}

/// Whether the gift link prefix occurs at position `i` of `content`.
fn gift_prefix_at(content: &str, i: usize, n: usize) -> (r: bool)
    requires
        n == content@.len(),
        i < n,
    ensures
        r == spec_gift_prefix_at(content@, i as int),
{
    if n - i < 13 {
        return false;
    }
    let c0 = content.get_char(i);
    let c1 = content.get_char(i + 1);
    let c2 = content.get_char(i + 2);
    let c3 = content.get_char(i + 3);
    let c4 = content.get_char(i + 4);
    let c5 = content.get_char(i + 5);
    let c6 = content.get_char(i + 6);
    let c7 = content.get_char(i + 7);
    let c8 = content.get_char(i + 8);
    let c9 = content.get_char(i + 9);
    let c10 = content.get_char(i + 10);
    let c11 = content.get_char(i + 11);
    let c12 = content.get_char(i + 12);
    (c0 == 'd' || c0 == 'D') && (c1 == 'i' || c1 == 'I') && (c2 == 's' || c2 == 'S') && (c3 == 'c'
        || c3 == 'C') && (c4 == 'o' || c4 == 'O') && (c5 == 'r' || c5 == 'R') && (c6 == 'd' || c6
        == 'D') && c7 == '.' && (c8 == 'g' || c8 == 'G') && (c9 == 'i' || c9 == 'I') && (c10 == 'f'
        || c10 == 'F') && (c11 == 't' || c11 == 'T') && c12 == '/'
}

/// Whether a character can be part of a gift code.
fn is_word_char(c: char) -> (r: bool)
    ensures
        r == spec_is_word(c),
{
    let v = c as u32;
    (48 <= v && v <= 57) || (97 <= v && v <= 122) || (65 <= v && v <= 90) || c == '_'
}

/// Finds the first gift code in a message: the word run of one to nineteen
/// characters that follows a gift link prefix (in any letter case) and ends
/// at a space, a line end or the end of the message. Longer runs are not
/// codes, and a message without one yields nothing.
pub fn find_gift_code(content: &str) -> (r: Option<String>)
    ensures
        match spec_find_gift_from(content@, 0) {
            Some((j, m)) => r matches Some(code) && code@ == content@.subrange(j, j + m),
            None => r is None,
        },
{
    let n = content.unicode_len();
    let mut i: usize = 0;
    while i < n
        invariant
            i <= n,
            n == content@.len(),
            spec_find_gift_from(content@, 0) == spec_find_gift_from(content@, i as int),
        decreases n - i,
    {
        if gift_prefix_at(content, i, n) {
            let j = i + 13;
            // measure the word run, stopping once it is too long to be a code
            let mut m: usize = 0;
            loop
                invariant
                    0 <= m <= 20,
                    j == i + 13,
                    i + 13 <= n,
                    j + m <= n,
                    n == content@.len(),
                    forall|l: int| j <= l < j + m ==> spec_is_word(#[trigger] content@[l]),
                ensures
                    0 <= m <= 20,
                    j + m <= n,
                    forall|l: int| j <= l < j + m ==> spec_is_word(#[trigger] content@[l]),
                    m == 20 || j + m == n || !spec_is_word(content@[(j + m) as int]),
                decreases n - j - m,
            {
                if j + m >= n || m >= 20 {
                    break;
                }
                if !is_word_char(content.get_char(j + m)) {
                    break;
                }
                m = m + 1;
            }
            if 1 <= m && m <= 19 {
                proof {
                    lemma_word_run_exact(content@, j as int, m as int);
                }
                let delimited = if j + m == n {
                    true
                } else {
                    let c = content.get_char(j + m);
                    c == ' ' || c == '\n'
                };
                if delimited {
                    proof {
                        assert(spec_gift_match_at(content@, i as int));
                    }
                    let code = content.substring_char(j, j + m);
                    return Some(String::from_str(code));
                }
                proof {
                    assert(!spec_gift_match_at(content@, i as int));
                }
            } else {
                proof {
                    if m == 0 {
                        lemma_word_run_exact(content@, j as int, 0);
                    } else {
                        lemma_word_run_at_least(content@, j as int, m as int);
                    }
                    assert(!spec_gift_match_at(content@, i as int));
                }
            }
        }
        i = i + 1;
    }
    None
}



/// The first space at or after position `i`, or the end of the string.
pub open spec fn spec_next_space(s: Seq<char>, i: int) -> int
    decreases s.len() - i,
{
    if i < 0 || i >= s.len() {
        s.len() as int
    } else if s[i] == ' ' {
        i
    } else {
        spec_next_space(s, i + 1)
    }
}

/// The next space lies between the start position and the end.
proof fn lemma_next_space_bounds(s: Seq<char>, i: int)
    requires
        0 <= i <= s.len(),
    ensures
        i <= spec_next_space(s, i) <= s.len(),
    decreases s.len() - i,
{
    if i < s.len() && s[i] != ' ' {
        lemma_next_space_bounds(s, i + 1);
    }
}

/// The space-separated tokens of a string from position `i` on: the pieces
/// between single spaces, empty pieces included.
pub open spec fn spec_tokens_from(s: Seq<char>, i: int) -> Seq<Seq<char>>
    decreases s.len() - i,
    via spec_tokens_from_decreases
{
    let j = spec_next_space(s, i);
    if j >= s.len() {
        seq![s.subrange(i, s.len() as int)]
    } else {
        seq![s.subrange(i, j)] + spec_tokens_from(s, j + 1)
    }
}

#[via_fn]
proof fn spec_tokens_from_decreases(s: Seq<char>, i: int) {
    if 0 <= i <= s.len() {
        lemma_next_space_bounds(s, i);
    }
}

/// A message with its leading character removed, when that character is a
/// letter, a digit or a space; the token source of the code completion.
pub open spec fn spec_sanitized(s: Seq<char>) -> Seq<char> {
    if s.len() > 0 && (spec_is_digit(s[0]) || (97 <= s[0] as u32 <= 122) || (65 <= s[0] as u32
        <= 90) || s[0] == ' ') {
        s.drop_first()
    } else {
        s
    }
}

/// The candidate codes a partial code and a token list give: the code
/// completed by each token that brings it to exactly sixteen characters.
pub open spec fn spec_candidates(code: Seq<char>, toks: Seq<Seq<char>>) -> Seq<Seq<char>>
    decreases toks.len(),
{
    if toks.len() == 0 {
        Seq::empty()
    } else {
        let rest = spec_candidates(code, toks.drop_first());
        if code.len() + toks[0].len() == 16 {
            seq![code + toks[0]] + rest
        } else {
            rest
        }
    }
}

/// The candidate codes tried for a partial gift code, at most twenty: the
/// code completed by each space-separated token of the message (its leading
/// letter, digit or space removed) that brings it to exactly sixteen
/// characters.
pub fn completion_candidates(code: &str, content: &str) -> (r: Vec<String>)
    ensures
        r.deep_view() == ({
            let target = spec_candidates(
                code@,
                spec_tokens_from(spec_sanitized(content@), 0),
            );
            if target.len() <= 20 {
                target
            } else {
                target.take(20)
            }
        }),
{
    let full_n = content.unicode_len();
    let sanitized: &str = if full_n > 0 {
        let c = content.get_char(0);
        let v = c as u32;
        if (48 <= v && v <= 57) || (97 <= v && v <= 122) || (65 <= v && v <= 90) || c == ' ' {
            let cut = content.substring_char(1, full_n);
            proof {
                assert(cut@ =~= spec_sanitized(content@));
            }
            cut
        } else {
            content
        }
    } else {
        content
    };
    let ghost san = sanitized@;
    let ghost target = spec_candidates(code@, spec_tokens_from(san, 0));
    let code_len = code.unicode_len();
    let n = sanitized.unicode_len();
    let mut out: Vec<String> = Vec::new();
    let mut i: usize = 0;
    loop
        invariant_except_break
            0 <= i <= n,
            n == san.len(),
            san == sanitized@,
            code_len == code@.len(),
            target == spec_candidates(code@, spec_tokens_from(san, 0)),
            out.deep_view().len() <= 20,
            out.deep_view().len() < 20 ==> target =~= out.deep_view() + spec_candidates(
                code@,
                spec_tokens_from(san, i as int),
            ),
            out.deep_view().len() == 20 ==> target.len() >= 20 && out.deep_view() =~= target.take(
                20,
            ),
        ensures
            out.deep_view() =~= (if target.len() <= 20 {
                target
            } else {
                target.take(20)
            }),
        decreases n - i,
    {
        if out.len() >= 20 {
            proof {
                if target.len() <= 20 {
                    assert(out.deep_view() =~= target.take(20));
                    assert(target.take(20) =~= target);
                }
            }
            break;
        }
        // find the end of this token
        let mut j = i;
        while j < n && sanitized.get_char(j) != ' '
            invariant
                i <= j <= n,
                n == san.len(),
                san == sanitized@,
                spec_next_space(san, i as int) == spec_next_space(san, j as int),
            decreases n - j,
        {
            j = j + 1;
        }
        proof {
            assert(spec_next_space(san, j as int) == j as int);
        }
        // handle the token
        let ghost toks = spec_tokens_from(san, i as int);
        let ghost pre_out = out.deep_view();
        if code_len <= 16 && j - i == 16 - code_len {
            let tok = sanitized.substring_char(i, j);
            let mut cand = String::from_str(code);
            cand.append(tok);
            proof {
                assert(cand@ =~= code@ + san.subrange(i as int, j as int));
            }
            out.push(cand);
            proof {
                assert(out.deep_view() =~= pre_out.push(code@ + san.subrange(i as int, j as int)));
            }
        }
        proof {
            assert(toks[0] == san.subrange(
                i as int,
                spec_next_space(san, i as int) as int,
            ));
        }
        if j >= n {
            proof {
                // the last token: the token list is the singleton
                assert(toks =~= seq![san.subrange(i as int, san.len() as int)]);
                assert(spec_candidates(code@, toks.drop_first()) =~= Seq::<Seq<char>>::empty());
                if pre_out.len() < 20 {
                    assert(target =~= out.deep_view());
                    if target.len() > 20 {
                        assert(false);
                    }
                }
            }
            break;
        }
        proof {
            // the token list unfolds one token
            assert(toks.drop_first() =~= spec_tokens_from(san, j as int + 1));
            if pre_out.len() < 20 {
                assert(target =~= out.deep_view() + spec_candidates(
                    code@,
                    spec_tokens_from(san, j as int + 1),
                ));
                if out.deep_view().len() == 20 {
                    assert(target.len() >= 20);
                    assert(out.deep_view() =~= target.take(20));
                }
            }
        }
        i = j + 1;
    }
    out
}

} // verus!
