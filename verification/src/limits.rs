//! The rate limit gate: one optional global deadline, and a lazily populated
//! mapping from resource id to an optional per-resource deadline.
//!
//! Time is a monotone clock reading in milliseconds. The limiter never sleeps
//! itself: each `poll_*` operation either clears a deadline that has passed
//! and lets the caller proceed, or returns the instant the caller must wait
//! for before polling again.

use vstd::prelude::*;

verus! {

/// Scope of a throttle reported by the server on a 429 response.
#[derive(Debug, Clone, Copy, PartialEq, Eq, Structural)]
pub enum RateLimitScope {
    /// The throttle applies to the whole authenticated user.
    User,
    /// The throttle applies globally.
    Global,
    /// The throttle applies to the one resource named in the request path.
    Resource,
}

impl RateLimitScope {
    /// User and global scopes both set the single global deadline; only a
    /// resource scope touches a per-resource bucket.
    pub open spec fn is_global(self) -> bool {
        self is User || self is Global
    }
}

/// Returned by [`RateLimitGate::record_limit`] when the server reported a
/// resource-scoped throttle but no resource id could be extracted from the
/// request path: a configuration inconsistency that must not be dropped.
#[derive(Debug, Clone, Copy, PartialEq, Eq, Structural)]
pub struct MissingResourceId;

/// One per-resource bucket: the resource id and its optional deadline.
#[derive(Debug, Clone)]
pub struct Bucket {
    pub id: u128,
    pub retry_at: Option<u64>,
}

/// The mathematical model of the limiter: the global deadline and the bucket
/// map, with lazily created buckets present as keys mapped to `None`.
pub struct GateModel {
    pub global_deadline: Option<u64>,
    pub buckets: Map<u128, Option<u64>>,
}

/// The deadline of the first bucket with the given id at or after position
/// `i`, or `None` if no such bucket exists.
pub open spec fn spec_find_from(s: Seq<Bucket>, id: u128, i: int) -> Option<Option<u64>>
    decreases s.len() - i,
{
    if i < 0 || i >= s.len() {
        None
    } else if s[i].id == id {
        Some(s[i].retry_at)
    } else {
        spec_find_from(s, id, i + 1)
    }
}

/// The bucket map a bucket sequence denotes.
pub open spec fn spec_bucket_map(s: Seq<Bucket>) -> Map<u128, Option<u64>> {
    Map::new(
        |k: u128| spec_find_from(s, k, 0) is Some,
        |k: u128| spec_find_from(s, k, 0)->Some_0,
    )
}

/// What [`RateLimitGate::poll_global`] does to the model: a pending future
/// deadline is returned unchanged; a deadline that has passed is cleared.
pub open spec fn spec_poll_global(m: GateModel, now: u64) -> (GateModel, Option<u64>) {
    match m.global_deadline {
        Some(d) => if d > now {
            (m, Some(d))
        } else {
            (GateModel { global_deadline: None, ..m }, None)
        },
        None => (m, None),
    }
}

/// What [`RateLimitGate::poll_resource`] does to the model: an unknown id
/// gets a fresh bucket with no deadline; a pending future deadline is
/// returned unchanged; a deadline that has passed is cleared.
pub open spec fn spec_poll_resource(m: GateModel, id: u128, now: u64) -> (
    GateModel,
    Option<u64>,
) {
    if !m.buckets.contains_key(id) {
        (GateModel { buckets: m.buckets.insert(id, None), ..m }, None)
    } else {
        match m.buckets[id] {
            Some(d) => if d > now {
                (m, Some(d))
            } else {
                (GateModel { buckets: m.buckets.insert(id, None), ..m }, None)
            },
            None => (m, None),
        }
    }
}

/// What [`RateLimitGate::record_limit`] does to the model; the second
/// component is false exactly when the limit is resource-scoped but no
/// resource id is at hand, in which case the limiter is left unchanged.
pub open spec fn spec_record_limit(
    m: GateModel,
    scope: RateLimitScope,
    id: Option<u128>,
    retry_at: u64,
) -> (GateModel, bool) {
    if scope.is_global() {
        (GateModel { global_deadline: Some(retry_at), ..m }, true)
    } else {
        match id {
            Some(r) => (GateModel { buckets: m.buckets.insert(r, Some(retry_at)), ..m }, true),
            None => (m, false),
        }
    }
}

/// The rate limit gate. Owned by one client instance and consulted before
/// every request attempt: global deadline first, then the bucket of the
/// resource the request path names, if any.
pub struct RateLimitGate {
    global: Option<u64>,
    buckets: Vec<Bucket>,
}

impl View for RateLimitGate {
    type V = GateModel;

    closed spec fn view(&self) -> GateModel {
        GateModel { global_deadline: self.global, buckets: spec_bucket_map(self.buckets@) }
    }
}

/// Updating the first bucket of an id rebinds that id in the bucket map and
/// leaves every other id alone.
proof fn lemma_find_after_update(s: Seq<Bucket>, i: int, v: Option<u64>, k: u128, j: int)
    requires
        0 <= i < s.len(),
        0 <= j <= s.len(),
        forall|l: int| j <= l < i ==> s[l].id != s[i].id,
    ensures
        spec_find_from(s.update(i, Bucket { id: s[i].id, retry_at: v }), k, j) == (if j <= i && k
            == s[i].id {
            Some(v)
        } else {
            spec_find_from(s, k, j)
        }),
    decreases s.len() - j,
{
    let s2 = s.update(i, Bucket { id: s[i].id, retry_at: v });
    if j < s.len() {
        lemma_find_after_update(s, i, v, k, j + 1);
        assert(j != i ==> s2[j] == s[j]);
    } else {
        assert(spec_find_from(s2, k, j) is None);
        assert(spec_find_from(s, k, j) is None);
    }
}

/// Appending a bucket binds its id in the bucket map if it was unbound, and
/// leaves every other id alone.
proof fn lemma_find_after_push(s: Seq<Bucket>, b: Bucket, k: u128, j: int)
    requires
        0 <= j <= s.len(),
    ensures
        spec_find_from(s.push(b), k, j) == (if spec_find_from(s, k, j) is Some {
            spec_find_from(s, k, j)
        } else if k == b.id {
            Some(b.retry_at)
        } else {
            None::<Option<u64>>
        }),
    decreases s.len() - j,
{
    let s2 = s.push(b);
    if j < s.len() {
        lemma_find_after_push(s, b, k, j + 1);
        assert(s2[j] == s[j]);
    } else {
        assert(s2[j] == b);
        assert(spec_find_from(s2, k, j + 1) is None);
        assert(spec_find_from(s, k, j) is None);
    }
}

impl RateLimitGate {
    /// A fresh gate: no global deadline and no buckets.
    pub fn new() -> (r: RateLimitGate)
        ensures
            r@.global_deadline is None,
            r@.buckets == Map::<u128, Option<u64>>::empty(),
    {
        let r = RateLimitGate { global: None, buckets: Vec::new() };
        proof {
            assert(r@.buckets =~= Map::<u128, Option<u64>>::empty());
        }
        r
    }

    /// The position of the bucket for `id`, if one exists.
    fn find_bucket(&self, id: u128) -> (r: Option<usize>)
        ensures
            match r {
                Some(i) => i < self.buckets@.len() && self.buckets@[i as int].id == id && forall|
                    j: int,
                |
                    0 <= j < i ==> self.buckets@[j].id != id,
                None => spec_find_from(self.buckets@, id, 0) is None,
            },
            r is Some <==> spec_find_from(self.buckets@, id, 0) is Some,
            r matches Some(i) ==> spec_find_from(self.buckets@, id, 0) == Some(
                self.buckets@[i as int].retry_at,
            ),
    {
        let n = self.buckets.len();
        let mut i: usize = 0;
        while i < n
            invariant
                i <= n,
                n == self.buckets@.len(),
                forall|j: int| 0 <= j < i ==> self.buckets@[j].id != id,
                spec_find_from(self.buckets@, id, 0) == spec_find_from(self.buckets@, id, i as int),
            decreases n - i,
        {
            if self.buckets[i].id == id {
                return Some(i);
            }
            i = i + 1;
        }
        None
    }

    /// Checks the global deadline at clock reading `now`: a deadline still in
    /// the future is returned for the caller to wait out; one that has passed
    /// is cleared, never left stale.
    pub fn poll_global(&mut self, now: u64) -> (r: Option<u64>)
        ensures
            (final(self)@, r) == spec_poll_global(old(self)@, now),
    {
        match self.global {
            Some(d) => {
                if d > now {
                    Some(d)
                } else {
                    self.global = None;
                    None
                }
            },
            None => None,
        }
    }

    /// Checks the bucket of `id` at clock reading `now`. An id seen for the
    /// first time gets a bucket with no deadline, so concurrent callers see a
    /// consistent lifecycle; a deadline still in the future is returned for
    /// the caller to wait out; one that has passed is cleared.
    pub fn poll_resource(&mut self, id: u128, now: u64) -> (r: Option<u64>)
        ensures
            (final(self)@, r) == spec_poll_resource(old(self)@, id, now),
    {
        match self.find_bucket(id) {
            None => {
                let ghost s0 = self.buckets@;
                self.buckets.push(Bucket { id, retry_at: None });
                proof {
                    assert forall|k: u128| true implies spec_find_from(self.buckets@, k, 0) == (
                    if spec_find_from(s0, k, 0) is Some {
                        spec_find_from(s0, k, 0)
                    } else if k == id {
                        Some(None::<u64>)
                    } else {
                        None::<Option<u64>>
                    }) by {
                        lemma_find_after_push(s0, Bucket { id, retry_at: None }, k, 0);
                    }
                    assert(self@.buckets =~= old(self)@.buckets.insert(id, None));
                }
                None
            },
            Some(i) => {
                let deadline = self.buckets[i].retry_at;
                match deadline {
                    None => None,
                    Some(d) => {
                        if d > now {
                            Some(d)
                        } else {
                            let ghost s0 = self.buckets@;
                            self.buckets[i].retry_at = None;
                            proof {
                                assert forall|k: u128| true implies spec_find_from(
                                    self.buckets@,
                                    k,
                                    0,
                                ) == (if k == id {
                                    Some(None::<u64>)
                                } else {
                                    spec_find_from(s0, k, 0)
                                }) by {
                                    lemma_find_after_update(s0, i as int, None, k, 0);
                                }
                                assert(self@.buckets =~= old(self)@.buckets.insert(id, None));
                            }
                            None
                        }
                    },
                }
            },
        }
    }

    /// Records a throttle the server reported: a user- or global-scoped limit
    /// sets the global deadline; a resource-scoped one sets the bucket of the
    /// resource the request named. A resource-scoped limit with no resource
    /// id at hand is a reportable configuration inconsistency: the limiter is
    /// left unchanged and the error is returned, never silently dropped.
    pub fn record_limit(&mut self, scope: RateLimitScope, id: Option<u128>, retry_at: u64) -> (r:
        Result<(), MissingResourceId>)
        ensures
            final(self)@ == spec_record_limit(old(self)@, scope, id, retry_at).0,
            r is Ok == spec_record_limit(old(self)@, scope, id, retry_at).1,
    {
        match scope {
            RateLimitScope::User | RateLimitScope::Global => {
                self.global = Some(retry_at);
                Ok(())
            },
            RateLimitScope::Resource => {
                match id {
                    None => Err(MissingResourceId),
                    Some(rid) => {
                        match self.find_bucket(rid) {
                            Some(i) => {
                                let ghost s0 = self.buckets@;
                                self.buckets[i].retry_at = Some(retry_at);
                                proof {
                                    assert forall|k: u128| true implies spec_find_from(
                                        self.buckets@,
                                        k,
                                        0,
                                    ) == (if k == rid {
                                        Some(Some(retry_at))
                                    } else {
                                        spec_find_from(s0, k, 0)
                                    }) by {
                                        lemma_find_after_update(s0, i as int, Some(retry_at), k, 0);
                                    }
                                    assert(self@.buckets =~= old(self)@.buckets.insert(
                                        rid,
                                        Some(retry_at),
                                    ));
                                }
                            },
                            None => {
                                let ghost s0 = self.buckets@;
                                self.buckets.push(Bucket { id: rid, retry_at: Some(retry_at) });
                                proof {
                                    assert forall|k: u128| true implies spec_find_from(
                                        self.buckets@,
                                        k,
                                        0,
                                    ) == (if spec_find_from(s0, k, 0) is Some {
                                        spec_find_from(s0, k, 0)
                                    } else if k == rid {
                                        Some(Some(retry_at))
                                    } else {
                                        None::<Option<u64>>
                                    }) by {
                                        lemma_find_after_push(
                                            s0,
                                            Bucket { id: rid, retry_at: Some(retry_at) },
                                            k,
                                            0,
                                        );
                                    }
                                    assert(self@.buckets =~= old(self)@.buckets.insert(
                                        rid,
                                        Some(retry_at),
                                    ));
                                }
                            },
                        }
                        Ok(())
                    },
                }
            },
        }
    }
}

/// After a global-scoped (or user-scoped) throttle with deadline `t` is
/// recorded, every request is delayed until exactly `t`, whatever resource it
/// names: the global poll demands a wait until `t` while `t` lies in the
/// future, and lets the request proceed (clearing the deadline) as soon as
/// `t` has passed. Per-resource buckets are untouched.
pub proof fn lemma_global_limit_delays_all(
    m: GateModel,
    scope: RateLimitScope,
    id: Option<u128>,
    t: u64,
    now: u64,
)
    requires
        scope.is_global(),
    ensures
        ({
            let m2 = spec_record_limit(m, scope, id, t).0;
            &&& now < t ==> spec_poll_global(m2, now) == (m2, Some(t))
            &&& now >= t ==> spec_poll_global(m2, now).1 is None
            &&& m2.buckets == m.buckets
        }),
{
}

/// After a resource-scoped throttle with deadline `t` is recorded for
/// resource `id`, a request to that same resource is delayed until exactly
/// `t` — the poll demands a wait until `t` while `t` lies in the future and
/// lets the request proceed once `t` has passed — while a request to any
/// other resource, and the global deadline, are unaffected.
pub proof fn lemma_resource_limit_isolated(
    m: GateModel,
    id: u128,
    t: u64,
    now: u64,
    other: u128,
)
    requires
        other != id,
    ensures
        ({
            let m2 = spec_record_limit(m, RateLimitScope::Resource, Some(id), t).0;
            &&& now < t ==> spec_poll_resource(m2, id, now) == (m2, Some(t))
            &&& now >= t ==> spec_poll_resource(m2, id, now).1 is None
            &&& spec_poll_resource(m2, other, now).1 == spec_poll_resource(m, other, now).1
            &&& m2.global_deadline == m.global_deadline
        }),
{
    let m2 = spec_record_limit(m, RateLimitScope::Resource, Some(id), t).0;
    assert(m2.buckets.contains_key(id));
    assert(m2.buckets[id] == Some(t));
    if m.buckets.contains_key(other) {
        assert(m2.buckets[other] == m.buckets[other]);
    }
}

/// A resource-scoped throttle that arrives with no resource id at hand is
/// rejected as a configuration error and the limiter is left exactly as it was
/// — even immediately after a resource poll — so the rate limit is never
/// silently dropped.
pub proof fn lemma_resource_scope_without_id_is_error(
    m: GateModel,
    polled: u128,
    now: u64,
    t: u64,
)
    ensures
        ({
            let m1 = spec_poll_resource(m, polled, now).0;
            &&& spec_record_limit(m1, RateLimitScope::Resource, None, t).0 == m1
            &&& !spec_record_limit(m1, RateLimitScope::Resource, None, t).1
        }),
{
}

} // verus!
