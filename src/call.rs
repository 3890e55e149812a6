//! The call session state machine.
//!
//! A registry maps each call identifier to its call. `initiate_call` and
//! `register_incoming_call` add a call in state `Calling`; `accept_call` and
//! `reject_call` move it to `Connected` or `Failed`; `end_call` removes it.
//! Every operation aimed at one call fails with `CallNotFound` when the
//! identifier is absent and then leaves the registry as it was; no operation
//! touches any entry but the one it names. Each change is published on the
//! registry's event bus.
//!
//! The registry is generic over the peer identity `I` and over the handle `N`
//! of the negotiator session that belongs to each call. It performs no I/O:
//! negotiator work happens before a call is added, and the handle is given
//! back when a call ends so that the session can be released.

use vstd::prelude::*;
use std::collections::HashMap;
use crate::events::EventBus;
use crate::ids::{CallId, HIGH_HALF, uuid_value, composed_id, lemma_composed_injective, lemma_composed_parts, uuid_text};
use crate::media::{MediaStreamManager, WebRtcTrack, track_id};
use crate::types::{CallEvent, CallState, MediaConstraints, MediaType};
use crate::signaling::{SignalingMessage, session_of};

verus! {

broadcast use vstd::std_specs::hash::group_hash_axioms;

/// Errors of the call registry.
#[derive(Debug, Clone, PartialEq, Eq)]
pub enum CallError {
    /// No call with this identifier (given as text) is in the registry.
    CallNotFound(String),
    /// The operation does not fit the call's current state.
    InvalidState,
    /// Setting up the call failed.
    ConfigError(String),
}

/// Number of events the registry's bus keeps for slow subscribers.
pub const EVENT_CAPACITY: usize = 100;

/// Configuration of a call registry.
#[derive(Debug, Clone, Copy, PartialEq, Eq, Structural)]
pub struct CallManagerConfig {
    /// Maximum concurrent calls
    pub max_concurrent_calls: usize,
}

impl Default for CallManagerConfig {
    fn default() -> (r: Self)
        ensures
            r.max_concurrent_calls == 10,
    {
        CallManagerConfig { max_concurrent_calls: 10 }
    }
}

/// A network backend that calls can run over.
pub trait NetworkAdapter {}

/// Peer identity given as plain text.
#[derive(Debug, Clone, PartialEq, Eq, Hash)]
pub struct PeerIdentityString {
    /// The identity's text
    pub id: String,
}

impl PeerIdentityString {
    /// The identity with the given text.
    pub fn new(id: &str) -> (r: Self)
        ensures
            r.id@ == id@,
    {
        PeerIdentityString { id: String::from_str(id) }
    }

    /// The identity's text.
    pub fn to_string_repr(&self) -> (r: String)
        ensures
            r@ == self.id@,
    {
        self.id.clone()
    }
}

/// One call in the registry.
pub struct Call<I, N> {
    /// Call identifier
    pub id: CallId,
    /// Remote peer
    pub remote_peer: I,
    /// Handle of the negotiator session of this call
    pub session: N,
    /// Current state
    pub state: CallState,
    /// Media constraints
    pub constraints: MediaConstraints,
    /// Local tracks attached to the call
    pub tracks: Vec<WebRtcTrack>,
}

/// The registry with `k` in state `s`, when `k` is present; else unchanged.
pub open spec fn moved_to(m: Map<u128, CallState>, k: u128, s: CallState) -> Map<u128, CallState> {
    if m.contains_key(k) {
        m.insert(k, s)
    } else {
        m
    }
}

/// States after an accept of `k`.
pub open spec fn accepted(m: Map<u128, CallState>, k: u128) -> Map<u128, CallState> {
    moved_to(m, k, CallState::Connected)
}

/// States after a reject of `k`.
pub open spec fn rejected(m: Map<u128, CallState>, k: u128) -> Map<u128, CallState> {
    moved_to(m, k, CallState::Failed)
}

/// States after `k` ends.
pub open spec fn ended(m: Map<u128, CallState>, k: u128) -> Map<u128, CallState> {
    m.remove(k)
}

/// The error for an identifier that is not in the registry.
pub open spec fn not_found(id: CallId, r: CallError) -> bool {
    r matches CallError::CallNotFound(s) && s@ == uuid_text(id.value)
}

/// `ts` are the tracks a call with constraints `c` gets when `n` tracks
/// exist already: one audio track when audio is wanted, then one video track
/// when video is wanted, each named after the number of tracks before it.
pub open spec fn new_tracks(ts: Seq<WebRtcTrack>, c: MediaConstraints, n: nat) -> bool {
    let a: int = if c.audio { 1 } else { 0 };
    &&& ts.len() == a + if c.video { 1int } else { 0int }
    &&& c.audio ==> ts[0].track_type == MediaType::Audio && ts[0].id@ == track_id(
        MediaType::Audio,
        n as usize,
    )
    &&& c.video ==> ts[a].track_type == MediaType::Video && ts[a].id@ == track_id(
        MediaType::Video,
        (n + a) as usize,
    )
}

/// The high half of an identifier value.
pub open spec fn high(v: u128) -> int {
    v as int / HIGH_HALF as int
}

/// The low half of an identifier value.
pub open spec fn low(v: u128) -> int {
    v as int % HIGH_HALF as int
}

/// What a received signaling message did to the registry.
pub enum SignalOutcome<I, N> {
    /// An offer added an incoming call, in state `Calling`.
    Registered(CallId),
    /// An answer moved an outgoing call to `Connected`.
    Connected(CallId),
    /// A bye removed the call, handed back so that its session can be
    /// released.
    Ended(Call<I, N>),
    /// A candidate, or the end of candidate gathering, for a call that is
    /// present: its session takes it.
    ForSession(CallId),
}

/// Owns every call of one endpoint and drives each through its lifecycle.
pub struct CallManager<I, N> {
    calls: HashMap<u128, Call<I, N>>,
    events: EventBus,
    config: CallManagerConfig,
    tag: u64,
    next_seq: u64,
    media: MediaStreamManager,
}

impl<I, N> CallManager<I, N> {
    /// The calls, by the value of their identifier.
    pub closed spec fn calls(&self) -> Map<u128, Call<I, N>> {
        self.calls@
    }

    /// The state of each call, by the value of its identifier.
    pub open spec fn states(&self) -> Map<u128, CallState> {
        self.calls().map_values(|c: Call<I, N>| c.state)
    }

    /// The identifiers this registry has handed out or set aside so far.
    pub closed spec fn issued(&self) -> Set<CallId> {
        Set::new(|id: CallId| exists|s: u64| s < self.next_seq && id == composed_id(self.tag, s))
    }

    /// The identifier the next outgoing call gets.
    pub closed spec fn fresh_id(&self) -> CallId {
        composed_id(self.tag, self.next_seq)
    }

    /// Number of identifiers handed out or set aside so far.
    pub closed spec fn issued_count(&self) -> nat {
        self.next_seq as nat
    }

    /// No identifier is left for outgoing calls.
    pub closed spec fn exhausted(&self) -> bool {
        self.next_seq == u64::MAX
    }

    /// Identifiers kept for this registry's own future outgoing calls, which
    /// incoming calls may not take.
    pub closed spec fn reserved(&self, id: CallId) -> bool {
        high(id.value) == self.tag && low(id.value) >= self.next_seq
    }

    /// `self` and `o` hand out the same identifiers from now on.
    pub open spec fn ids_as(&self, o: Self) -> bool {
        &&& self.issued() == o.issued()
        &&& self.fresh_id() == o.fresh_id()
        &&& self.issued_count() == o.issued_count()
        &&& self.exhausted() == o.exhausted()
        &&& forall|id: CallId| self.reserved(id) == o.reserved(id)
    }

    /// The local tracks created for calls so far, oldest first.
    pub closed spec fn media(&self) -> Seq<WebRtcTrack> {
        self.media.tracks()
    }

    /// The events published so far.
    pub closed spec fn history(&self) -> Seq<CallEvent> {
        self.events.history()
    }

    /// Number of event subscribers.
    pub open spec fn subscribers(&self) -> nat {
        self.cursors().len()
    }

    /// Index in the history of the next event each subscriber reads.
    pub closed spec fn cursors(&self) -> Seq<nat> {
        self.events.cursors()
    }

    /// Index in the history of the event subscriber `sub` receives next:
    /// its cursor, or the oldest event still kept when it has fallen behind.
    pub closed spec fn next_for(&self, sub: int) -> nat {
        crate::events::resume_at(self.events.cursors()[sub], self.events.first_kept())
    }

    /// A subscriber whose cursor is behind the history has an event waiting.
    pub proof fn lemma_event_waiting(&self, sub: int)
        requires
            self.wf(),
            0 <= sub < self.subscribers(),
            self.cursors()[sub] < self.history().len(),
        ensures
            self.next_for(sub) < self.history().len(),
    {
        self.events.lemma_first_kept();
    }

    /// Configuration given at creation.
    pub closed spec fn spec_config(&self) -> CallManagerConfig {
        self.config
    }

    /// Internal consistency of the registry.
    pub closed spec fn wf(&self) -> bool {
        &&& self.events.wf()
        &&& forall|k: u128| #[trigger] self.calls@.contains_key(k) ==> self.calls@[k].id.value == k
        &&& forall|k: u128|
            #[trigger] self.calls@.contains_key(k) && high(k) == self.tag ==> low(k)
                < self.next_seq
    }

    proof fn lemma_fresh_free(&self)
        requires
            self.wf(),
        ensures
            !self.calls().contains_key(self.fresh_id().value),
    {
        lemma_composed_parts(self.tag, self.next_seq);
    }

    /// The history after publishing `e`, as far as the event counter allows.
    pub open spec fn after_event(&self, e: CallEvent) -> Seq<CallEvent> {
        if self.history().len() < u64::MAX {
            self.history().push(e)
        } else {
            self.history()
        }
    }

    proof fn lemma_issue(&self, tag: u64, next: u64)
        requires
            self.tag == tag,
            self.next_seq == next,
            next < u64::MAX,
        ensures
            !self.issued().contains(composed_id(tag, next)),
    {
        if self.issued().contains(composed_id(tag, next)) {
            let s = choose|s: u64| s < next && composed_id(tag, next) == composed_id(tag, s);
            lemma_composed_injective(tag, s, next);
        }
    }

    /// An empty registry.
    pub fn new(config: CallManagerConfig) -> (r: Result<Self, CallError>)
        ensures
            r matches Ok(m) && m.wf() && m.calls() == Map::<u128, Call<I, N>>::empty()
                && m.issued() == Set::<CallId>::empty() && m.history() == Seq::<CallEvent>::empty()
                && m.spec_config() == config && m.issued_count() == 0 && !m.exhausted()
                && m.media() == Seq::<WebRtcTrack>::empty(),
    {
        let m = CallManager {
            calls: HashMap::new(),
            events: EventBus::new(EVENT_CAPACITY),
            config,
            tag: CallId::random_tag(),
            next_seq: 0,
            media: MediaStreamManager::new(),
        };
        assert(m.issued() =~= Set::<CallId>::empty());
        Ok(m)
    }

    /// Starts the registry; there is nothing to set up.
    pub fn start(&self) -> (r: Result<(), CallError>)
        ensures
            r is Ok,
    {
        Ok(())
    }

    /// Configuration given at creation.
    pub fn config(&self) -> (r: CallManagerConfig)
        ensures
            r == self.spec_config(),
    {
        self.config
    }

    /// Number of calls in the registry.
    pub fn call_count(&self) -> (r: usize)
        requires
            self.wf(),
        ensures
            r == self.calls().len(),
    {
        self.calls.len()
    }

    fn publish(&mut self, e: CallEvent)
        requires
            old(self).wf(),
        ensures
            final(self).wf(),
            final(self).history() == old(self).after_event(e),
            final(self).calls() == old(self).calls(),
            final(self).ids_as(*old(self)),
            final(self).cursors() == old(self).cursors(),
            final(self).media() == old(self).media(),
            final(self).spec_config() == old(self).spec_config(),
    {
        let _ = self.events.publish(e);
    }

    /// Adds an outgoing call to `callee` in state `Calling` under a fresh
    /// identifier. `session` is the negotiator session prepared for the call;
    /// the call gets one new audio track when audio is wanted, then one new
    /// video track when video is wanted.
    ///
    /// Succeeds, with the registry's fresh identifier, whenever the
    /// constraints ask for some media and the identifiers are not exhausted;
    /// otherwise fails with `ConfigError`, adding nothing. The fresh
    /// identifier is never in the registry: incoming calls may not take it.
    pub fn initiate_call(
        &mut self,
        callee: I,
        constraints: MediaConstraints,
        session: N,
    ) -> (r: Result<CallId, CallError>)
        requires
            old(self).wf(),
        ensures
            final(self).wf(),
            final(self).cursors() == old(self).cursors(),
            final(self).spec_config() == old(self).spec_config(),
            !constraints.spec_valid() ==> r matches Err(CallError::ConfigError(_)),
            constraints.spec_valid() && !old(self).exhausted() ==> r == Ok::<CallId, CallError>(
                old(self).fresh_id(),
            ),
            r is Ok <==> constraints.spec_valid() && !old(self).exhausted(),
            r is Err ==> final(self).calls() == old(self).calls() && final(self).history()
                == old(self).history() && final(self).ids_as(*old(self)) && final(self).media()
                == old(self).media() && r matches Err(CallError::ConfigError(_)),
            r matches Ok(id) ==> {
                &&& constraints.spec_valid()
                &&& id == old(self).fresh_id()
                &&& final(self).issued_count() == old(self).issued_count() + 1
                &&& final(self).exhausted() == (final(self).issued_count() == u64::MAX)
                &&& final(self).fresh_id() != id
                &&& !old(self).issued().contains(id)
                &&& final(self).issued() == old(self).issued().insert(id)
                &&& !old(self).calls().contains_key(id.value)
                &&& final(self).calls() == old(self).calls().insert(
                    id.value,
                    Call {
                        id,
                        remote_peer: callee,
                        session,
                        state: CallState::Calling,
                        constraints,
                        tracks: final(self).calls()[id.value].tracks,
                    },
                )
                &&& new_tracks(
                    final(self).calls()[id.value].tracks@,
                    constraints,
                    old(self).media().len(),
                )
                &&& final(self).media() == old(self).media() + final(self).calls()[id.value].tracks@
                &&& final(self).states() == old(self).states().insert(id.value, CallState::Calling)
                &&& final(self).history() == old(self).after_event(
                    CallEvent::CallInitiated { call_id: id, constraints },
                )
            },
    {
        if !constraints.is_valid() {
            return Err(CallError::ConfigError(String::from_str("constraints ask for no media")));
        }
        if self.next_seq == u64::MAX {
            return Err(CallError::ConfigError(String::from_str("call identifiers exhausted")));
        }
        let tracks = match self.media.tracks_for(constraints) {
            Ok(t) => t,
            Err(_) => {
                return Err(CallError::ConfigError(String::from_str("tracks unavailable")));
            },
        };
        let seq = self.next_seq;
        let id = CallId::from_parts(self.tag, seq);
        proof {
            self.lemma_issue(self.tag, seq);
            self.lemma_fresh_free();
            lemma_composed_parts(self.tag, seq);
            lemma_composed_injective(self.tag, seq, (seq + 1) as u64);
        }
        let ghost before = self.issued();
        self.next_seq = seq + 1;
        assert(self.issued() =~= before.insert(id)) by {
            assert forall|x: CallId| self.issued().contains(x) implies before.insert(x).contains(
                x,
            ) || x == id by {
                let s = choose|s: u64| s < seq + 1 && x == composed_id(self.tag, s);
                if s < seq {
                    assert(before.contains(x));
                }
            }
            assert forall|x: CallId| before.insert(id).contains(x) implies self.issued().contains(
                x,
            ) by {
                if x == id {
                    assert(seq < self.next_seq && x == composed_id(self.tag, seq));
                } else {
                    let s = choose|s: u64| s < seq && x == composed_id(self.tag, s);
                    assert(s < self.next_seq && x == composed_id(self.tag, s));
                }
            }
        }
        let call = Call {
            id,
            remote_peer: callee,
            session,
            state: CallState::Calling,
            constraints,
            tracks,
        };
        self.calls.insert(id.value, call);
        assert(self.states() =~= old(self).states().insert(id.value, CallState::Calling));
        self.publish(CallEvent::CallInitiated { call_id: id, constraints });
        Ok(id)
    }

    /// Adds a call offered by the remote peer `caller` under the identifier
    /// the caller chose, in state `Calling`.
    ///
    /// Fails with `InvalidState` when the identifier is already in the
    /// registry or kept for this registry's own outgoing calls, and with
    /// `ConfigError` when the constraints ask for no media; the registry is
    /// then unchanged.
    pub fn register_incoming_call(
        &mut self,
        call_id: CallId,
        caller: I,
        constraints: MediaConstraints,
        session: N,
    ) -> (r: Result<(), CallError>)
        requires
            old(self).wf(),
        ensures
            final(self).wf(),
            final(self).ids_as(*old(self)),
            final(self).cursors() == old(self).cursors(),
            final(self).spec_config() == old(self).spec_config(),
            r is Ok <==> constraints.spec_valid() && !old(self).calls().contains_key(call_id.value)
                && !old(self).reserved(call_id),
            old(self).calls().contains_key(call_id.value) || old(self).reserved(call_id) ==> r
                == Err::<(), CallError>(CallError::InvalidState),
            constraints.spec_valid() || r matches Err(CallError::ConfigError(_)) || r
                == Err::<(), CallError>(CallError::InvalidState),
            r is Err ==> final(self).calls() == old(self).calls() && final(self).history()
                == old(self).history() && final(self).media() == old(self).media(),
            r is Ok ==> {
                &&& final(self).calls() == old(self).calls().insert(
                    call_id.value,
                    Call {
                        id: call_id,
                        remote_peer: caller,
                        session,
                        state: CallState::Calling,
                        constraints,
                        tracks: final(self).calls()[call_id.value].tracks,
                    },
                )
                &&& new_tracks(
                    final(self).calls()[call_id.value].tracks@,
                    constraints,
                    old(self).media().len(),
                )
                &&& final(self).media() == old(self).media() + final(self).calls()[call_id.value].tracks@
                &&& final(self).states() == old(self).states().insert(
                    call_id.value,
                    CallState::Calling,
                )
                &&& final(self).history() == old(self).after_event(
                    CallEvent::IncomingCall { call_id, constraints },
                )
            },
    {
        if self.calls.contains_key(&call_id.value) {
            return Err(CallError::InvalidState);
        }
        if call_id.value / HIGH_HALF == self.tag as u128 && call_id.value % HIGH_HALF >= self.next_seq
            as u128 {
            return Err(CallError::InvalidState);
        }
        if !constraints.is_valid() {
            return Err(CallError::ConfigError(String::from_str("constraints ask for no media")));
        }
        let tracks = match self.media.tracks_for(constraints) {
            Ok(t) => t,
            Err(_) => {
                return Err(CallError::ConfigError(String::from_str("tracks unavailable")));
            },
        };
        let call = Call {
            id: call_id,
            remote_peer: caller,
            session,
            state: CallState::Calling,
            constraints,
            tracks,
        };
        self.calls.insert(call_id.value, call);
        assert(self.states() =~= old(self).states().insert(call_id.value, CallState::Calling));
        self.publish(CallEvent::IncomingCall { call_id, constraints });
        Ok(())
    }

    fn set_state(&mut self, call_id: CallId, state: CallState) -> (r: Result<(), CallError>)
        requires
            old(self).wf(),
        ensures
            final(self).wf(),
            final(self).ids_as(*old(self)),
            final(self).cursors() == old(self).cursors(),
            final(self).media() == old(self).media(),
            final(self).spec_config() == old(self).spec_config(),
            final(self).history() == old(self).history(),
            r is Ok <==> old(self).calls().contains_key(call_id.value),
            r matches Err(e) ==> not_found(call_id, e),
            r is Err ==> final(self).calls() == old(self).calls(),
            r is Ok ==> final(self).calls() == old(self).calls().insert(
                call_id.value,
                Call { state, ..old(self).calls()[call_id.value] },
            ),
            final(self).states() == moved_to(old(self).states(), call_id.value, state),
    {
        match self.calls.remove(&call_id.value) {
            Some(call) => {
                let updated = Call { state, ..call };
                self.calls.insert(call_id.value, updated);
                assert(self.calls@ =~= old(self).calls@.insert(
                    call_id.value,
                    Call { state, ..old(self).calls@[call_id.value] },
                ));
                assert(self.states() =~= moved_to(old(self).states(), call_id.value, state));
                Ok(())
            },
            None => {
                assert(self.calls@ =~= old(self).calls@);
                Err(CallError::CallNotFound(call_id.to_string()))
            },
        }
    }

    /// Marks the call as accepted: its state becomes `Connected`.
    pub fn accept_call(&mut self, call_id: CallId, constraints: MediaConstraints) -> (r: Result<
        (),
        CallError,
    >)
        requires
            old(self).wf(),
        ensures
            final(self).wf(),
            final(self).ids_as(*old(self)),
            final(self).cursors() == old(self).cursors(),
            final(self).media() == old(self).media(),
            final(self).spec_config() == old(self).spec_config(),
            r is Ok <==> old(self).calls().contains_key(call_id.value),
            r matches Err(e) ==> not_found(call_id, e),
            r is Err ==> final(self).calls() == old(self).calls() && final(self).history()
                == old(self).history(),
            r is Ok ==> final(self).calls() == old(self).calls().insert(
                call_id.value,
                Call { state: CallState::Connected, ..old(self).calls()[call_id.value] },
            ) && final(self).history() == old(self).after_event(
                CallEvent::CallAccepted { call_id },
            ),
            final(self).states() == accepted(old(self).states(), call_id.value),
    {
        let r = self.set_state(call_id, CallState::Connected);
        if r.is_ok() {
            self.publish(CallEvent::CallAccepted { call_id });
        }
        r
    }

    /// Marks the call as rejected: its state becomes `Failed`.
    pub fn reject_call(&mut self, call_id: CallId) -> (r: Result<(), CallError>)
        requires
            old(self).wf(),
        ensures
            final(self).wf(),
            final(self).ids_as(*old(self)),
            final(self).cursors() == old(self).cursors(),
            final(self).media() == old(self).media(),
            final(self).spec_config() == old(self).spec_config(),
            r is Ok <==> old(self).calls().contains_key(call_id.value),
            r matches Err(e) ==> not_found(call_id, e),
            r is Err ==> final(self).calls() == old(self).calls() && final(self).history()
                == old(self).history(),
            r is Ok ==> final(self).calls() == old(self).calls().insert(
                call_id.value,
                Call { state: CallState::Failed, ..old(self).calls()[call_id.value] },
            ) && final(self).history() == old(self).after_event(
                CallEvent::CallRejected { call_id },
            ),
            final(self).states() == rejected(old(self).states(), call_id.value),
    {
        let r = self.set_state(call_id, CallState::Failed);
        if r.is_ok() {
            self.publish(CallEvent::CallRejected { call_id });
        }
        r
    }

    /// Removes the call, whatever its state, and hands back the call so that
    /// its negotiator session can be released.
    pub fn end_call(&mut self, call_id: CallId) -> (r: Result<Call<I, N>, CallError>)
        requires
            old(self).wf(),
        ensures
            final(self).wf(),
            final(self).ids_as(*old(self)),
            final(self).cursors() == old(self).cursors(),
            final(self).media() == old(self).media(),
            final(self).spec_config() == old(self).spec_config(),
            r is Ok <==> old(self).calls().contains_key(call_id.value),
            r matches Err(e) ==> not_found(call_id, e),
            r is Err ==> final(self).history() == old(self).history(),
            r matches Ok(c) ==> c == old(self).calls()[call_id.value] && final(self).history()
                == old(self).after_event(CallEvent::CallEnded { call_id }),
            final(self).calls() == old(self).calls().remove(call_id.value),
            final(self).states() == ended(old(self).states(), call_id.value),
    {
        match self.calls.remove(&call_id.value) {
            Some(call) => {
                assert(self.states() =~= ended(old(self).states(), call_id.value));
                self.publish(CallEvent::CallEnded { call_id });
                Ok(call)
            },
            None => {
                assert(self.calls@ =~= old(self).calls@.remove(call_id.value));
                assert(self.states() =~= ended(old(self).states(), call_id.value));
                Err(CallError::CallNotFound(call_id.to_string()))
            },
        }
    }

    /// The call's state, or None when it is not in the registry.
    pub fn get_call_state(&self, call_id: CallId) -> (r: Option<CallState>)
        requires
            self.wf(),
        ensures
            r == (if self.states().contains_key(call_id.value) {
                Some(self.states()[call_id.value])
            } else {
                None
            }),
    {
        match self.calls.get(&call_id.value) {
            Some(call) => Some(call.state),
            None => None,
        }
    }

    /// The call, or None when it is not in the registry.
    pub fn get_call(&self, call_id: CallId) -> (r: Option<&Call<I, N>>)
        requires
            self.wf(),
        ensures
            r matches Some(c) ==> self.calls().contains_key(call_id.value) && *c
                == self.calls()[call_id.value],
            r is None <==> !self.calls().contains_key(call_id.value),
    {
        self.calls.get(&call_id.value)
    }

    fn session_of(&self, call_id: CallId) -> (r: Result<&N, CallError>)
        requires
            self.wf(),
        ensures
            r is Ok <==> self.calls().contains_key(call_id.value),
            r matches Ok(s) ==> *s == self.calls()[call_id.value].session,
            r matches Err(e) ==> not_found(call_id, e),
    {
        match self.calls.get(&call_id.value) {
            Some(call) => Ok(&call.session),
            None => Err(CallError::CallNotFound(call_id.to_string())),
        }
    }

    /// The negotiator session that must produce the call's offer.
    pub fn create_offer(&self, call_id: CallId) -> (r: Result<&N, CallError>)
        requires
            self.wf(),
        ensures
            r is Ok <==> self.calls().contains_key(call_id.value),
            r matches Ok(s) ==> *s == self.calls()[call_id.value].session,
            r matches Err(e) ==> not_found(call_id, e),
    {
        self.session_of(call_id)
    }

    /// The negotiator session that must take the remote peer's answer.
    pub fn handle_answer(&self, call_id: CallId) -> (r: Result<&N, CallError>)
        requires
            self.wf(),
        ensures
            r is Ok <==> self.calls().contains_key(call_id.value),
            r matches Ok(s) ==> *s == self.calls()[call_id.value].session,
            r matches Err(e) ==> not_found(call_id, e),
    {
        self.session_of(call_id)
    }

    /// The negotiator session that must take a remote connectivity
    /// candidate.
    pub fn add_ice_candidate(&self, call_id: CallId) -> (r: Result<&N, CallError>)
        requires
            self.wf(),
        ensures
            r is Ok <==> self.calls().contains_key(call_id.value),
            r matches Ok(s) ==> *s == self.calls()[call_id.value].session,
            r matches Err(e) ==> not_found(call_id, e),
    {
        self.session_of(call_id)
    }

    /// Candidate gathering starts with the offer, so this only checks that
    /// the call exists.
    pub fn start_ice_gathering(&self, call_id: CallId) -> (r: Result<(), CallError>)
        requires
            self.wf(),
        ensures
            r is Ok <==> self.calls().contains_key(call_id.value),
            r matches Err(e) ==> not_found(call_id, e),
    {
        match self.session_of(call_id) {
            Ok(_) => Ok(()),
            Err(e) => Err(e),
        }
    }

    /// The offer to send for a call, with the SDP its session produced. Its
    /// session identifier is the text of the call's identifier.
    pub fn offer_message(&self, call_id: CallId, sdp: String) -> (r: Result<
        SignalingMessage,
        CallError,
    >)
        requires
            self.wf(),
        ensures
            r is Ok <==> self.calls().contains_key(call_id.value),
            r matches Err(e) ==> not_found(call_id, e),
            r matches Ok(m) ==> (m matches SignalingMessage::Offer { session_id: s, sdp: d, quic_endpoint: q }
                && s@ == uuid_text(call_id.value) && d == sdp && q is None),
    {
        match self.calls.get(&call_id.value) {
            Some(_) => match SignalingMessage::offer(call_id.to_string(), sdp, None) {
                Ok(m) => Ok(m),
                Err(_) => Err(CallError::ConfigError(String::from_str("unusable session id"))),
            },
            None => Err(CallError::CallNotFound(call_id.to_string())),
        }
    }

    /// The answer to send for a call, with the SDP its session produced. Its
    /// session identifier is the text of the call's identifier.
    pub fn answer_message(&self, call_id: CallId, sdp: String) -> (r: Result<
        SignalingMessage,
        CallError,
    >)
        requires
            self.wf(),
        ensures
            r is Ok <==> self.calls().contains_key(call_id.value),
            r matches Err(e) ==> not_found(call_id, e),
            r matches Ok(m) ==> (m matches SignalingMessage::Answer { session_id: s, sdp: d, quic_endpoint: q }
                && s@ == uuid_text(call_id.value) && d == sdp && q is None),
    {
        match self.calls.get(&call_id.value) {
            Some(_) => match SignalingMessage::answer(call_id.to_string(), sdp, None) {
                Ok(m) => Ok(m),
                Err(_) => Err(CallError::ConfigError(String::from_str("unusable session id"))),
            },
            None => Err(CallError::CallNotFound(call_id.to_string())),
        }
    }

    /// The bye to send when a call ends; building it always succeeds.
    pub fn bye_message(call_id: CallId, reason: Option<String>) -> (r: Result<
        SignalingMessage,
        CallError,
    >)
        ensures
            r matches Ok(m) && (m matches SignalingMessage::Bye { session_id: s, reason: why }
                && s@ == uuid_text(call_id.value) && why == reason),
    {
        match SignalingMessage::bye(call_id.to_string(), reason) {
            Ok(m) => Ok(m),
            Err(_) => Err(CallError::ConfigError(String::from_str("unusable session id"))),
        }
    }

    /// Applies a signaling message received from `from`. Its session
    /// identifier names the call. An offer adds an incoming call with the
    /// local `constraints` and `session`, as `register_incoming_call` does
    /// (and fails with `ConfigError` without a session);
    /// an answer moves the call to `Connected`, as `accept_call` does; a bye
    /// removes it, as `end_call` does; a candidate or the end of gathering
    /// only checks that the call is present. A session identifier that names
    /// no call identifier fails with `CallNotFound` and changes nothing.
    pub fn on_signal(
        &mut self,
        from: I,
        message: &SignalingMessage,
        constraints: MediaConstraints,
        session: Option<N>,
    ) -> (r: Result<SignalOutcome<I, N>, CallError>)
        requires
            old(self).wf(),
        ensures
            final(self).wf(),
            final(self).ids_as(*old(self)),
            final(self).cursors() == old(self).cursors(),
            final(self).spec_config() == old(self).spec_config(),
            uuid_value(session_of(*message)) is None ==> (r matches Err(CallError::CallNotFound(s))
                && s@ == session_of(*message)) && final(self).calls() == old(self).calls()
                && final(self).history() == old(self).history() && final(self).media() == old(self).media(),
            uuid_value(session_of(*message)) matches Some(v) ==> {
                let id = CallId { value: v };
                &&& (message is Offer) ==> {
                    &&& r is Ok <==> session is Some && constraints.spec_valid() && !old(self).calls().contains_key(v) && !old(self).reserved(id)
                    &&& session is None ==> (r matches Err(CallError::ConfigError(_)))
                    &&& r is Err ==> final(self).calls() == old(self).calls() && final(self).media() == old(self).media()
                    &&& r is Ok ==> (r matches Ok(SignalOutcome::Registered(x)) && x == id)
                        && final(self).states() == old(self).states().insert(v, CallState::Calling)
                        && final(self).calls()[v].remote_peer == from && Some(final(self).calls()[v].session)
                        == session && final(self).calls()[v].constraints == constraints && new_tracks(
                        final(self).calls()[v].tracks@,
                        constraints,
                        old(self).media().len(),
                    )
                }
                &&& (message is Answer) ==> {
                    &&& r is Ok <==> old(self).calls().contains_key(v)
                    &&& r is Ok ==> (r matches Ok(SignalOutcome::Connected(x)) && x == id)
                    &&& r matches Err(e) ==> not_found(id, e)
                    &&& final(self).states() == accepted(old(self).states(), v)
                    &&& final(self).media() == old(self).media()
                }
                &&& (message is Bye) ==> {
                    &&& r is Ok <==> old(self).calls().contains_key(v)
                    &&& r is Ok ==> (r matches Ok(SignalOutcome::Ended(c)) && c == old(self).calls()[v])
                    &&& r matches Err(e) ==> not_found(id, e)
                    &&& final(self).calls() == old(self).calls().remove(v)
                    &&& final(self).states() == ended(old(self).states(), v)
                    &&& final(self).media() == old(self).media()
                }
                &&& (message is IceCandidate || message is IceComplete) ==> {
                    &&& r is Ok <==> old(self).calls().contains_key(v)
                    &&& r is Ok ==> (r matches Ok(SignalOutcome::ForSession(x)) && x == id)
                    &&& r matches Err(e) ==> not_found(id, e)
                    &&& final(self).calls() == old(self).calls()
                    &&& final(self).history() == old(self).history()
                    &&& final(self).media() == old(self).media()
                }
            },
    {
        let text = message.session_id();
        let id = match CallId::parse(text) {
            Some(id) => id,
            None => {
                return Err(CallError::CallNotFound(String::from_str(text)));
            },
        };
        match message {
            SignalingMessage::Offer { .. } => match session {
                Some(session) => match self.register_incoming_call(id, from, constraints, session) {
                    Ok(()) => Ok(SignalOutcome::Registered(id)),
                    Err(e) => Err(e),
                },
                None => Err(CallError::ConfigError(String::from_str("an offer needs a session"))),
            },
            SignalingMessage::Answer { .. } => match self.accept_call(id, constraints) {
                Ok(()) => Ok(SignalOutcome::Connected(id)),
                Err(e) => Err(e),
            },
            SignalingMessage::Bye { .. } => match self.end_call(id) {
                Ok(c) => Ok(SignalOutcome::Ended(c)),
                Err(e) => Err(e),
            },
            _ => match self.start_ice_gathering(id) {
                Ok(()) => Ok(SignalOutcome::ForSession(id)),
                Err(e) => Err(e),
            },
        }
    }

    /// Adds an event subscriber; it receives the events published from now
    /// on, and misses the oldest ones when it falls more than the bus's
    /// capacity behind.
    pub fn subscribe_events(&mut self) -> (r: usize)
        requires
            old(self).wf(),
        ensures
            final(self).wf(),
            final(self).calls() == old(self).calls(),
            final(self).ids_as(*old(self)),
            final(self).media() == old(self).media(),
            final(self).history() == old(self).history(),
            r == old(self).subscribers(),
            final(self).subscribers() == old(self).subscribers() + 1,
            final(self).cursors() == old(self).cursors().push(old(self).history().len()),
    {
        self.events.subscribe()
    }

    /// The next event for a subscriber: the event at its place in the
    /// history, after skipping those no longer kept, or None when it has
    /// read everything published or is not a subscriber.
    pub fn next_event(&mut self, subscriber: usize) -> (r: Option<CallEvent>)
        requires
            old(self).wf(),
        ensures
            final(self).wf(),
            final(self).calls() == old(self).calls(),
            final(self).ids_as(*old(self)),
            final(self).media() == old(self).media(),
            final(self).history() == old(self).history(),
            final(self).subscribers() == old(self).subscribers(),
            subscriber >= old(self).subscribers() ==> r is None && final(self).cursors() == old(self).cursors(),
            subscriber < old(self).subscribers() ==> r == (if old(self).next_for(subscriber as int)
                < old(self).history().len() {
                Some(old(self).history()[old(self).next_for(subscriber as int) as int])
            } else {
                None
            }),
            subscriber < old(self).subscribers() && old(self).next_for(subscriber as int) < old(self).history().len() ==> final(self).cursors() == old(self).cursors().update(
                subscriber as int,
                old(self).next_for(subscriber as int) + 1,
            ),
            subscriber < old(self).subscribers() && old(self).next_for(subscriber as int) >= old(self).history().len() ==> final(self).cursors() == old(self).cursors(),
    {
        if subscriber >= self.events.subscriber_count() {
            return None;
        }
        self.events.recv(subscriber)
    }
}

/// Identifiers handed out one after another are pairwise distinct. Each
/// successful `initiate_call` returns an identifier outside the registry's
/// issued set and adds it to that set, which no operation shrinks; so for any
/// run of such calls, with `issued[k]` the set before the k-th, no identifier
/// comes back twice.
pub proof fn lemma_successive_ids_distinct(ids: Seq<CallId>, issued: Seq<Set<CallId>>)
    requires
        issued.len() == ids.len() + 1,
        forall|k: int|
            0 <= k < ids.len() ==> !(#[trigger] issued[k]).contains(ids[k]) && issued[k + 1]
                == issued[k].insert(ids[k]),
    ensures
        forall|i: int, j: int| 0 <= i < j < ids.len() ==> ids[i] != ids[j],
{
    assert forall|i: int, j: int| 0 <= i < j < ids.len() implies ids[i] != ids[j] by {
        lemma_issued_keeps(ids, issued, i, j);
        assert(!issued[j].contains(ids[j]));
    }
}

proof fn lemma_issued_keeps(ids: Seq<CallId>, issued: Seq<Set<CallId>>, i: int, j: int)
    requires
        issued.len() == ids.len() + 1,
        forall|k: int|
            0 <= k < ids.len() ==> !(#[trigger] issued[k]).contains(ids[k]) && issued[k + 1]
                == issued[k].insert(ids[k]),
        0 <= i < j <= ids.len(),
    ensures
        issued[j].contains(ids[i]),
    decreases j - i,
{
    if j == i + 1 {
        assert(issued[i + 1] == issued[i].insert(ids[i]));
    } else {
        lemma_issued_keeps(ids, issued, i, j - 1);
        assert(issued[j] == issued[j - 1].insert(ids[j - 1]));
    }
}

/// The lifecycle of one call: a new call is `Calling`; an accept makes it
/// `Connected` and a reject `Failed`, and neither leads back to `Calling`;
/// an end, from any state, removes it.
pub proof fn lemma_lifecycle(m: Map<u128, CallState>, k: u128)
    requires
        !m.contains_key(k),
    ensures
        m.insert(k, CallState::Calling)[k] == CallState::Calling,
        accepted(m.insert(k, CallState::Calling), k)[k] == CallState::Connected,
        rejected(m.insert(k, CallState::Calling), k)[k] == CallState::Failed,
        !ended(m.insert(k, CallState::Calling), k).contains_key(k),
        !ended(accepted(m.insert(k, CallState::Calling), k), k).contains_key(k),
        !ended(rejected(m.insert(k, CallState::Calling), k), k).contains_key(k),
        forall|n: Map<u128, CallState>|
            #![trigger accepted(n, k)]
            #![trigger rejected(n, k)]
            n.contains_key(k) ==> accepted(n, k)[k] != CallState::Calling && rejected(n, k)[k]
                != CallState::Calling,
{
}

/// Every operation aimed at an identifier that is not in the registry
/// leaves the registry as it was (and, by the operations' contracts, fails
/// with `CallNotFound`).
pub proof fn lemma_not_found_unchanged(m: Map<u128, CallState>, k: u128)
    requires
        !m.contains_key(k),
    ensures
        accepted(m, k) == m,
        rejected(m, k) == m,
        ended(m, k) == m,
{
    assert(ended(m, k) =~= m);
}

/// An operation on one call neither adds, removes nor changes any other
/// call.
pub proof fn lemma_isolation(m: Map<u128, CallState>, k: u128, other: u128)
    requires
        k != other,
    ensures
        accepted(m, k).contains_key(other) == m.contains_key(other),
        rejected(m, k).contains_key(other) == m.contains_key(other),
        ended(m, k).contains_key(other) == m.contains_key(other),
        m.insert(k, CallState::Calling).contains_key(other) == m.contains_key(other),
        m.contains_key(other) ==> accepted(m, k)[other] == m[other] && rejected(m, k)[other]
            == m[other] && ended(m, k)[other] == m[other] && m.insert(
            k,
            CallState::Calling,
        )[other] == m[other],
{
}

} // verus!
