//! The call list kept by a desktop shell.

use vstd::prelude::*;
use crate::ids::{CallId, uuid_text};

verus! {

/// State of a call as the desktop shell shows it.
#[derive(Debug, Clone, Copy, PartialEq, Eq, Structural)]
pub enum CallState {
    /// Being set up
    Connecting,
    /// In progress
    Active,
    /// Finished
    Ended,
}

/// One call of the desktop shell.
#[derive(Debug, Clone, PartialEq, Eq)]
pub struct CallInfo {
    /// Call identifier
    pub call_id: String,
    /// Remote peer
    pub peer: String,
    /// State
    pub state: CallState,
}

/// The view of a call: identifier, peer and state.
pub open spec fn info_view(c: CallInfo) -> (Seq<char>, Seq<char>, CallState) {
    (c.call_id@, c.peer@, c.state)
}

/// Accepts a non-empty identity.
pub fn initialize(identity: &str) -> (r: Result<(), String>)
    ensures
        r is Ok <==> identity@.len() > 0,
{
    if identity.is_empty() {
        Err(String::from_str("Identity cannot be empty"))
    } else {
        Ok(())
    }
}

/// The calls of the desktop shell, each under a unique identifier.
pub struct CallRegistry {
    calls: Vec<CallInfo>,
}

impl CallRegistry {
    /// The calls, oldest first.
    pub closed spec fn calls(&self) -> Seq<(Seq<char>, Seq<char>, CallState)> {
        self.calls@.map_values(|c: CallInfo| info_view(c))
    }

    /// Identifiers are unique.
    pub closed spec fn wf(&self) -> bool {
        forall|i: int, j: int|
            0 <= i < j < self.calls@.len() ==> self.calls@[i].call_id@ != self.calls@[j].call_id@
    }

    /// An empty list.
    pub fn new() -> (r: Self)
        ensures
            r.wf(),
            r.calls().len() == 0,
    {
        CallRegistry { calls: Vec::new() }
    }

    fn find(&self, call_id: &String) -> (r: Option<usize>)
        ensures
            r matches Some(i) ==> i < self.calls().len() && self.calls()[i as int].0 == call_id@,
            r is None ==> forall|i: int|
                0 <= i < self.calls().len() ==> self.calls()[i].0 != call_id@,
    {
        let mut i: usize = 0;
        while i < self.calls.len()
            invariant
                i <= self.calls@.len(),
                forall|j: int| 0 <= j < i ==> self.calls@[j].call_id@ != call_id@,
            decreases self.calls@.len() - i,
        {
            if self.calls[i].call_id == *call_id {
                return Some(i);
            }
            i = i + 1;
        }
        None
    }

    /// Starts a call to a non-empty peer under a fresh identifier
    /// `call-<uuid>` and returns the identifier. The new call is
    /// `Connecting`.
    pub fn call(&mut self, peer: &str) -> (r: Result<String, String>)
        requires
            old(self).wf(),
        ensures
            final(self).wf(),
            r is Ok <==> peer@.len() > 0,
            r is Err ==> final(self).calls() == old(self).calls(),
            r matches Ok(id) ==> (exists|v: u128| id@ == "call-"@ + uuid_text(v)) && final(self).calls().contains((id@, peer@, CallState::Connecting)),
    {
        if peer.is_empty() {
            return Err(String::from_str("Peer address cannot be empty"));
        }
        let uuid = CallId::new();
        let mut id = String::from_str("call-");
        let text = uuid.to_string();
        id.append(text.as_str());
        let info = CallInfo {
            call_id: id.clone(),
            peer: String::from_str(peer),
            state: CallState::Connecting,
        };
        let ghost v = info_view(info);
        match self.find(&id) {
            Some(i) => {
                let ghost before = self.calls@;
                self.calls.set(i, info);
                assert(self.calls()[i as int] == v);
                assert forall|a: int, b: int|
                    0 <= a < b < self.calls@.len() implies self.calls@[a].call_id@
                    != self.calls@[b].call_id@ by {
                    assert(before[i as int].call_id@ == id@);
                }
            },
            None => {
                let ghost before = self.calls@;
                let ghost cv = self.calls();
                self.calls.push(info);
                assert(self.calls()[self.calls@.len() - 1] == v);
                assert forall|a: int, b: int|
                    0 <= a < b < self.calls@.len() implies self.calls@[a].call_id@
                    != self.calls@[b].call_id@ by {
                    if b == before.len() {
                        assert(cv[a].0 != id@);
                        assert(cv[a] == info_view(before[a]));
                    }
                }
            },
        }
        Ok(id)
    }

    /// The state of a call; fails when there is no such call.
    pub fn get_call_state(&self, call_id: &str) -> (r: Result<CallState, String>)
        ensures
            r is Ok <==> exists|i: int| 0 <= i < self.calls().len() && self.calls()[i].0 == call_id@,
            r matches Ok(s) ==> exists|i: int|
                0 <= i < self.calls().len() && self.calls()[i].0 == call_id@ && self.calls()[i].2
                    == s,
    {
        let key = String::from_str(call_id);
        match self.find(&key) {
            Some(i) => Ok(self.calls[i].state),
            None => Err(String::from_str("Call not found")),
        }
    }

    /// Marks a call as ended; fails when there is no such call.
    pub fn end_call(&mut self, call_id: &str) -> (r: Result<(), String>)
        requires
            old(self).wf(),
        ensures
            final(self).wf(),
            r is Ok <==> exists|i: int|
                0 <= i < old(self).calls().len() && old(self).calls()[i].0 == call_id@,
            r is Err ==> final(self).calls() == old(self).calls(),
            r is Ok ==> exists|i: int|
                0 <= i < old(self).calls().len() && old(self).calls()[i].0 == call_id@ && final(self).calls() == old(self).calls().update(
                    i,
                    (old(self).calls()[i].0, old(self).calls()[i].1, CallState::Ended),
                ),
    {
        let key = String::from_str(call_id);
        match self.find(&key) {
            Some(i) => {
                let updated = CallInfo {
                    call_id: self.calls[i].call_id.clone(),
                    peer: self.calls[i].peer.clone(),
                    state: CallState::Ended,
                };
                let ghost before = self.calls();
                self.calls.set(i, updated);
                assert(self.calls() =~= before.update(
                    i as int,
                    (before[i as int].0, before[i as int].1, CallState::Ended),
                ));
                Ok(())
            },
            None => Err(String::from_str("Call not found")),
        }
    }

    /// Every call, oldest first.
    pub fn list_calls(&self) -> (r: Vec<CallInfo>)
        ensures
            r@.map_values(|c: CallInfo| info_view(c)) == self.calls(),
    {
        let mut out: Vec<CallInfo> = Vec::new();
        let mut i: usize = 0;
        while i < self.calls.len()
            invariant
                i <= self.calls@.len(),
                out@.len() == i,
                forall|j: int| 0 <= j < i ==> info_view(out@[j]) == info_view(self.calls@[j]),
            decreases self.calls@.len() - i,
        {
            let c = CallInfo {
                call_id: self.calls[i].call_id.clone(),
                peer: self.calls[i].peer.clone(),
                state: self.calls[i].state,
            };
            out.push(c);
            i = i + 1;
        }
        assert(out@.map_values(|c: CallInfo| info_view(c)) =~= self.calls());
        out
    }
}

} // verus!
