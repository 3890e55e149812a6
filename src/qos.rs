//! Media streams with quality-of-service parameters.

use vstd::prelude::*;

verus! {

/// Errors of the stream manager.
#[derive(Debug, Clone, PartialEq, Eq)]
pub enum StreamError {
    /// Configuration error
    ConfigError(String),
    /// A stream operation failed
    OperationError(String),
}

/// Latency target and importance of a stream. A higher priority is more
/// important (the reverse of the ranking of `StreamType::priority`).
#[derive(Debug, Clone, Copy, PartialEq, Eq, Structural)]
pub struct QoSParams {
    /// Target latency in milliseconds
    pub target_latency_ms: u32,
    /// Priority (higher = more important)
    pub priority: u8,
}

impl QoSParams {
    /// Audio: 50 ms, priority 10.
    pub fn audio() -> (r: Self)
        ensures
            r == (QoSParams { target_latency_ms: 50, priority: 10 }),
    {
        QoSParams { target_latency_ms: 50, priority: 10 }
    }

    /// Video: 150 ms, priority 5.
    pub fn video() -> (r: Self)
        ensures
            r == (QoSParams { target_latency_ms: 150, priority: 5 }),
    {
        QoSParams { target_latency_ms: 150, priority: 5 }
    }

    /// Screen sharing: 200 ms, priority 3.
    pub fn screen_share() -> (r: Self)
        ensures
            r == (QoSParams { target_latency_ms: 200, priority: 3 }),
    {
        QoSParams { target_latency_ms: 200, priority: 3 }
    }
}

/// Kind of a managed media stream.
#[derive(Debug, Clone, Copy, PartialEq, Eq, Structural)]
pub enum MediaStreamType {
    /// Audio stream
    Audio,
    /// Video stream
    Video,
    /// Screen share stream
    ScreenShare,
    /// Data channel
    DataChannel,
}

/// The preset a stream of the given kind gets. Data channels have no preset
/// of their own and take the audio one.
pub open spec fn qos_for(t: MediaStreamType) -> QoSParams {
    match t {
        MediaStreamType::Audio => QoSParams { target_latency_ms: 50, priority: 10 },
        MediaStreamType::Video => QoSParams { target_latency_ms: 150, priority: 5 },
        MediaStreamType::ScreenShare => QoSParams { target_latency_ms: 200, priority: 3 },
        MediaStreamType::DataChannel => QoSParams { target_latency_ms: 50, priority: 10 },
    }
}

/// An open media stream.
#[derive(Debug, Clone, Copy, PartialEq, Eq, Structural)]
pub struct QuicMediaStream {
    /// Stream type
    pub stream_type: MediaStreamType,
    /// QoS parameters
    pub qos_params: QoSParams,
    /// Stream identifier
    pub stream_id: u64,
}

/// Opens, finds and closes media streams; identifiers count up from 0 and
/// are never reused.
pub struct QuicMediaStreamManager {
    streams: Vec<QuicMediaStream>,
    next_stream_id: u64,
}

/// Whether a stream with identifier `id` is among `s`.
pub open spec fn has_stream(s: Seq<QuicMediaStream>, id: u64) -> bool {
    exists|i: int| 0 <= i < s.len() && (#[trigger] s[i]).stream_id == id
}

impl QuicMediaStreamManager {
    /// The open streams, oldest first.
    pub closed spec fn streams(&self) -> Seq<QuicMediaStream> {
        self.streams@
    }

    /// Identifier the next stream gets.
    pub closed spec fn next_id(&self) -> u64 {
        self.next_stream_id
    }

    /// Identifiers ascend strictly and are all below the next one.
    pub closed spec fn wf(&self) -> bool {
        &&& forall|i: int, j: int|
            0 <= i < j < self.streams@.len() ==> self.streams@[i].stream_id
                < self.streams@[j].stream_id
        &&& forall|i: int|
            0 <= i < self.streams@.len() ==> self.streams@[i].stream_id < self.next_stream_id
    }

    /// A manager with no streams. The given parameters are not used: each
    /// stream takes the preset of its kind.
    pub fn new(qos: QoSParams) -> (r: Self)
        ensures
            r.wf(),
            r.streams() == Seq::<QuicMediaStream>::empty(),
            r.next_id() == 0,
    {
        QuicMediaStreamManager { streams: Vec::new(), next_stream_id: 0 }
    }

    /// Opens a stream of the given kind with its preset and returns its
    /// identifier. Fails only once the identifiers are exhausted.
    pub fn create_stream(&mut self, stream_type: MediaStreamType) -> (r: Result<u64, StreamError>)
        requires
            old(self).wf(),
        ensures
            final(self).wf(),
            r is Ok <==> old(self).next_id() < u64::MAX,
            r is Err ==> final(self).streams() == old(self).streams() && final(self).next_id()
                == old(self).next_id(),
            r matches Ok(id) ==> id == old(self).next_id() && !has_stream(old(self).streams(), id)
                && final(self).next_id() == id + 1
                && final(self).streams() == old(self).streams().push(
                QuicMediaStream { stream_type, qos_params: qos_for(stream_type), stream_id: id },
            ),
    {
        if self.next_stream_id == u64::MAX {
            return Err(StreamError::OperationError(String::from_str("stream identifiers exhausted")));
        }
        let stream_id = self.next_stream_id;
        self.next_stream_id = stream_id + 1;
        let qos_params = match stream_type {
            MediaStreamType::Audio => QoSParams::audio(),
            MediaStreamType::Video => QoSParams::video(),
            MediaStreamType::ScreenShare => QoSParams::screen_share(),
            MediaStreamType::DataChannel => QoSParams::audio(),
        };
        self.streams.push(QuicMediaStream { stream_type, qos_params, stream_id });
        Ok(stream_id)
    }

    fn position(&self, stream_id: u64) -> (r: Option<usize>)
        requires
            self.wf(),
        ensures
            r is None <==> !has_stream(self.streams(), stream_id),
            r matches Some(i) ==> i < self.streams().len() && self.streams()[i as int].stream_id
                == stream_id,
    {
        let mut i: usize = 0;
        while i < self.streams.len()
            invariant
                i <= self.streams@.len(),
                forall|j: int| 0 <= j < i ==> self.streams@[j].stream_id != stream_id,
            decreases self.streams@.len() - i,
        {
            if self.streams[i].stream_id == stream_id {
                return Some(i);
            }
            i = i + 1;
        }
        None
    }

    /// The stream with the given identifier, if it is open.
    pub fn get_stream(&self, stream_id: u64) -> (r: Option<&QuicMediaStream>)
        requires
            self.wf(),
        ensures
            r is None <==> !has_stream(self.streams(), stream_id),
            r matches Some(s) ==> s.stream_id == stream_id && self.streams().contains(*s),
    {
        match self.position(stream_id) {
            Some(i) => Some(&self.streams[i]),
            None => None,
        }
    }

    /// Closes the stream with the given identifier; fails with
    /// `OperationError` when no such stream is open.
    pub fn close_stream(&mut self, stream_id: u64) -> (r: Result<(), StreamError>)
        requires
            old(self).wf(),
        ensures
            final(self).wf(),
            final(self).next_id() == old(self).next_id(),
            r is Ok <==> has_stream(old(self).streams(), stream_id),
            r matches Err(e) ==> e is OperationError,
            r is Err ==> final(self).streams() == old(self).streams(),
            r is Ok ==> !has_stream(final(self).streams(), stream_id) && (forall|s: QuicMediaStream|
                s.stream_id != stream_id ==> (final(self).streams().contains(s)
                    <==> old(self).streams().contains(s))),
    {
        match self.position(stream_id) {
            Some(i) => {
                let ghost old_s = self.streams@;
                self.streams.remove(i);
                assert forall|a: int, b: int|
                    0 <= a < b < self.streams@.len() implies self.streams@[a].stream_id
                    < self.streams@[b].stream_id by {
                    let a0 = if a < i { a } else { a + 1 };
                    let b0 = if b < i { b } else { b + 1 };
                    assert(self.streams@[a] == old_s[a0]);
                    assert(self.streams@[b] == old_s[b0]);
                }
                assert forall|s: QuicMediaStream| s.stream_id != stream_id implies (
                self.streams@.contains(s) <==> old_s.contains(s)) by {
                    if old_s.contains(s) {
                        let k = choose|k: int| 0 <= k < old_s.len() && old_s[k] == s;
                        assert(k != i);
                        let k2 = if k < i { k } else { k - 1 };
                        assert(self.streams@[k2] == s);
                    }
                }
                assert(!has_stream(self.streams@, stream_id)) by {
                    if has_stream(self.streams@, stream_id) {
                        let k = choose|k: int|
                            0 <= k < self.streams@.len() && (#[trigger] self.streams@[k]).stream_id
                                == stream_id;
                        let k0 = if k < i { k } else { k + 1 };
                        assert(old_s[k0].stream_id == stream_id);
                        assert(k0 != i);
                    }
                }
                Ok(())
            },
            None => Err(StreamError::OperationError(String::from_str("Stream not found"))),
        }
    }

    /// Hands data to an open stream; fails with `OperationError` when no
    /// such stream is open.
    pub fn send_data(&self, stream_id: u64, data: &[u8]) -> (r: Result<(), StreamError>)
        requires
            self.wf(),
        ensures
            r is Ok <==> has_stream(self.streams(), stream_id),
            r matches Err(e) ==> e is OperationError,
    {
        match self.position(stream_id) {
            Some(_) => Ok(()),
            None => Err(StreamError::OperationError(String::from_str("Stream not found"))),
        }
    }

    /// No transport is attached to the streams, so nothing can be received:
    /// this always fails with `OperationError`.
    pub fn receive_data(&self, stream_id: u64) -> (r: Result<Vec<u8>, StreamError>)
        requires
            self.wf(),
        ensures
            r matches Err(e) && e is OperationError,
    {
        match self.position(stream_id) {
            Some(_) => Err(StreamError::OperationError(String::from_str("Not implemented"))),
            None => Err(StreamError::OperationError(String::from_str("Stream not found"))),
        }
    }

    /// The open streams, oldest first.
    pub fn active_streams(&self) -> (r: &[QuicMediaStream])
        ensures
            r@ == self.streams(),
    {
        self.streams.as_slice()
    }
}

} // verus!
