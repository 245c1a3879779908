//! Stream descriptors and the registry that holds one per stream slot.

use vstd::prelude::*;
use vstd::rwlock::RwLock;
use vstd::rwlock::RwLockPredicate;

verus! {

/// Which way a stream's samples flow.
#[derive(Clone, Copy, Debug, PartialEq, Eq, Structural)]
pub enum Direction {
    /// From the guest to the host's audio output.
    Output,
    /// From the host's audio input to the guest.
    Input,
}

/// The device-visible lifecycle state of a stream.
#[derive(Clone, Copy, Debug, PartialEq, Eq, Structural)]
pub enum PCMState {
    SetParameters,
    Prepare,
    Release,
    Start,
    Stop,
}

/// The parameters negotiated for a stream. `rate` is a rate code, not a
/// frequency.
#[derive(Clone, Copy, Debug, PartialEq, Eq, Structural)]
pub struct PcmParams {
    pub buffer_bytes: u32,
    pub period_bytes: u32,
    pub features: u32,
    pub channels: u8,
    pub format: u8,
    pub rate: u8,
}

/// What the registry knows of one stream slot.
#[derive(Clone, Copy, Debug, PartialEq, Eq, Structural)]
pub struct Stream {
    pub direction: Direction,
    pub params: PcmParams,
    pub state: PCMState,
}

/// The descriptor sequence `streams` with the parameters of slot `id`
/// replaced by `params`, and everything else as it was.
pub open spec fn with_params(streams: Seq<Stream>, id: int, params: PcmParams) -> Seq<Stream>
    recommends
        0 <= id < streams.len(),
{
    streams.update(id, Stream { params, ..streams[id] })
}

/// The descriptor sequence `streams` with the state of slot `id` replaced
/// by `state`, and everything else as it was.
pub open spec fn with_state(streams: Seq<Stream>, id: int, state: PCMState) -> Seq<Stream>
    recommends
        0 <= id < streams.len(),
{
    streams.update(id, Stream { state, ..streams[id] })
}

/// A write of parameters or of a state to one slot keeps the number of
/// slots and leaves the descriptor of every other slot whole; the slot that
/// is written keeps the fields that the write is not about.
pub proof fn lemma_write_leaves_other_slots(
    streams: Seq<Stream>,
    id: int,
    params: PcmParams,
    state: PCMState,
    other: int,
)
    requires
        0 <= id < streams.len(),
        0 <= other < streams.len(),
        other != id,
    ensures
        with_params(streams, id, params).len() == streams.len(),
        with_params(streams, id, params)[other] == streams[other],
        with_params(streams, id, params)[id] == (Stream { params, ..streams[id] }),
        with_state(streams, id, state).len() == streams.len(),
        with_state(streams, id, state)[other] == streams[other],
        with_state(streams, id, state)[id] == (Stream { state, ..streams[id] }),
{
}

/// Writes `params` into slot `id` of `streams`. No other slot changes, and
/// the slot keeps its direction and state.
pub fn store_params(streams: &mut Vec<Stream>, id: usize, params: PcmParams)
    requires
        id < old(streams)@.len(),
    ensures
        final(streams)@ == with_params(old(streams)@, id as int, params),
{
    let previous = streams[id];
    streams[id] = Stream { direction: previous.direction, params, state: previous.state };
}

/// Writes `state` into slot `id` of `streams`. No other slot changes, and
/// the slot keeps its direction and parameters.
pub fn store_state(streams: &mut Vec<Stream>, id: usize, state: PCMState)
    requires
        id < old(streams)@.len(),
    ensures
        final(streams)@ == with_state(old(streams)@, id as int, state),
{
    let previous = streams[id];
    streams[id] = Stream { direction: previous.direction, params: previous.params, state };
}

/// What the registry's lock admits: descriptor sequences of one fixed length.
pub struct SlotCount {
    pub slots: usize,
}

impl RwLockPredicate<Vec<Stream>> for SlotCount {
    open spec fn inv(self, v: Vec<Stream>) -> bool {
        v@.len() == self.slots
    }
}

/// The stream descriptors of a device, one per slot, behind one
/// reader/writer lock. The number of slots is fixed when the registry is
/// made; a stream identifier is an index below it.
pub struct StreamRegistry {
    lock: RwLock<Vec<Stream>, SlotCount>,
}

impl StreamRegistry {
    /// The number of slots.
    pub closed spec fn slots(&self) -> nat {
        self.lock.pred().slots as nat
    }

    /// Makes a registry that holds `streams`, slot by slot.
    pub fn new(streams: Vec<Stream>) -> (registry: Self)
        ensures
            registry.slots() == streams@.len(),
    {
        let ghost shape = SlotCount { slots: streams.len() };
        StreamRegistry { lock: RwLock::new(streams, Ghost(shape)) }
    }

    /// Reads the descriptor of slot `id` under the read lock, which is
    /// released before the descriptor is handed out. There is a descriptor
    /// for every identifier below the number of slots and for no other.
    pub fn read(&self, id: usize) -> (stream: Option<Stream>)
        ensures
            stream is Some <==> id < self.slots(),
    {
        let handle = self.lock.acquire_read();
        let streams = handle.borrow();
        let stream = if id < streams.len() {
            Some(streams[id])
        } else {
            None
        };
        handle.release_read();
        stream
    }

    /// Counts the slots.
    pub fn len(&self) -> (n: usize)
        ensures
            n == self.slots(),
    {
        let handle = self.lock.acquire_read();
        let n = handle.borrow().len();
        handle.release_read();
        n
    }

    /// Writes `params` into slot `id` under the write lock, and tells
    /// whether there is such a slot. Where there is none, nothing is
    /// written.
    pub fn set_params(&self, id: usize, params: PcmParams) -> (written: bool)
        ensures
            written <==> id < self.slots(),
    {
        let (mut streams, handle) = self.lock.acquire_write();
        let written = id < streams.len();
        if written {
            store_params(&mut streams, id, params);
        }
        handle.release_write(streams);
        written
    }

    /// Writes `state` into slot `id` under the write lock, and tells
    /// whether there is such a slot. Where there is none, nothing is
    /// written.
    pub fn set_state(&self, id: usize, state: PCMState) -> (written: bool)
        ensures
            written <==> id < self.slots(),
    {
        let (mut streams, handle) = self.lock.acquire_write();
        let written = id < streams.len();
        if written {
            store_state(&mut streams, id, state);
        }
        handle.release_write(streams);
        written
    }
}

} // verus!
