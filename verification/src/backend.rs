//! The backend: one slot per stream, each empty or holding the handle of
//! the pipeline that was set up for the stream.

use std::sync::Arc;
use vstd::prelude::*;
use crate::error::Error;
use crate::pipeline::{accepted, caps_of, EngineAction, EngineReply, PipelineHandle};
use crate::setup::{PipelineSetup, SetupState};
use crate::setup_laws::{
    carried_out, lemma_carried_out_ends, lemma_carried_out_setup_is_ready,
    lemma_ready_has_descriptor_of_stream, lemma_run_keeps, lemma_run_push,
    lemma_step_comes_nearer,
};
use crate::stream::{Stream, StreamRegistry};
use crate::virtio_sound::{is_rate_code, rate_hz, rate_to_hz};

verus! {

/// The slots `slots` after a setup has ended in `end`: where it went well,
/// the slot of its stream holds the new handle in place of whatever it held
/// before; where it failed, nothing has changed.
pub open spec fn settled<P>(
    slots: Seq<Option<PipelineHandle<P>>>,
    end: SetupState<P>,
) -> Seq<Option<PipelineHandle<P>>> {
    match end.outcome() {
        Ok(handle) => slots.update(end.stream_id as int, Some(handle)),
        Err(_) => slots,
    }
}

/// What the caller is told of a setup that has ended in `end`.
pub open spec fn verdict<P>(end: SetupState<P>) -> Result<(), Error> {
    match end.outcome() {
        Ok(_) => Ok(()),
        Err(error) => Err(error),
    }
}

/// Whether `replies` are replies that `engine` may give, one after the
/// other, to the requests of a setup that begins in `start`: the replies
/// before the last are such, the setup then waits for a request, and the
/// last is a reply that the engine may give to that request.
pub open spec fn answers<P, F: Fn(EngineAction) -> EngineReply<P>>(
    engine: F,
    start: SetupState<P>,
    replies: Seq<EngineReply<P>>,
) -> bool
    decreases replies.len(),
{
    replies.len() > 0 ==> {
        let open_request = start.run(replies.drop_last()).phase.action();
        &&& answers(engine, start, replies.drop_last())
        &&& open_request is Some
        &&& call_ensures(engine, (open_request->Some_0,), replies.last())
    }
}

/// Replies that the engine may give stay so when one more is added that it
/// may give to the request that is then open.
pub proof fn lemma_answers_push<P, F: Fn(EngineAction) -> EngineReply<P>>(
    engine: F,
    start: SetupState<P>,
    replies: Seq<EngineReply<P>>,
    reply: EngineReply<P>,
)
    requires
        answers(engine, start, replies),
        start.run(replies).phase.action() is Some,
        call_ensures(engine, (start.run(replies).phase.action()->Some_0,), reply),
    ensures
        answers(engine, start, replies.push(reply)),
{
    assert(replies.push(reply).drop_last() =~= replies);
}

/// Whether every reply that `engine` may give to a request tells that the
/// request was carried out.
pub open spec fn willing<P, F: Fn(EngineAction) -> EngineReply<P>>(engine: F) -> bool {
    forall|action: EngineAction, reply: EngineReply<P>|
        call_ensures(engine, (action,), reply) ==> accepted(action, reply)
}

/// The replies of a willing engine are all carried out.
pub proof fn lemma_willing_engine_carries_out<P, F: Fn(EngineAction) -> EngineReply<P>>(
    engine: F,
    start: SetupState<P>,
    replies: Seq<EngineReply<P>>,
)
    requires
        willing(engine),
        answers(engine, start, replies),
    ensures
        carried_out(start, replies),
    decreases replies.len(),
{
    if replies.len() > 0 {
        lemma_willing_engine_carries_out(engine, start, replies.drop_last());
    }
}

/// A setup touches no slot but that of its stream, and never the number of
/// slots.
pub proof fn lemma_setup_keeps_other_slots<P>(
    slots: Seq<Option<PipelineHandle<P>>>,
    end: SetupState<P>,
    other: int,
)
    requires
        end.stream_id < slots.len(),
        0 <= other < slots.len(),
        other != end.stream_id,
    ensures
        settled(slots, end).len() == slots.len(),
        settled(slots, end)[other] == slots[other],
{
}

/// A setup that did not go well leaves every slot as it was, the slot of
/// its stream too.
pub proof fn lemma_failed_setup_changes_nothing<P>(
    slots: Seq<Option<PipelineHandle<P>>>,
    end: SetupState<P>,
)
    requires
        verdict(end) is Err,
    ensures
        settled(slots, end) == slots,
{
}

/// A setup in which the engine carries out each of the ten requests fills
/// the slot of its stream, whether the slot was empty or not: the result is
/// `Ok`, the slot holds the handle that the engine gave, and the source
/// stage of that pipeline has the channel count of the stream's descriptor
/// and the frequency of its rate code.
pub proof fn lemma_setup_fills_slot<P>(
    slots: Seq<Option<PipelineHandle<P>>>,
    stream_id: usize,
    stream: Stream,
    replies: Seq<EngineReply<P>>,
)
    requires
        stream_id < slots.len(),
        is_rate_code(stream.params.rate),
        carried_out(SetupState::<P>::start(stream_id, stream), replies),
        replies.len() == 10,
    ensures
        ({
            let end = SetupState::<P>::start(stream_id, stream).run(replies);
            let slot = settled(slots, end)[stream_id as int];
            &&& end.phase.ended()
            &&& verdict(end) == Ok::<(), Error>(())
            &&& slot is Some
            &&& replies[1] == EngineReply::Pipeline(slot->Some_0.pipeline)
            &&& slot->Some_0.caps.channels == stream.params.channels
            &&& slot->Some_0.caps.rate == rate_hz(stream.params.rate)
        }),
{
    lemma_carried_out_setup_is_ready(stream_id, stream, replies);
    lemma_run_keeps(SetupState::<P>::start(stream_id, stream), replies);
}

/// Of two setups for one stream, one after the other, the slot keeps one
/// handle: that of the second where the second went well, and else what the
/// first left.
pub proof fn lemma_second_setup_replaces_first<P>(
    slots: Seq<Option<PipelineHandle<P>>>,
    first: SetupState<P>,
    second: SetupState<P>,
)
    requires
        first.stream_id == second.stream_id,
        second.stream_id < slots.len(),
    ensures
        second.outcome() is Ok ==> settled(settled(slots, first), second) == settled(slots, second),
        second.outcome() is Ok ==> settled(settled(slots, first), second)[second.stream_id as int]
            == Some(second.outcome()->Ok_0),
        second.outcome() is Err ==> settled(settled(slots, first), second) == settled(slots, first),
{
    if second.outcome() is Ok {
        assert(settled(settled(slots, first), second) =~= settled(slots, second));
    }
}

/// Setups for two different streams do not touch each other's slot: in
/// whichever order they end, the slots are the same.
pub proof fn lemma_setups_of_two_streams_commute<P>(
    slots: Seq<Option<PipelineHandle<P>>>,
    one: SetupState<P>,
    other: SetupState<P>,
)
    requires
        one.stream_id != other.stream_id,
        one.stream_id < slots.len(),
        other.stream_id < slots.len(),
    ensures
        settled(settled(slots, one), other) == settled(settled(slots, other), one),
        settled(settled(slots, one), other)[one.stream_id as int] == settled(slots, one)[one.stream_id as int],
        settled(settled(slots, one), other)[other.stream_id as int] == settled(
            slots,
            other,
        )[other.stream_id as int],
{
    assert(settled(settled(slots, one), other) =~= settled(settled(slots, other), one));
}

/// The pipelines of a device's streams. The backend shares the registry of
/// stream descriptors with the device and has one slot per descriptor. `P`
/// is the handle to a pipeline, which the engine hands out.
pub struct GStreamerBackend<P> {
    pipelines: Vec<Option<PipelineHandle<P>>>,
    streams: Arc<StreamRegistry>,
}

impl<P> View for GStreamerBackend<P> {
    type V = Seq<Option<PipelineHandle<P>>>;

    closed spec fn view(&self) -> Seq<Option<PipelineHandle<P>>> {
        self.pipelines@
    }
}

impl<P> GStreamerBackend<P> {
    #[verifier::type_invariant]
    spec fn well_formed(self) -> bool {
        self.pipelines@.len() == self.streams.slots()
    }

    /// The registry that the backend reads the descriptors from.
    pub closed spec fn registry(&self) -> Arc<StreamRegistry> {
        self.streams
    }

    /// Makes a backend for the streams of `streams`, with every slot empty.
    pub fn new(streams: Arc<StreamRegistry>) -> (backend: Self)
        ensures
            backend.registry() == streams,
            backend@.len() == streams.slots(),
            forall|i: int| 0 <= i < backend@.len() ==> backend@[i] is None,
    {
        let n = streams.len();
        let mut pipelines: Vec<Option<PipelineHandle<P>>> = Vec::new();
        while pipelines.len() < n
            invariant
                pipelines@.len() <= n,
                forall|i: int| 0 <= i < pipelines@.len() ==> pipelines@[i] is None,
            decreases n - pipelines@.len(),
        {
            pipelines.push(None);
        }
        GStreamerBackend { pipelines, streams }
    }

    /// Gives the registry that the backend reads the descriptors from.
    pub fn streams(&self) -> (registry: &Arc<StreamRegistry>)
        ensures
            *registry == self.registry(),
    {
        &self.streams
    }

    /// The number of slots, which is the number of stream descriptors.
    pub fn pipelines_no(&self) -> (n: usize)
        ensures
            n == self@.len(),
            n == self.registry().slots(),
    {
        proof {
            use_type_invariant(self);
        }
        self.pipelines.len()
    }

    /// The handle in slot `stream_id`. There is none where no pipeline was
    /// set up for the stream, and none where there is no such slot.
    pub fn pipeline(&self, stream_id: usize) -> (handle: Option<&PipelineHandle<P>>)
        ensures
            stream_id < self@.len() ==> match handle {
                Some(found) => self@[stream_id as int] == Some(*found),
                None => self@[stream_id as int] is None,
            },
            stream_id >= self@.len() ==> handle is None,
    {
        if stream_id < self.pipelines.len() {
            self.pipelines[stream_id].as_ref()
        } else {
            None
        }
    }

    /// The frequency in hertz of the rate code `rate`.
    pub fn get_rate(&self, rate: u8) -> (hz: i32)
        requires
            is_rate_code(rate),
        ensures
            hz == rate_hz(rate),
    {
        rate_to_hz(rate).unwrap()
    }

    /// Begins the setup of the pipeline for slot `stream_id`: reads the
    /// stream's descriptor under the registry's read lock, which is released
    /// before anything is asked of the engine. The descriptor is the one
    /// that the registry held at the time of the read.
    pub fn begin_setup(&self, stream_id: usize) -> (setup: PipelineSetup<P>)
        requires
            stream_id < self@.len(),
        ensures
            exists|stream: Stream| setup@ == SetupState::<P>::start(stream_id, stream),
    {
        proof {
            use_type_invariant(self);
        }
        let stream = self.streams.read(stream_id).unwrap();
        PipelineSetup::start(stream_id, &stream)
    }

    /// Stores `handle` in slot `stream_id`, in place of whatever the slot
    /// held. A handle that was there is dropped, not stopped.
    pub fn install(&mut self, stream_id: usize, handle: PipelineHandle<P>)
        requires
            stream_id < old(self)@.len(),
        ensures
            final(self)@ == old(self)@.update(stream_id as int, Some(handle)),
            final(self).registry() == old(self).registry(),
    {
        proof {
            use_type_invariant(&*self);
        }
        self.pipelines[stream_id] = Some(handle);
    }

    /// Ends `setup`. Where it went well, its handle is stored in the slot
    /// of its stream and the result is `Ok`; where it did not, no slot
    /// changes and the result is its error.
    pub fn complete_setup(&mut self, setup: PipelineSetup<P>) -> (result: Result<(), Error>)
        requires
            setup@.stream_id < old(self)@.len(),
        ensures
            result == verdict(setup@),
            final(self)@ == settled(old(self)@, setup@),
            final(self).registry() == old(self).registry(),
    {
        let stream_id = setup.stream_id();
        match setup.finish() {
            Ok(handle) => {
                self.install(stream_id, handle);
                Ok(())
            },
            Err(error) => Err(error),
        }
    }

    /// Sets up the pipeline of stream `stream_id` from the descriptor
    /// `stream`. The engine is asked, request by request, to initialize, to
    /// create the pipeline and its four elements, to add and link them, to
    /// give the source its descriptor and to start the pipeline. The first
    /// request that the engine does not carry out ends the setup with its
    /// error, and so does a rate code that is none. Where all went well the
    /// slot holds the new handle, in place of whatever it held; where not,
    /// no slot has changed.
    ///
    /// What the engine replies is not known beforehand. The result and the
    /// slots are those of a setup that began with `stream` and ran to its
    /// end through replies that the engine may give to the requests of that
    /// setup.
    pub fn setup_pipeline_from<F>(&mut self, stream_id: usize, stream: &Stream, engine: F) -> (result:
        Result<(), Error>)
        where F: Fn(EngineAction) -> EngineReply<P>
        requires
            stream_id < old(self)@.len(),
            forall|action: EngineAction| call_requires(engine, (action,)),
        ensures
            exists|replies: Seq<EngineReply<P>>|
                {
                    let end = #[trigger] SetupState::<P>::start(stream_id, *stream).run(replies);
                    &&& answers(engine, SetupState::<P>::start(stream_id, *stream), replies)
                    &&& end.phase.ended()
                    &&& result == verdict(end)
                    &&& final(self)@ == settled(old(self)@, end)
                },
            final(self)@.len() == old(self)@.len(),
            forall|i: int|
                0 <= i < old(self)@.len() && i != stream_id ==> final(self)@[i] == old(self)@[i],
            result is Err ==> final(self)@ == old(self)@,
            result is Ok ==> is_rate_code(stream.params.rate),
            willing(engine) ==> (result is Ok <==> is_rate_code(stream.params.rate)),
            willing(engine) && result is Err ==> result == Err::<(), Error>(
                Error::UnsupportedRate(stream.params.rate),
            ),
            result is Ok ==> final(self)@[stream_id as int] is Some,
            result is Ok ==> final(self)@[stream_id as int]->Some_0.caps == caps_of(
                stream.params.channels,
                rate_hz(stream.params.rate),
            ),
            final(self).registry() == old(self).registry(),
    {
        let mut setup = PipelineSetup::start(stream_id, stream);
        let ghost start = setup@;
        let ghost mut replies = Seq::<EngineReply<P>>::empty();
        let mut action = setup.next_action();
        while action.is_some()
            invariant
                forall|action: EngineAction| call_requires(engine, (action,)),
                setup@ == start.run(replies),
                action == setup@.phase.action(),
                answers(engine, start, replies),
                setup@.stream_id == stream_id,
            decreases setup@.phase.remaining(),
        {
            let reply = engine(action.unwrap());
            proof {
                lemma_step_comes_nearer(setup@, reply);
                lemma_run_push(start, replies, reply);
                lemma_answers_push(engine, start, replies, reply);
                replies = replies.push(reply);
            }
            setup.advance(reply);
            action = setup.next_action();
        }
        proof {
            if setup@.phase is Ready {
                lemma_ready_has_descriptor_of_stream(stream_id, *stream, replies);
            }
            if willing(engine) {
                lemma_willing_engine_carries_out(engine, start, replies);
                lemma_carried_out_ends(stream_id, *stream, replies);
            }
        }
        self.complete_setup(setup)
    }

    /// Sets up the pipeline of stream `stream_id`. The stream's descriptor
    /// is read from the registry under its read lock, which is released
    /// before anything is asked of the engine; the rest is
    /// `setup_pipeline_from` with that descriptor.
    ///
    /// Which descriptor the registry holds at the time of the read is not
    /// known beforehand, nor what the engine replies. The result and the
    /// slots are those of a setup that began with some descriptor and ran to
    /// its end through replies that the engine may give to the requests of
    /// that setup.
    pub fn setup_pipeline<F>(&mut self, stream_id: usize, engine: F) -> (result: Result<(), Error>)
        where F: Fn(EngineAction) -> EngineReply<P>
        requires
            stream_id < old(self)@.len(),
            forall|action: EngineAction| call_requires(engine, (action,)),
        ensures
            exists|stream: Stream, replies: Seq<EngineReply<P>>|
                {
                    let end = #[trigger] SetupState::<P>::start(stream_id, stream).run(replies);
                    &&& answers(engine, SetupState::<P>::start(stream_id, stream), replies)
                    &&& end.phase.ended()
                    &&& result == verdict(end)
                    &&& final(self)@ == settled(old(self)@, end)
                },
            final(self)@.len() == old(self)@.len(),
            forall|i: int|
                0 <= i < old(self)@.len() && i != stream_id ==> final(self)@[i] == old(self)@[i],
            result is Err ==> final(self)@ == old(self)@,
            result is Ok ==> final(self)@[stream_id as int] is Some,
            final(self).registry() == old(self).registry(),
    {
        proof {
            use_type_invariant(&*self);
        }
        let stream = self.streams.read(stream_id).unwrap();
        self.setup_pipeline_from(stream_id, &stream, engine)
    }
}

} // verus!
