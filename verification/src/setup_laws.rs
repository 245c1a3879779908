//! What holds of every setup, whatever the engine replies, and of those in
//! which the engine carries out every request.

use vstd::prelude::*;
use crate::error::Error;
use crate::pipeline::{accepted, caps_of, EngineReply, PipelineHandle, Stage};
use crate::setup::{Phase, SetupState};
use crate::stream::Stream;
use crate::virtio_sound::{is_rate_code, rate_hz, rate_lookup};

verus! {

/// Every reply brings a setup that has not ended nearer to its end: no
/// setup asks more than ten requests of the engine.
pub proof fn lemma_step_comes_nearer<P>(state: SetupState<P>, reply: EngineReply<P>)
    requires
        !state.phase.ended(),
    ensures
        state.step(reply).phase.remaining() < state.phase.remaining(),
        state.phase.remaining() <= 10,
{
}

/// Running through replies and then taking one more is running through
/// all of them.
pub proof fn lemma_run_push<P>(
    state: SetupState<P>,
    replies: Seq<EngineReply<P>>,
    reply: EngineReply<P>,
)
    ensures
        state.run(replies.push(reply)) == state.run(replies).step(reply),
{
    assert(replies.push(reply).drop_last() =~= replies);
}

/// Whether every one of `replies` tells that the request it answers was
/// carried out, for a setup that begins in `start`: the replies before the
/// last do so, the setup then waits for a request, and the last reply tells
/// that this request was carried out.
pub open spec fn carried_out<P>(start: SetupState<P>, replies: Seq<EngineReply<P>>) -> bool
    decreases replies.len(),
{
    replies.len() > 0 ==> {
        let open_request = start.run(replies.drop_last()).phase.action();
        &&& carried_out(start, replies.drop_last())
        &&& open_request is Some
        &&& accepted(open_request->Some_0, replies.last())
    }
}

/// The phases of a setup in which every request is carried out, for a
/// stream of `channels` channels at frequency `hz`: ten that wait for a
/// request, and the one in which the pipeline runs.
pub open spec fn course(channels: u8, hz: i32) -> Seq<Phase> {
    seq![
        Phase::Init,
        Phase::CreatePipeline,
        Phase::MakeElement(Stage::Source),
        Phase::MakeElement(Stage::Convert),
        Phase::MakeElement(Stage::Resample),
        Phase::MakeElement(Stage::Sink),
        Phase::AddElements,
        Phase::LinkElements,
        Phase::SetSourceCaps(caps_of(channels, hz)),
        Phase::Play(caps_of(channels, hz)),
        Phase::Ready(caps_of(channels, hz)),
    ]
}

/// A run changes neither the stream that the setup is for nor the
/// parameters it began with, and every state it reaches is well-formed.
pub proof fn lemma_run_keeps<P>(start: SetupState<P>, replies: Seq<EngineReply<P>>)
    requires
        start.wf(),
    ensures
        start.run(replies).wf(),
        start.run(replies).stream_id == start.stream_id,
        start.run(replies).channels == start.channels,
        start.run(replies).rate == start.rate,
    decreases replies.len(),
{
    if replies.len() > 0 {
        lemma_run_keeps(start, replies.drop_last());
    }
}

/// Once a setup has ended, further replies change nothing.
pub proof fn lemma_end_is_final<P>(state: SetupState<P>, replies: Seq<EngineReply<P>>)
    requires
        state.phase.ended(),
    ensures
        state.run(replies) == state,
    decreases replies.len(),
{
    if replies.len() > 0 {
        lemma_end_is_final(state, replies.drop_last());
    }
}

/// Whatever the engine replies, a setup that reaches the phase in which the
/// pipeline runs has a handle to the pipeline, began with a rate code, and
/// gave the source stage the channel count of the stream's descriptor and
/// the frequency of its rate code.
pub proof fn lemma_ready_has_descriptor_of_stream<P>(
    stream_id: usize,
    stream: Stream,
    replies: Seq<EngineReply<P>>,
)
    requires
        SetupState::<P>::start(stream_id, stream).run(replies).phase is Ready,
    ensures
        ({
            let end = SetupState::<P>::start(stream_id, stream).run(replies);
            &&& is_rate_code(stream.params.rate)
            &&& end.phase == Phase::Ready(
                caps_of(stream.params.channels, rate_hz(stream.params.rate)),
            )
            &&& end.outcome() is Ok
            &&& end.outcome()->Ok_0.caps.channels == stream.params.channels
            &&& Ok::<i32, Error>(end.outcome()->Ok_0.caps.rate) == rate_lookup(stream.params.rate)
            &&& end.pipeline == Some(end.outcome()->Ok_0.pipeline)
            &&& end.stream_id == stream_id
        }),
{
    lemma_run_keeps(SetupState::<P>::start(stream_id, stream), replies);
}

/// A setup for a stream whose rate is no rate code never reaches the phase
/// in which the pipeline runs, whatever the engine replies.
pub proof fn lemma_no_rate_code_never_ready<P>(
    stream_id: usize,
    stream: Stream,
    replies: Seq<EngineReply<P>>,
)
    requires
        !is_rate_code(stream.params.rate),
    ensures
        !(SetupState::<P>::start(stream_id, stream).run(replies).phase is Ready),
        SetupState::<P>::start(stream_id, stream).run(replies).outcome() is Err,
{
    lemma_run_keeps(SetupState::<P>::start(stream_id, stream), replies);
}

/// In the course of a setup each phase but the last waits for a request
/// and is followed, once the request is carried out, by the next; the last
/// waits for none.
pub proof fn lemma_course_links(channels: u8, rate: u8, k: int)
    requires
        is_rate_code(rate),
        0 <= k <= 10,
    ensures
        course(channels, rate_hz(rate)).len() == 11,
        k < 10 ==> course(channels, rate_hz(rate))[k].action() is Some,
        k < 10 ==> course(channels, rate_hz(rate))[k].following(channels, rate) == course(
            channels,
            rate_hz(rate),
        )[k + 1],
        k == 10 ==> course(channels, rate_hz(rate))[k].ended(),
{
}

/// Where every request is carried out, the setup passes through the phases
/// of its course in their order: the engine is initialized, the pipeline
/// created, then the source, the converter, the resampler and the sink, in
/// this order; the elements are added, then linked, the source is given its
/// descriptor, and last the pipeline is started. No more than ten requests
/// are made.
pub proof fn lemma_course_in_order<P>(
    stream_id: usize,
    stream: Stream,
    replies: Seq<EngineReply<P>>,
)
    requires
        is_rate_code(stream.params.rate),
        carried_out(SetupState::<P>::start(stream_id, stream), replies),
    ensures
        replies.len() <= 10,
        SetupState::<P>::start(stream_id, stream).run(replies).phase == course(
            stream.params.channels,
            rate_hz(stream.params.rate),
        )[replies.len() as int],
        replies.len() >= 2 ==> replies[1] is Pipeline && SetupState::<P>::start(
            stream_id,
            stream,
        ).run(replies).pipeline == Some(replies[1]->Pipeline_0),
    decreases replies.len(),
{
    let start = SetupState::<P>::start(stream_id, stream);
    if replies.len() > 0 {
        let before = replies.drop_last();
        lemma_course_in_order(stream_id, stream, before);
        lemma_run_keeps(start, before);
        lemma_course_links(stream.params.channels, stream.params.rate, before.len() as int);
    }
}

/// A setup in which every request is carried out ends in one of two ways:
/// for a stream with a rate code, after ten requests, with a running
/// pipeline; for any other, when the elements are linked, with the error
/// that names the stream's rate.
pub proof fn lemma_carried_out_ends<P>(
    stream_id: usize,
    stream: Stream,
    replies: Seq<EngineReply<P>>,
)
    requires
        carried_out(SetupState::<P>::start(stream_id, stream), replies),
        SetupState::<P>::start(stream_id, stream).run(replies).phase.ended(),
    ensures
        is_rate_code(stream.params.rate) ==> replies.len() == 10 && SetupState::<P>::start(
            stream_id,
            stream,
        ).run(replies).phase == Phase::Ready(
            caps_of(stream.params.channels, rate_hz(stream.params.rate)),
        ),
        !is_rate_code(stream.params.rate) ==> replies.len() == 8 && SetupState::<P>::start(
            stream_id,
            stream,
        ).run(replies).phase == Phase::Failed(Error::UnsupportedRate(stream.params.rate)),
{
    if is_rate_code(stream.params.rate) {
        lemma_course_in_order(stream_id, stream, replies);
        lemma_course_links(stream.params.channels, stream.params.rate, replies.len() as int);
    } else {
        lemma_course_before_descriptor(stream_id, stream, replies);
        if replies.len() < 8 {
            let phase = course(stream.params.channels, 0)[replies.len() as int];
            assert(phase.action() is Some);
        }
    }
}

/// Up to the linking of the elements a setup in which every request is
/// carried out takes the same course whatever the stream's rate is; for a
/// rate that is no rate code it ends there, with the error that names the
/// rate.
pub proof fn lemma_course_before_descriptor<P>(
    stream_id: usize,
    stream: Stream,
    replies: Seq<EngineReply<P>>,
)
    requires
        !is_rate_code(stream.params.rate),
        carried_out(SetupState::<P>::start(stream_id, stream), replies),
    ensures
        replies.len() <= 8,
        replies.len() < 8 ==> forall|hz: i32|
            SetupState::<P>::start(stream_id, stream).run(replies).phase == #[trigger] course(
                stream.params.channels,
                hz,
            )[replies.len() as int],
        replies.len() == 8 ==> SetupState::<P>::start(stream_id, stream).run(replies).phase
            == Phase::Failed(Error::UnsupportedRate(stream.params.rate)),
    decreases replies.len(),
{
    let start = SetupState::<P>::start(stream_id, stream);
    if replies.len() > 0 {
        let before = replies.drop_last();
        lemma_course_before_descriptor(stream_id, stream, before);
        lemma_run_keeps(start, before);
        if before.len() < 8 {
            assert(start.run(before).phase == course(stream.params.channels, 0)[before.len() as int]);
        }
    }
}

/// Where every one of the ten requests is carried out, the setup ends with
/// a running pipeline whose source stage has the channel count of the
/// stream's descriptor and the frequency of its rate code. The handle is
/// the one that the engine gave when it created the pipeline.
pub proof fn lemma_carried_out_setup_is_ready<P>(
    stream_id: usize,
    stream: Stream,
    replies: Seq<EngineReply<P>>,
)
    requires
        is_rate_code(stream.params.rate),
        carried_out(SetupState::<P>::start(stream_id, stream), replies),
        replies.len() == 10,
    ensures
        replies[1] is Pipeline,
        SetupState::<P>::start(stream_id, stream).run(replies).outcome() == Ok::<
            PipelineHandle<P>,
            Error,
        >(
            PipelineHandle {
                pipeline: replies[1]->Pipeline_0,
                caps: caps_of(stream.params.channels, rate_hz(stream.params.rate)),
            },
        ),
{
    lemma_course_in_order(stream_id, stream, replies);
}

} // verus!
