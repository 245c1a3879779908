//! The setup of one pipeline, as a sequence of requests to the pipeline
//! engine and of its replies.
//!
//! A [`PipelineSetup`] says which request comes next, and is advanced by
//! what the engine replied. Its states and steps are given by
//! [`SetupState`], over which the contracts are stated.

use vstd::prelude::*;
use crate::error::Error;
use crate::pipeline::{
    accepted, caps_of, EngineAction, EngineReply, PipelineHandle, SourceCaps, Stage,
};
use crate::stream::Stream;
use crate::virtio_sound::{is_rate_code, rate_hz, rate_lookup, rate_to_hz};

verus! {

/// How far the setup of a pipeline has come.
#[derive(Clone, Copy, Debug, PartialEq, Eq, Structural)]
pub enum Phase {
    /// The engine is to be initialized.
    Init,
    /// The pipeline is to be created.
    CreatePipeline,
    /// The element of the stage is to be created; those of the stages
    /// before it exist.
    MakeElement(Stage),
    /// The elements are to be added to the pipeline.
    AddElements,
    /// The elements are to be linked.
    LinkElements,
    /// The source element is to get this descriptor.
    SetSourceCaps(SourceCaps),
    /// The pipeline, whose source has this descriptor, is to be started.
    Play(SourceCaps),
    /// The pipeline runs, or is on its way to; its source has this
    /// descriptor.
    Ready(SourceCaps),
    /// The setup failed.
    Failed(Error),
}

impl Phase {
    /// The request that the phase waits for, and `None` once the setup has
    /// ended.
    pub open spec fn action(self) -> Option<EngineAction> {
        match self {
            Phase::Init => Some(EngineAction::Init),
            Phase::CreatePipeline => Some(EngineAction::CreatePipeline),
            Phase::MakeElement(stage) => Some(EngineAction::MakeElement(stage)),
            Phase::AddElements => Some(EngineAction::AddElements),
            Phase::LinkElements => Some(EngineAction::LinkElements),
            Phase::SetSourceCaps(caps) => Some(EngineAction::SetSourceCaps(caps)),
            Phase::Play(_) => Some(EngineAction::Play),
            Phase::Ready(_) => None,
            Phase::Failed(_) => None,
        }
    }

    /// Whether the setup has ended, well or not.
    pub open spec fn ended(self) -> bool {
        self.action() is None
    }

    /// The error with which the setup ends when the request of this phase
    /// is not carried out. A phase that waits for no request has the error
    /// of the request that led to it: a failed one its own, and the one in
    /// which the pipeline runs that of the start.
    pub open spec fn failure(self) -> Error {
        match self {
            Phase::Init => Error::EngineInit,
            Phase::CreatePipeline => Error::ElementCreation,
            Phase::MakeElement(_) => Error::ElementCreation,
            Phase::AddElements => Error::Link,
            Phase::LinkElements => Error::Link,
            Phase::SetSourceCaps(_) => Error::Caps,
            Phase::Play(_) => Error::StateChange,
            Phase::Ready(_) => Error::StateChange,
            Phase::Failed(error) => error,
        }
    }

    /// The phase that follows this one when its request was carried out,
    /// for a stream of `channels` channels with rate code `rate`. The
    /// descriptor is made once the elements are linked: there a value that
    /// is no rate code ends the setup.
    pub open spec fn following(self, channels: u8, rate: u8) -> Phase {
        match self {
            Phase::Init => Phase::CreatePipeline,
            Phase::CreatePipeline => Phase::MakeElement(Stage::Source),
            Phase::MakeElement(stage) => match stage.successor() {
                Some(next) => Phase::MakeElement(next),
                None => Phase::AddElements,
            },
            Phase::AddElements => Phase::LinkElements,
            Phase::LinkElements => match rate_lookup(rate) {
                Ok(hz) => Phase::SetSourceCaps(caps_of(channels, hz)),
                Err(error) => Phase::Failed(error),
            },
            Phase::SetSourceCaps(caps) => Phase::Play(caps),
            Phase::Play(caps) => Phase::Ready(caps),
            Phase::Ready(caps) => Phase::Ready(caps),
            Phase::Failed(error) => Phase::Failed(error),
        }
    }

    /// The number of requests that are still open from this phase on when
    /// each of them is carried out.
    pub open spec fn remaining(self) -> nat {
        match self {
            Phase::Init => 10,
            Phase::CreatePipeline => 9,
            Phase::MakeElement(stage) => (8 - stage.position()) as nat,
            Phase::AddElements => 4,
            Phase::LinkElements => 3,
            Phase::SetSourceCaps(_) => 2,
            Phase::Play(_) => 1,
            Phase::Ready(_) => 0,
            Phase::Failed(_) => 0,
        }
    }

    /// Gives the request that the phase waits for, and `None` once the
    /// setup has ended.
    pub fn request(self) -> (action: Option<EngineAction>)
        ensures
            action == self.action(),
    {
        match self {
            Phase::Init => Some(EngineAction::Init),
            Phase::CreatePipeline => Some(EngineAction::CreatePipeline),
            Phase::MakeElement(stage) => Some(EngineAction::MakeElement(stage)),
            Phase::AddElements => Some(EngineAction::AddElements),
            Phase::LinkElements => Some(EngineAction::LinkElements),
            Phase::SetSourceCaps(caps) => Some(EngineAction::SetSourceCaps(caps)),
            Phase::Play(_) => Some(EngineAction::Play),
            Phase::Ready(_) => None,
            Phase::Failed(_) => None,
        }
    }

    /// Gives the error with which the setup ends when the request of this
    /// phase is not carried out.
    pub fn on_failure(self) -> (error: Error)
        ensures
            error == self.failure(),
    {
        match self {
            Phase::Init => Error::EngineInit,
            Phase::CreatePipeline => Error::ElementCreation,
            Phase::MakeElement(_) => Error::ElementCreation,
            Phase::AddElements => Error::Link,
            Phase::LinkElements => Error::Link,
            Phase::SetSourceCaps(_) => Error::Caps,
            Phase::Play(_) => Error::StateChange,
            Phase::Ready(_) => Error::StateChange,
            Phase::Failed(error) => error,
        }
    }

    /// Gives the phase that follows this one when its request was carried
    /// out, for a stream of `channels` channels with rate code `rate`.
    pub fn on_success(self, channels: u8, rate: u8) -> (next: Phase)
        ensures
            next == self.following(channels, rate),
    {
        match self {
            Phase::Init => Phase::CreatePipeline,
            Phase::CreatePipeline => Phase::MakeElement(Stage::Source),
            Phase::MakeElement(stage) => match stage.next() {
                Some(next) => Phase::MakeElement(next),
                None => Phase::AddElements,
            },
            Phase::AddElements => Phase::LinkElements,
            Phase::LinkElements => match rate_to_hz(rate) {
                Ok(hz) => Phase::SetSourceCaps(SourceCaps { channels, rate: hz }),
                Err(error) => Phase::Failed(error),
            },
            Phase::SetSourceCaps(caps) => Phase::Play(caps),
            Phase::Play(caps) => Phase::Ready(caps),
            Phase::Ready(caps) => Phase::Ready(caps),
            Phase::Failed(error) => Phase::Failed(error),
        }
    }
}

/// The state of a setup: the stream it is for, the two parameters that
/// were read from the stream's descriptor, the phase, and the handle to the
/// pipeline once the engine has created it.
pub struct SetupState<P> {
    pub stream_id: usize,
    pub channels: u8,
    pub rate: u8,
    pub phase: Phase,
    pub pipeline: Option<P>,
}

impl<P> SetupState<P> {
    /// The state in which the setup for slot `stream_id` begins, with the
    /// parameters of `stream`.
    pub open spec fn start(stream_id: usize, stream: Stream) -> Self {
        SetupState {
            stream_id,
            channels: stream.params.channels,
            rate: stream.params.rate,
            phase: Phase::Init,
            pipeline: None,
        }
    }

    /// The state after the engine has answered `reply` to the request of
    /// the phase. A setup that has ended stays as it is. A reply that tells
    /// no success ends the setup with the error of the phase. Any other
    /// moves the setup to the following phase, and the reply to the
    /// creation of the pipeline brings its handle.
    pub open spec fn step(self, reply: EngineReply<P>) -> Self {
        match self.phase.action() {
            None => self,
            Some(action) => if accepted(action, reply) {
                SetupState {
                    phase: self.phase.following(self.channels, self.rate),
                    pipeline: match reply {
                        EngineReply::Pipeline(pipeline) => Some(pipeline),
                        _ => self.pipeline,
                    },
                    ..self
                }
            } else {
                SetupState { phase: Phase::Failed(self.phase.failure()), ..self }
            },
        }
    }

    /// The state after the engine has given `replies`, one after the other.
    pub open spec fn run(self, replies: Seq<EngineReply<P>>) -> Self
        decreases replies.len(),
    {
        if replies.len() == 0 {
            self
        } else {
            self.run(replies.drop_last()).step(replies.last())
        }
    }

    /// What holds of every state that a setup passes through: from the
    /// creation of the pipeline on there is a handle, and a descriptor is
    /// the one of the stream's parameters.
    pub open spec fn wf(self) -> bool {
        &&& match self.phase {
            Phase::Init | Phase::CreatePipeline | Phase::Failed(_) => true,
            _ => self.pipeline is Some,
        }
        &&& match self.phase {
            Phase::SetSourceCaps(caps) | Phase::Play(caps) | Phase::Ready(caps) => {
                &&& is_rate_code(self.rate)
                &&& caps == caps_of(self.channels, rate_hz(self.rate))
            },
            _ => true,
        }
    }

    /// What the setup has come to: the handle for the slot where the
    /// pipeline was started, and else an error. A setup that failed has its
    /// error; one that is given up while a request is open counts as failed
    /// at that request.
    pub open spec fn outcome(self) -> Result<PipelineHandle<P>, Error> {
        match self.phase {
            Phase::Ready(caps) => Ok(PipelineHandle { pipeline: self.pipeline->Some_0, caps }),
            _ => Err(self.phase.failure()),
        }
    }
}

/// The setup of the pipeline of one stream. It begins with the parameters
/// that were read from the stream's descriptor, names one request to the
/// engine after the other, and ends with a handle for the stream's slot or
/// with an error.
pub struct PipelineSetup<P> {
    stream_id: usize,
    channels: u8,
    rate: u8,
    phase: Phase,
    pipeline: Option<P>,
}

impl<P> View for PipelineSetup<P> {
    type V = SetupState<P>;

    closed spec fn view(&self) -> SetupState<P> {
        SetupState {
            stream_id: self.stream_id,
            channels: self.channels,
            rate: self.rate,
            phase: self.phase,
            pipeline: self.pipeline,
        }
    }
}

impl<P> PipelineSetup<P> {
    #[verifier::type_invariant]
    spec fn well_formed(self) -> bool {
        self@.wf()
    }

    /// Begins the setup for slot `stream_id` with the parameters of
    /// `stream`. Nothing has been asked of the engine yet.
    pub fn start(stream_id: usize, stream: &Stream) -> (setup: Self)
        ensures
            setup@ == SetupState::<P>::start(stream_id, *stream),
    {
        PipelineSetup {
            stream_id,
            channels: stream.params.channels,
            rate: stream.params.rate,
            phase: Phase::Init,
            pipeline: None,
        }
    }

    /// The slot that the setup is for.
    pub fn stream_id(&self) -> (id: usize)
        ensures
            id == self@.stream_id,
    {
        self.stream_id
    }

    /// The phase that the setup is in.
    pub fn phase(&self) -> (phase: Phase)
        ensures
            phase == self@.phase,
            self@.wf(),
    {
        proof {
            use_type_invariant(self);
        }
        self.phase
    }

    /// The request that is to be made of the engine next, and `None` once
    /// the setup has ended.
    pub fn next_action(&self) -> (action: Option<EngineAction>)
        ensures
            action == self@.phase.action(),
            self@.wf(),
    {
        proof {
            use_type_invariant(self);
        }
        self.phase.request()
    }

    /// Takes the engine's reply to the request that `next_action` named.
    pub fn advance(&mut self, reply: EngineReply<P>)
        ensures
            final(self)@ == old(self)@.step(reply),
            final(self)@.wf(),
    {
        proof {
            use_type_invariant(&*self);
        }
        match self.phase.request() {
            None => {},
            Some(action) => {
                if reply.accepts(action) {
                    let next = self.phase.on_success(self.channels, self.rate);
                    match reply {
                        EngineReply::Pipeline(pipeline) => {
                            self.pipeline = Some(pipeline);
                        },
                        _ => {},
                    }
                    self.phase = next;
                } else {
                    self.phase = Phase::Failed(self.phase.on_failure());
                }
            },
        }
    }

    /// Ends the setup and hands out what it has come to: the handle for
    /// the stream's slot, or the error. A setup that is ended while a
    /// request is open is dropped with the pipeline that it may hold.
    pub fn finish(self) -> (outcome: Result<PipelineHandle<P>, Error>)
        ensures
            outcome == self@.outcome(),
    {
        proof {
            use_type_invariant(&self);
        }
        match self.phase {
            Phase::Ready(caps) => Ok(PipelineHandle { pipeline: self.pipeline.unwrap(), caps }),
            _ => Err(self.phase.on_failure()),
        }
    }
}

} // verus!
