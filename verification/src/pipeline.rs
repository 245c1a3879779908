//! What a pipeline is made of and what is said between the backend and the
//! pipeline engine: the four stages, the capability descriptor of the
//! source stage, the requests to the engine and its replies.
//!
//! The engine is not part of this crate. Whoever owns it performs the
//! requests and hands back the replies.

use vstd::prelude::*;

verus! {

/// One of the four stages of a pipeline, in the order of the chain.
#[derive(Clone, Copy, Debug, PartialEq, Eq, Structural)]
pub enum Stage {
    /// Takes the raw samples that are pushed into the pipeline.
    Source,
    /// Converts between sample formats.
    Convert,
    /// Converts between sample rates.
    Resample,
    /// Renders to the host's audio output.
    Sink,
}

/// The stages of a pipeline, from the source to the sink.
pub open spec fn chain() -> Seq<Stage> {
    seq![Stage::Source, Stage::Convert, Stage::Resample, Stage::Sink]
}

/// The chain has four stages; each stands at its position, and each but the
/// sink is followed by the stage at the next position.
pub proof fn lemma_chain_of_four(stage: Stage)
    ensures
        chain().len() == 4,
        0 <= stage.position() < 4,
        chain()[stage.position()] == stage,
        stage.successor() is None <==> stage == Stage::Sink,
        stage.successor() is Some ==> stage.successor()->Some_0.position() == stage.position() + 1,
{
}

impl Stage {
    /// The place of the stage in the chain, counted from the source.
    pub open spec fn position(self) -> int {
        match self {
            Stage::Source => 0,
            Stage::Convert => 1,
            Stage::Resample => 2,
            Stage::Sink => 3,
        }
    }

    /// The stage that follows this one in the chain, if any does.
    pub open spec fn successor(self) -> Option<Stage> {
        if self.position() + 1 < chain().len() {
            Some(chain()[self.position() + 1])
        } else {
            None
        }
    }

    /// The name of the element type that the engine's factory makes for
    /// the stage.
    pub open spec fn element_type(self) -> Seq<char> {
        match self {
            Stage::Source => "appsrc"@,
            Stage::Convert => "audioconvert"@,
            Stage::Resample => "audioresample"@,
            Stage::Sink => "autoaudiosink"@,
        }
    }

    /// Gives the stage that follows this one in the chain, and `None` for
    /// the sink.
    pub fn next(self) -> (following: Option<Stage>)
        ensures
            following == self.successor(),
    {
        match self {
            Stage::Source => Some(Stage::Convert),
            Stage::Convert => Some(Stage::Resample),
            Stage::Resample => Some(Stage::Sink),
            Stage::Sink => None,
        }
    }

    /// Gives the name of the element type that the engine's factory makes
    /// for the stage.
    pub fn factory_name(self) -> (name: &'static str)
        ensures
            name@ == self.element_type(),
    {
        match self {
            Stage::Source => "appsrc",
            Stage::Convert => "audioconvert",
            Stage::Resample => "audioresample",
            Stage::Sink => "autoaudiosink",
        }
    }
}

/// The capability descriptor of a source stage: what the samples pushed
/// into the pipeline look like. The media type and the sample encoding are
/// the same for every stream.
#[derive(Clone, Copy, Debug, PartialEq, Eq, Structural)]
pub struct SourceCaps {
    /// Number of channels.
    pub channels: u8,
    /// Sample rate in hertz.
    pub rate: i32,
}

/// The descriptor for a stream of `channels` channels at frequency `hz`.
pub open spec fn caps_of(channels: u8, hz: i32) -> SourceCaps {
    SourceCaps { channels, rate: hz }
}

impl SourceCaps {
    /// The media type tag of every descriptor.
    pub open spec fn media_type_tag() -> Seq<char> {
        "audio/raw"@
    }

    /// The sample encoding of every descriptor: signed 16-bit samples,
    /// little-endian.
    pub open spec fn format_tag() -> Seq<char> {
        "S16LE"@
    }

    /// Gives the media type tag.
    pub fn media_type(&self) -> (tag: &'static str)
        ensures
            tag@ == Self::media_type_tag(),
    {
        "audio/raw"
    }

    /// Gives the sample encoding.
    pub fn format(&self) -> (tag: &'static str)
        ensures
            tag@ == Self::format_tag(),
    {
        "S16LE"
    }
}

/// A request to the pipeline engine.
#[derive(Clone, Copy, Debug, PartialEq, Eq, Structural)]
pub enum EngineAction {
    /// Initialize the engine. Doing so again is harmless.
    Init,
    /// Create an empty pipeline and hand out a handle to it.
    CreatePipeline,
    /// Create the element of a stage.
    MakeElement(Stage),
    /// Add the four elements to the pipeline.
    AddElements,
    /// Link the four elements to one chain, from the source to the sink.
    LinkElements,
    /// Set the capability descriptor of the source element.
    SetSourceCaps(SourceCaps),
    /// Bring the pipeline to its running state.
    Play,
}

/// What the engine reports of a change of state.
#[derive(Clone, Copy, Debug, PartialEq, Eq, Structural)]
pub enum StateChange {
    /// The change was rejected.
    Failure,
    /// The change is done.
    Success,
    /// The change is under way and completes later.
    Async,
    /// The change is done, and the pipeline will not preroll.
    NoPreroll,
}

/// The engine's reply to a request. `P` is the handle to a pipeline.
pub enum EngineReply<P> {
    /// The request was carried out.
    Done,
    /// The request failed.
    Failed,
    /// The pipeline that was created.
    Pipeline(P),
    /// The outcome of a change of state.
    StateChange(StateChange),
}

/// Whether `reply` tells that `action` was carried out. A change of state
/// that is done or under way counts; only its rejection does not. A reply
/// of a kind that does not belong to the action tells no success.
pub open spec fn accepted<P>(action: EngineAction, reply: EngineReply<P>) -> bool {
    match action {
        EngineAction::CreatePipeline => reply is Pipeline,
        EngineAction::Play => reply is StateChange && reply->StateChange_0 != StateChange::Failure,
        _ => reply is Done,
    }
}

impl<P> EngineReply<P> {
    /// Tells whether this reply says that `action` was carried out.
    pub fn accepts(&self, action: EngineAction) -> (yes: bool)
        ensures
            yes == accepted(action, *self),
    {
        match action {
            EngineAction::CreatePipeline => match self {
                EngineReply::Pipeline(_) => true,
                _ => false,
            },
            EngineAction::Play => match self {
                EngineReply::StateChange(StateChange::Failure) => false,
                EngineReply::StateChange(_) => true,
                _ => false,
            },
            _ => match self {
                EngineReply::Done => true,
                _ => false,
            },
        }
    }
}

/// What a setup that went well leaves for the stream's slot: the handle to
/// the pipeline, and the descriptor that its source stage was given.
#[derive(Debug)]
pub struct PipelineHandle<P> {
    pub pipeline: P,
    pub caps: SourceCaps,
}

} // verus!
