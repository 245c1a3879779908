use vhost_device_sound::error::Error;
use vhost_device_sound::pipeline::{EngineAction, EngineReply, SourceCaps, Stage, StateChange};
use vhost_device_sound::setup::{Phase, PipelineSetup};
use vhost_device_sound::stream::{Direction, PCMState, PcmParams, Stream};

fn stream_with(channels: u8, rate: u8) -> Stream {
    Stream {
        direction: Direction::Output,
        params: PcmParams {
            buffer_bytes: 0,
            period_bytes: 0,
            features: 0,
            channels,
            format: 5,
            rate,
        },
        state: PCMState::Prepare,
    }
}

/// What an engine that carries out everything replies to `action`.
fn willing(action: EngineAction) -> EngineReply<u32> {
    match action {
        EngineAction::CreatePipeline => EngineReply::Pipeline(77),
        EngineAction::Play => EngineReply::StateChange(StateChange::Success),
        _ => EngineReply::Done,
    }
}

/// Runs a setup with a willing engine through `steps` requests and gives the
/// requests that were made.
fn run_willing(setup: &mut PipelineSetup<u32>, steps: usize) -> Vec<EngineAction> {
    let mut asked = Vec::new();
    for _ in 0..steps {
        let action = setup.next_action().unwrap();
        asked.push(action);
        setup.advance(willing(action));
    }
    asked
}

#[test]
fn stages_follow_each_other_from_source_to_sink() {
    assert_eq!(Stage::Source.next(), Some(Stage::Convert));
    assert_eq!(Stage::Convert.next(), Some(Stage::Resample));
    assert_eq!(Stage::Resample.next(), Some(Stage::Sink));
    assert_eq!(Stage::Sink.next(), None);
}

#[test]
fn stages_have_their_element_types() {
    assert_eq!(Stage::Source.factory_name(), "appsrc");
    assert_eq!(Stage::Convert.factory_name(), "audioconvert");
    assert_eq!(Stage::Resample.factory_name(), "audioresample");
    assert_eq!(Stage::Sink.factory_name(), "autoaudiosink");
}

#[test]
fn descriptor_has_fixed_media_type_and_encoding() {
    let caps = SourceCaps { channels: 2, rate: 48000 };
    assert_eq!(caps.media_type(), "audio/raw");
    assert_eq!(caps.format(), "S16LE");
}

#[test]
fn setup_begins_with_engine_initialization() {
    let setup: PipelineSetup<u32> = PipelineSetup::start(3, &stream_with(2, 7));
    assert_eq!(setup.stream_id(), 3);
    assert_eq!(setup.phase(), Phase::Init);
    assert_eq!(setup.next_action(), Some(EngineAction::Init));
}

#[test]
fn willing_engine_is_asked_ten_requests_in_order() {
    let mut setup: PipelineSetup<u32> = PipelineSetup::start(0, &stream_with(2, 6));
    let asked = run_willing(&mut setup, 10);
    let caps = SourceCaps { channels: 2, rate: 44100 };
    assert_eq!(
        asked,
        vec![
            EngineAction::Init,
            EngineAction::CreatePipeline,
            EngineAction::MakeElement(Stage::Source),
            EngineAction::MakeElement(Stage::Convert),
            EngineAction::MakeElement(Stage::Resample),
            EngineAction::MakeElement(Stage::Sink),
            EngineAction::AddElements,
            EngineAction::LinkElements,
            EngineAction::SetSourceCaps(caps),
            EngineAction::Play,
        ]
    );
    assert_eq!(setup.phase(), Phase::Ready(caps));
    assert_eq!(setup.next_action(), None);
}

#[test]
fn finished_setup_hands_out_handle_and_descriptor() {
    let mut setup: PipelineSetup<u32> = PipelineSetup::start(0, &stream_with(1, 7));
    run_willing(&mut setup, 10);
    let handle = setup.finish().ok().unwrap();
    assert_eq!(handle.pipeline, 77);
    assert_eq!(handle.caps, SourceCaps { channels: 1, rate: 48000 });
}

#[test]
fn descriptor_takes_channels_verbatim_and_rate_from_table() {
    for (channels, rate, hz) in [(1u8, 0u8, 5512), (2, 13, 384000), (255, 9, 88200), (0, 3, 16000)] {
        let mut setup: PipelineSetup<u32> = PipelineSetup::start(0, &stream_with(channels, rate));
        run_willing(&mut setup, 8);
        assert_eq!(
            setup.next_action(),
            Some(EngineAction::SetSourceCaps(SourceCaps { channels, rate: hz }))
        );
    }
}

#[test]
fn pending_state_change_counts_as_success() {
    for change in [StateChange::Success, StateChange::Async, StateChange::NoPreroll] {
        let mut setup: PipelineSetup<u32> = PipelineSetup::start(0, &stream_with(2, 6));
        run_willing(&mut setup, 9);
        assert_eq!(setup.next_action(), Some(EngineAction::Play));
        setup.advance(EngineReply::StateChange(change));
        assert_eq!(setup.phase(), Phase::Ready(SourceCaps { channels: 2, rate: 44100 }));
    }
}

#[test]
fn rejected_state_change_fails_the_setup() {
    let mut setup: PipelineSetup<u32> = PipelineSetup::start(0, &stream_with(2, 6));
    run_willing(&mut setup, 9);
    setup.advance(EngineReply::StateChange(StateChange::Failure));
    assert_eq!(setup.phase(), Phase::Failed(Error::StateChange));
    assert_eq!(setup.finish().err(), Some(Error::StateChange));
}

#[test]
fn failed_engine_initialization_fails_the_setup() {
    let mut setup: PipelineSetup<u32> = PipelineSetup::start(0, &stream_with(2, 6));
    setup.advance(EngineReply::Failed);
    assert_eq!(setup.phase(), Phase::Failed(Error::EngineInit));
    assert_eq!(setup.next_action(), None);
    assert_eq!(setup.finish().err(), Some(Error::EngineInit));
}

#[test]
fn failed_creation_fails_the_setup() {
    for done in 1..6 {
        let mut setup: PipelineSetup<u32> = PipelineSetup::start(0, &stream_with(2, 6));
        run_willing(&mut setup, done);
        setup.advance(EngineReply::Failed);
        assert_eq!(setup.phase(), Phase::Failed(Error::ElementCreation));
    }
}

#[test]
fn failed_add_or_link_fails_the_setup() {
    for done in 6..8 {
        let mut setup: PipelineSetup<u32> = PipelineSetup::start(0, &stream_with(2, 6));
        run_willing(&mut setup, done);
        setup.advance(EngineReply::Failed);
        assert_eq!(setup.phase(), Phase::Failed(Error::Link));
    }
}

#[test]
fn refused_descriptor_fails_the_setup() {
    let mut setup: PipelineSetup<u32> = PipelineSetup::start(0, &stream_with(2, 6));
    run_willing(&mut setup, 8);
    setup.advance(EngineReply::Failed);
    assert_eq!(setup.phase(), Phase::Failed(Error::Caps));
}

#[test]
fn unknown_rate_code_fails_the_setup_once_the_elements_are_linked() {
    let mut setup: PipelineSetup<u32> = PipelineSetup::start(0, &stream_with(2, 14));
    let asked = run_willing(&mut setup, 8);
    assert_eq!(asked.last(), Some(&EngineAction::LinkElements));
    assert_eq!(setup.phase(), Phase::Failed(Error::UnsupportedRate(14)));
    assert_eq!(setup.next_action(), None);
    assert_eq!(setup.finish().err(), Some(Error::UnsupportedRate(14)));
}

#[test]
fn reply_of_another_kind_tells_no_success() {
    let mut setup: PipelineSetup<u32> = PipelineSetup::start(0, &stream_with(2, 6));
    setup.advance(EngineReply::StateChange(StateChange::Success));
    assert_eq!(setup.phase(), Phase::Failed(Error::EngineInit));

    let mut setup: PipelineSetup<u32> = PipelineSetup::start(0, &stream_with(2, 6));
    run_willing(&mut setup, 1);
    setup.advance(EngineReply::Done);
    assert_eq!(setup.phase(), Phase::Failed(Error::ElementCreation));

    let mut setup: PipelineSetup<u32> = PipelineSetup::start(0, &stream_with(2, 6));
    run_willing(&mut setup, 9);
    setup.advance(EngineReply::Done);
    assert_eq!(setup.phase(), Phase::Failed(Error::StateChange));
}

#[test]
fn replies_are_judged_by_the_request_they_answer() {
    assert!(EngineReply::<u32>::Done.accepts(EngineAction::Init));
    assert!(!EngineReply::<u32>::Failed.accepts(EngineAction::Init));
    assert!(EngineReply::Pipeline(1u32).accepts(EngineAction::CreatePipeline));
    assert!(!EngineReply::Pipeline(1u32).accepts(EngineAction::AddElements));
    assert!(EngineReply::<u32>::StateChange(StateChange::Async).accepts(EngineAction::Play));
    assert!(!EngineReply::<u32>::StateChange(StateChange::Failure).accepts(EngineAction::Play));
    assert!(!EngineReply::<u32>::Done.accepts(EngineAction::Play));
}

#[test]
fn ended_setup_ignores_further_replies() {
    let mut setup: PipelineSetup<u32> = PipelineSetup::start(0, &stream_with(2, 6));
    run_willing(&mut setup, 10);
    setup.advance(EngineReply::Failed);
    assert_eq!(setup.phase(), Phase::Ready(SourceCaps { channels: 2, rate: 44100 }));

    let mut failed: PipelineSetup<u32> = PipelineSetup::start(0, &stream_with(2, 6));
    failed.advance(EngineReply::Failed);
    failed.advance(EngineReply::Done);
    assert_eq!(failed.phase(), Phase::Failed(Error::EngineInit));
}

#[test]
fn setup_given_up_midway_counts_as_failed_at_the_open_request() {
    let mut setup: PipelineSetup<u32> = PipelineSetup::start(0, &stream_with(2, 6));
    run_willing(&mut setup, 7);
    assert_eq!(setup.finish().err(), Some(Error::Link));
}

#[test]
fn phases_name_their_request_error_and_successor() {
    let caps = SourceCaps { channels: 2, rate: 8000 };
    assert_eq!(Phase::AddElements.request(), Some(EngineAction::AddElements));
    assert_eq!(Phase::Ready(caps).request(), None);
    assert_eq!(Phase::SetSourceCaps(caps).on_failure(), Error::Caps);
    assert_eq!(Phase::Failed(Error::Link).on_failure(), Error::Link);
    assert_eq!(Phase::MakeElement(Stage::Sink).on_success(2, 1), Phase::AddElements);
    assert_eq!(Phase::LinkElements.on_success(2, 1), Phase::SetSourceCaps(caps));
    assert_eq!(
        Phase::LinkElements.on_success(2, 200),
        Phase::Failed(Error::UnsupportedRate(200))
    );
}
