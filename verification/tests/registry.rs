use vhost_device_sound::stream::{
    store_params, store_state, Direction, PCMState, PcmParams, Stream, StreamRegistry,
};

fn params(channels: u8, rate: u8) -> PcmParams {
    PcmParams { buffer_bytes: 8192, period_bytes: 4096, features: 0, channels, format: 5, rate }
}

fn descriptor(direction: Direction, channels: u8, rate: u8) -> Stream {
    Stream { direction, params: params(channels, rate), state: PCMState::SetParameters }
}

#[test]
fn registry_reads_back_what_it_was_made_with() {
    let registry = StreamRegistry::new(vec![
        descriptor(Direction::Output, 1, 6),
        descriptor(Direction::Input, 2, 7),
    ]);
    assert_eq!(registry.len(), 2);
    assert_eq!(registry.read(0), Some(descriptor(Direction::Output, 1, 6)));
    assert_eq!(registry.read(1), Some(descriptor(Direction::Input, 2, 7)));
}

#[test]
fn registry_has_no_descriptor_beyond_its_slots() {
    let registry = StreamRegistry::new(vec![descriptor(Direction::Output, 1, 6)]);
    assert_eq!(registry.read(1), None);
    assert_eq!(registry.read(usize::MAX), None);
    let empty = StreamRegistry::new(Vec::new());
    assert_eq!(empty.len(), 0);
    assert_eq!(empty.read(0), None);
}

#[test]
fn write_of_parameters_changes_one_slot_only() {
    let registry = StreamRegistry::new(vec![
        descriptor(Direction::Output, 1, 6),
        descriptor(Direction::Input, 2, 7),
        descriptor(Direction::Output, 4, 3),
    ]);
    assert!(registry.set_params(1, params(6, 12)));
    assert_eq!(registry.len(), 3);
    assert_eq!(registry.read(0), Some(descriptor(Direction::Output, 1, 6)));
    assert_eq!(registry.read(1), Some(descriptor(Direction::Input, 6, 12)));
    assert_eq!(registry.read(2), Some(descriptor(Direction::Output, 4, 3)));
}

#[test]
fn write_of_state_keeps_direction_and_parameters() {
    let registry = StreamRegistry::new(vec![
        descriptor(Direction::Output, 1, 6),
        descriptor(Direction::Input, 2, 7),
    ]);
    assert!(registry.set_state(1, PCMState::Start));
    let expected = Stream {
        direction: Direction::Input,
        params: params(2, 7),
        state: PCMState::Start,
    };
    assert_eq!(registry.read(1), Some(expected));
    assert_eq!(registry.read(0), Some(descriptor(Direction::Output, 1, 6)));
}

#[test]
fn write_beyond_the_slots_writes_nothing() {
    let registry = StreamRegistry::new(vec![descriptor(Direction::Output, 1, 6)]);
    assert!(!registry.set_params(1, params(2, 7)));
    assert!(!registry.set_state(7, PCMState::Stop));
    assert_eq!(registry.len(), 1);
    assert_eq!(registry.read(0), Some(descriptor(Direction::Output, 1, 6)));
}

#[test]
fn repeated_reads_and_writes_do_not_block() {
    let registry = StreamRegistry::new(vec![descriptor(Direction::Output, 1, 6)]);
    for round in 0..100u8 {
        assert!(registry.set_params(0, params(round, round % 14)));
        assert_eq!(registry.read(0), Some(descriptor(Direction::Output, round, round % 14)));
    }
}

#[test]
fn store_params_replaces_the_parameters_of_a_slot() {
    let mut streams = vec![
        descriptor(Direction::Output, 1, 6),
        descriptor(Direction::Input, 2, 7),
    ];
    store_params(&mut streams, 0, params(8, 13));
    assert_eq!(
        streams,
        vec![descriptor(Direction::Output, 8, 13), descriptor(Direction::Input, 2, 7)]
    );
}

#[test]
fn store_state_replaces_the_state_of_a_slot() {
    let mut streams = vec![
        descriptor(Direction::Output, 1, 6),
        descriptor(Direction::Input, 2, 7),
    ];
    store_state(&mut streams, 1, PCMState::Release);
    assert_eq!(streams[0], descriptor(Direction::Output, 1, 6));
    assert_eq!(streams[1].state, PCMState::Release);
    assert_eq!(streams[1].direction, Direction::Input);
    assert_eq!(streams[1].params, params(2, 7));
}
