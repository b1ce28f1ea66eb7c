use buttons_to_mmc::event::{DecodeError, DecodedEvent};
use buttons_to_mmc::mmc::MmcCommand;
use buttons_to_mmc::transport::{
    handler, split_micros, Handled, TransportState, CC_ON_VALUE, CC_PLAY, CC_RECORD, CC_STOP,
};

fn state(playing: bool) -> TransportState {
    TransportState { last_event_time_us: 0, playing }
}

#[test]
fn starts_stopped_at_time_zero() {
    let fresh = TransportState::new();
    assert!(!fresh.playing);
    assert_eq!(fresh.last_event_time_us, 0);
}

#[test]
fn button_numbers() {
    assert_eq!(CC_RECORD, 50);
    assert_eq!(CC_STOP, 51);
    assert_eq!(CC_PLAY, 54);
    assert_eq!(CC_ON_VALUE, 127);
}

#[test]
fn stop_while_stopped_sends_goto_zero() {
    for channel in 0..16u8 {
        let mut data = state(false);
        let handled = handler(10, &[0xb0 | channel, 51, 127], &mut data);
        assert_eq!(handled.command, Some(MmcCommand::GotoZero));
        assert_eq!(
            handled.command.unwrap().bytes(),
            &[0xf0, 0x7f, 0x00, 0x06, 0x44, 0x06, 0x01, 0x00, 0x00, 0x00, 0x00, 0x00, 0xf7][..]
        );
        assert!(!data.playing);
    }
}

#[test]
fn stop_while_playing_sends_stop() {
    for channel in 0..16u8 {
        let mut data = state(true);
        let handled = handler(10, &[0xb0 | channel, 51, 127], &mut data);
        assert_eq!(handled.command, Some(MmcCommand::Stop));
        assert_eq!(handled.command.unwrap().bytes(), &[0xf0, 0x7f, 0x00, 0x06, 0x01, 0xf7][..]);
        assert!(!data.playing);
    }
}

#[test]
fn play_toggles_between_play_and_pause() {
    let mut data = TransportState::new();
    let first = handler(1, &[0xb0, 54, 127], &mut data);
    assert_eq!(first.command, Some(MmcCommand::Play));
    assert!(data.playing);
    let second = handler(2, &[0xb0, 54, 127], &mut data);
    assert_eq!(second.command, Some(MmcCommand::Pause));
    assert!(!data.playing);
}

#[test]
fn record_on_sends_record_pause() {
    for playing in [false, true] {
        let mut data = state(playing);
        let handled = handler(1, &[0xb0, 50, 127], &mut data);
        assert_eq!(handled.command, Some(MmcCommand::RecordPause));
        assert_eq!(data.playing, playing);
    }
}

#[test]
fn record_off_sends_record_exit() {
    for playing in [false, true] {
        for value in [0u8, 1, 64, 126] {
            let mut data = state(playing);
            let handled = handler(1, &[0xb0, 50, value], &mut data);
            assert_eq!(handled.command, Some(MmcCommand::RecordExit));
            assert_eq!(data.playing, playing);
        }
    }
}

#[test]
fn other_controllers_do_nothing() {
    for playing in [false, true] {
        for controller in 0..128u8 {
            if controller == 50 || controller == 51 || controller == 54 {
                continue;
            }
            for value in [0u8, 64, 127] {
                let mut data = state(playing);
                let handled = handler(1, &[0xb0, controller, value], &mut data);
                assert_eq!(handled.command, None);
                assert_eq!(data.playing, playing);
            }
        }
    }
}

#[test]
fn stop_and_play_release_do_nothing() {
    for playing in [false, true] {
        for controller in [51u8, 54] {
            for value in 0..127u8 {
                let mut data = state(playing);
                let handled = handler(1, &[0xb0, controller, value], &mut data);
                assert_eq!(handled.command, None);
                assert_eq!(data.playing, playing);
            }
        }
    }
}

#[test]
fn other_message_kinds_do_nothing() {
    let messages: [&[u8]; 8] = [
        &[0x80, 51, 127],
        &[0x90, 51, 127],
        &[0xa0, 54, 127],
        &[0xc0, 51],
        &[0xd0, 54],
        &[0xe0, 50, 127],
        &[0xf0, 0x7f, 0x00, 0x06, 0x02, 0xf7],
        &[0x33, 51, 127],
    ];
    for playing in [false, true] {
        for message in messages {
            let mut data = state(playing);
            let handled = handler(1, message, &mut data);
            assert!(handled.event.is_ok());
            assert_eq!(handled.command, None);
            assert_eq!(data.playing, playing);
        }
    }
}

#[test]
fn malformed_message_is_skipped() {
    let bad: [&[u8]; 4] = [&[], &[0xb0], &[0xb0, 51], &[0xb0, 51, 0xff]];
    for playing in [false, true] {
        for message in bad {
            let mut data = state(playing);
            let handled = handler(42, message, &mut data);
            assert_eq!(handled.event, Err(DecodeError::MalformedMessage));
            assert_eq!(handled.command, None);
            assert_eq!(data.playing, playing);
            assert_eq!(data.last_event_time_us, 42);
        }
    }
}

#[test]
fn valid_message_after_malformed_is_processed() {
    let mut data = TransportState::new();
    assert_eq!(handler(1, &[], &mut data).command, None);
    assert_eq!(handler(2, &[0xb0, 54], &mut data).command, None);
    assert_eq!(handler(3, &[0xb0, 54, 127], &mut data).command, Some(MmcCommand::Play));
    assert!(data.playing);
    assert_eq!(handler(4, &[0xb0], &mut data).command, None);
    assert!(data.playing);
    assert_eq!(handler(5, &[0xb0, 51, 127], &mut data).command, Some(MmcCommand::Stop));
    assert!(!data.playing);
}

#[test]
fn press_sequence_stop_play_play_stop() {
    let mut data = TransportState::new();
    let presses: [&[u8]; 4] =
        [&[0xb0, 51, 127], &[0xb0, 54, 127], &[0xb0, 54, 127], &[0xb0, 51, 127]];
    let mut sent = Vec::new();
    let mut time = 0;
    for press in presses {
        time += 100;
        sent.push(handler(time, press, &mut data).command);
    }
    assert_eq!(
        sent,
        vec![
            Some(MmcCommand::GotoZero),
            Some(MmcCommand::Play),
            Some(MmcCommand::Pause),
            Some(MmcCommand::GotoZero),
        ]
    );
    assert!(!data.playing);
}

#[test]
fn delta_between_two_messages() {
    let mut data = TransportState::new();
    handler(5_000_000, &[0xb0, 51, 127], &mut data);
    let second = handler(7_500_000, &[0x90, 60, 100], &mut data);
    assert_eq!(second.delta_us, 2_500_000);
    assert_eq!(data.last_event_time_us, 7_500_000);
}

#[test]
fn delta_does_not_depend_on_content() {
    let contents: [&[u8]; 5] =
        [&[], &[0xb0], &[0xb0, 54, 127], &[0xf0, 1, 2, 3, 0xf7], &[0xc0, 5]];
    for first in contents {
        for second in contents {
            let mut data = TransportState::new();
            handler(5_000_000, first, &mut data);
            assert_eq!(handler(7_500_000, second, &mut data).delta_us, 2_500_000);
        }
    }
}

#[test]
fn delta_saturates_when_clock_goes_back() {
    let mut data = TransportState::new();
    handler(9_000, &[0xb0, 51, 127], &mut data);
    let second = handler(1_000, &[0xb0, 51, 127], &mut data);
    assert_eq!(second.delta_us, 0);
    assert_eq!(data.last_event_time_us, 1_000);
}

#[test]
fn first_delta_counts_from_zero() {
    let mut data = TransportState::new();
    assert_eq!(handler(123, &[0xb0, 1, 2], &mut data).delta_us, 123);
    assert_eq!(handler(u64::MAX, &[0xb0, 1, 2], &mut data).delta_us, u64::MAX - 123);
    assert_eq!(handler(0, &[0xb0, 1, 2], &mut data).delta_us, 0);
}

#[test]
fn handled_reports_the_decoded_event() {
    let mut data = TransportState::new();
    let handled = handler(7, &[0xb3, 54, 127], &mut data);
    assert_eq!(
        handled,
        Handled {
            delta_us: 7,
            event: Ok(DecodedEvent::ControlChange { channel: 3, controller: 54, value: 127 }),
            command: Some(MmcCommand::Play),
        }
    );
}

#[test]
fn stamp_returns_delta_and_keeps_flag() {
    let mut data = TransportState { last_event_time_us: 40, playing: true };
    assert_eq!(data.stamp(100), 60);
    assert_eq!(data, TransportState { last_event_time_us: 100, playing: true });
    assert_eq!(data.stamp(30), 0);
    assert_eq!(data, TransportState { last_event_time_us: 30, playing: true });
}

#[test]
fn translate_applies_policy_to_decoded_event() {
    let mut data = TransportState { last_event_time_us: 9, playing: false };
    let play = DecodedEvent::ControlChange { channel: 0, controller: 54, value: 127 };
    let stop = DecodedEvent::ControlChange { channel: 0, controller: 51, value: 127 };
    let note = DecodedEvent::NoteOn { channel: 0, note: 54, velocity: 127 };
    assert_eq!(data.translate(&note), None);
    assert_eq!(data.translate(&play), Some(MmcCommand::Play));
    assert_eq!(data.translate(&stop), Some(MmcCommand::Stop));
    assert_eq!(data.translate(&stop), Some(MmcCommand::GotoZero));
    assert_eq!(data, TransportState { last_event_time_us: 9, playing: false });
}

#[test]
fn split_micros_exact_values() {
    assert_eq!(split_micros(0), (0, 0));
    assert_eq!(split_micros(999_999), (0, 999_999));
    assert_eq!(split_micros(1_000_000), (1, 0));
    assert_eq!(split_micros(7_500_000), (7, 500_000));
    assert_eq!(split_micros(u64::MAX), (18_446_744_073_709, 551_615));
}
