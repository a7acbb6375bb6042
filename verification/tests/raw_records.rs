use padpointer::config::{Action, Key, PointerButton};
use padpointer::raw::{
    apply, classify, decode_record, hat_action, pixels_of, steps_of, trigger_action, update_of,
    RawInput, RawRecord, RawState, RawUpdate, RECORD_LEN,
};

fn record_bytes(code: u16, state: u8, high: u8, low: u8) -> Vec<u8> {
    let mut bytes: Vec<u8> = vec![0xEE; RECORD_LEN];
    bytes[18] = (code % 256) as u8;
    bytes[19] = (code / 256) as u8;
    bytes[20] = state;
    bytes[21] = high;
    bytes[22] = low;
    bytes
}

#[test]
fn known_codes_are_a_closed_set() {
    assert_eq!(classify(0), RawInput::AbsX);
    assert_eq!(classify(1), RawInput::AbsY);
    assert_eq!(classify(2), RawInput::AbsZ);
    assert_eq!(classify(3), RawInput::AbsRx);
    assert_eq!(classify(4), RawInput::AbsRy);
    assert_eq!(classify(5), RawInput::AbsRz);
    assert_eq!(classify(16), RawInput::HatX);
    assert_eq!(classify(17), RawInput::HatY);
    assert_eq!(classify(310), RawInput::ShoulderLeft);
    assert_eq!(classify(311), RawInput::ShoulderRight);
    assert_eq!(classify(314), RawInput::Select);
}

#[test]
fn other_codes_are_unrecognized() {
    assert_eq!(classify(6), RawInput::Unrecognized(6));
    assert_eq!(classify(312), RawInput::Unrecognized(312));
    assert_eq!(classify(u16::MAX), RawInput::Unrecognized(u16::MAX));
}

#[test]
fn short_buffer_holds_no_record() {
    assert_eq!(decode_record(&[]), None);
    assert_eq!(decode_record(&[0u8; 23]), None);
    assert!(decode_record(&[0u8; 24]).is_some());
}

#[test]
fn record_value_is_read_high_byte_first() {
    let bytes = record_bytes(4, 9, 0xFF, 0x7F);
    assert_eq!(decode_record(&bytes), Some(RawRecord { code: 4, value: -129, state: 9 }));
    let bytes = record_bytes(3, 0, 0x00, 0x80);
    assert_eq!(decode_record(&bytes), Some(RawRecord { code: 3, value: 128, state: 0 }));
    let bytes = record_bytes(0, 0, 0x80, 0x00);
    assert_eq!(decode_record(&bytes).unwrap().value, i16::MIN);
    let bytes = record_bytes(0, 0, 0x7F, 0xFF);
    assert_eq!(decode_record(&bytes).unwrap().value, i16::MAX);
    let bytes = record_bytes(0, 0, 0x01, 0x02);
    assert_eq!(decode_record(&bytes).unwrap().value, 258);
}

#[test]
fn record_code_is_read_low_byte_first() {
    let bytes = record_bytes(314, 1, 0, 0);
    assert_eq!(bytes[18], 58);
    assert_eq!(bytes[19], 1);
    let record = decode_record(&bytes).unwrap();
    assert_eq!(record.code, 314);
    assert_eq!(classify(record.code), RawInput::Select);
    let bytes = record_bytes(0xFFFF, 0, 0, 0);
    assert_eq!(decode_record(&bytes).unwrap().code, 0xFFFF);
}

#[test]
fn longer_buffer_decodes_its_first_record() {
    let mut bytes = record_bytes(17, 255, 0x12, 0x34);
    bytes.extend_from_slice(&[1, 2, 3, 4, 5]);
    assert_eq!(decode_record(&bytes), Some(RawRecord { code: 17, value: 0x1234, state: 255 }));
}

#[test]
fn hat_switch_clicks_arrow_keys() {
    let hat = |code: u16, state: u8| hat_action(&RawRecord { code, value: 0, state });
    assert_eq!(hat(16, 1), Some(Action::Click(Key::RightArrow)));
    assert_eq!(hat(16, 255), Some(Action::Click(Key::LeftArrow)));
    assert_eq!(hat(17, 1), Some(Action::Click(Key::DownArrow)));
    assert_eq!(hat(17, 255), Some(Action::Click(Key::UpArrow)));
    assert_eq!(hat(16, 0), None);
    assert_eq!(hat(17, 2), None);
    assert_eq!(hat(0, 1), None);
    assert_eq!(hat(314, 255), None);
}

#[test]
fn trigger_level_presses_above_128_and_releases_below() {
    let right = PointerButton::Right;
    assert_eq!(trigger_action(255, right), Some(Action::ButtonPress(right)));
    assert_eq!(trigger_action(129, right), Some(Action::ButtonPress(right)));
    assert_eq!(trigger_action(128, right), Some(Action::ButtonRelease(right)));
    assert_eq!(trigger_action(1, right), Some(Action::ButtonRelease(right)));
    assert_eq!(trigger_action(0, right), None);
    assert_eq!(trigger_action(-1, PointerButton::Left), None);
}

#[test]
fn stick_value_gives_up_to_twenty_pixels() {
    assert_eq!(pixels_of(0), 0);
    assert_eq!(pixels_of(1_638), 0);
    assert_eq!(pixels_of(1_639), 1);
    assert_eq!(pixels_of(-1_638), 0);
    assert_eq!(pixels_of(-1_639), -1);
    assert_eq!(pixels_of(16_384), 10);
    assert_eq!(pixels_of(i16::MAX), 19);
    assert_eq!(pixels_of(i16::MIN), -20);
}

#[test]
fn stick_value_gives_at_most_one_scroll_step() {
    assert_eq!(steps_of(0), 0);
    assert_eq!(steps_of(21_845), 0);
    assert_eq!(steps_of(21_846), 1);
    assert_eq!(steps_of(-21_845), 0);
    assert_eq!(steps_of(-21_846), -1);
    assert_eq!(steps_of(i16::MAX), 1);
    assert_eq!(steps_of(i16::MIN), -1);
}

#[test]
fn new_state_runs_with_everything_at_zero() {
    let state = RawState::new();
    assert_eq!(
        state,
        RawState { running: true, x: 0, y: 0, rx: 0, ry: 0, z: 0, rz: 0, tr: false, tl: false }
    );
    assert_eq!(
        update_of(&state),
        RawUpdate { move_x: 0, move_y: 0, right: None, left: None, scroll: 0 }
    );
}

#[test]
fn each_record_changes_its_own_field() {
    let mut state = RawState::new();
    let record = |code: u16, value: i16, state: u8| RawRecord { code, value, state };
    assert_eq!(apply(&mut state, &record(0, 11, 9)), None);
    assert_eq!(apply(&mut state, &record(1, -22, 9)), None);
    assert_eq!(apply(&mut state, &record(3, 33, 9)), None);
    assert_eq!(apply(&mut state, &record(4, -44, 9)), None);
    assert_eq!(apply(&mut state, &record(2, 55, 200)), None);
    assert_eq!(apply(&mut state, &record(5, 66, 129)), None);
    assert_eq!(apply(&mut state, &record(310, 0, 1)), None);
    assert_eq!(apply(&mut state, &record(311, 0, 2)), None);
    assert_eq!(
        state,
        RawState {
            running: true,
            x: 11,
            y: -22,
            rx: 33,
            ry: -44,
            z: 200,
            rz: 129,
            tr: false,
            tl: true,
        }
    );
    assert_eq!(apply(&mut state, &record(311, 0, 1)), None);
    assert_eq!(apply(&mut state, &record(310, 0, 0)), None);
    assert!(state.tr);
    assert!(!state.tl);
}

#[test]
fn hat_and_unknown_records_leave_the_state_and_select_ends_the_run() {
    let mut state = RawState::new();
    let before = state;
    assert_eq!(
        apply(&mut state, &RawRecord { code: 16, value: 7, state: 255 }),
        Some(Action::Click(Key::LeftArrow))
    );
    assert_eq!(
        apply(&mut state, &RawRecord { code: 17, value: 7, state: 1 }),
        Some(Action::Click(Key::DownArrow))
    );
    assert_eq!(apply(&mut state, &RawRecord { code: 17, value: 7, state: 0 }), None);
    assert_eq!(apply(&mut state, &RawRecord { code: 999, value: 7, state: 1 }), None);
    assert_eq!(state, before);
    assert_eq!(apply(&mut state, &RawRecord { code: 314, value: 0, state: 0 }), None);
    assert!(!state.running);
    assert_eq!(state, RawState { running: false, ..before });
}

#[test]
fn update_names_moves_triggers_and_scroll() {
    let state = RawState {
        running: true,
        x: 30_000,
        y: -30_000,
        rx: 16_384,
        ry: -8_192,
        z: 100,
        rz: 200,
        tr: true,
        tl: true,
    };
    assert_eq!(
        update_of(&state),
        RawUpdate {
            move_x: 10,
            move_y: -5,
            right: Some(Action::ButtonPress(PointerButton::Right)),
            left: Some(Action::ButtonRelease(PointerButton::Left)),
            scroll: -1,
        }
    );
}
