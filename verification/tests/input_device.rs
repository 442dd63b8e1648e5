use aicc_core::input_device::{
    apply_gamepad_events, apply_key_event, axis_fraction_micro, parse_input_event,
    trigger_fraction_micro, AxisEvent, Inputs, KeyEvent,
};

fn idle_inputs() -> Inputs {
    Inputs { steering: 0, throttle: 0, running: true }
}

#[test]
fn input_records_parse_little_endian_fields() {
    let mut buffer = [0u8; 24];
    buffer[16] = 1; // event type 1: a key event
    buffer[18] = 105; // key code
    buffer[20] = 1; // value: key down
    let ev = parse_input_event(&buffer);
    assert_eq!(KeyEvent { event_type: 1, code: 105, value: 1 }, ev);

    let mut buffer = [0u8; 24];
    buffer[16] = 3;
    buffer[18] = 0x2a;
    buffer[19] = 0x01; // code 0x012a
    buffer[20] = 0xff;
    buffer[21] = 0xff;
    buffer[22] = 0xff;
    buffer[23] = 0xff; // value -1
    let ev = parse_input_event(&buffer);
    assert_eq!(KeyEvent { event_type: 3, code: 0x012a, value: -1 }, ev);
}

#[test]
fn arrow_keys_steer_while_held() {
    let mut inputs = idle_inputs();
    let mut ctrl = false;

    apply_key_event(&mut inputs, &mut ctrl, KeyEvent { event_type: 1, code: 105, value: 1 });
    assert_eq!(-1_000_000, inputs.steering);

    apply_key_event(&mut inputs, &mut ctrl, KeyEvent { event_type: 1, code: 105, value: 0 });
    assert_eq!(0, inputs.steering);

    apply_key_event(&mut inputs, &mut ctrl, KeyEvent { event_type: 1, code: 106, value: 1 });
    assert_eq!(1_000_000, inputs.steering);

    apply_key_event(&mut inputs, &mut ctrl, KeyEvent { event_type: 1, code: 103, value: 1 });
    assert_eq!(1_000_000, inputs.throttle);

    apply_key_event(&mut inputs, &mut ctrl, KeyEvent { event_type: 1, code: 108, value: 1 });
    assert_eq!(-1_000_000, inputs.throttle);
}

#[test]
fn key_repeat_and_other_event_types_change_nothing() {
    let mut inputs = idle_inputs();
    let mut ctrl = false;

    // Key-repeat (value 2) is ignored.
    apply_key_event(&mut inputs, &mut ctrl, KeyEvent { event_type: 1, code: 105, value: 2 });
    assert_eq!(idle_inputs(), inputs);

    // A non-key event is ignored even with a known code.
    apply_key_event(&mut inputs, &mut ctrl, KeyEvent { event_type: 2, code: 105, value: 1 });
    assert_eq!(idle_inputs(), inputs);
}

#[test]
fn ctrl_c_stops_the_remote() {
    let mut inputs = idle_inputs();
    let mut ctrl = false;

    // C alone does nothing.
    apply_key_event(&mut inputs, &mut ctrl, KeyEvent { event_type: 1, code: 46, value: 1 });
    assert!(inputs.running);

    apply_key_event(&mut inputs, &mut ctrl, KeyEvent { event_type: 1, code: 29, value: 1 });
    apply_key_event(&mut inputs, &mut ctrl, KeyEvent { event_type: 1, code: 46, value: 1 });
    assert!(!inputs.running);
}

#[test]
fn axis_readings_scale_to_micro_units() {
    assert_eq!(1_000_000, axis_fraction_micro(32767));
    assert_eq!(-1_000_000, axis_fraction_micro(-32767));
    // The lowest raw reading saturates at the command range.
    assert_eq!(-1_000_000, axis_fraction_micro(-32768));
    assert_eq!(0, axis_fraction_micro(0));
    assert_eq!(500_015, axis_fraction_micro(16384));

    assert_eq!(999_985, trigger_fraction_micro(32767));
    assert_eq!(0, trigger_fraction_micro(-32767));
    assert_eq!(0, trigger_fraction_micro(-32768));
}

#[test]
fn gamepad_axes_drive_the_commands() {
    let mut inputs = idle_inputs();
    let events = vec![
        AxisEvent { axis: 0, value: 32767 },
        AxisEvent { axis: 4, value: 32767 },
    ];
    apply_gamepad_events(&mut inputs, &events);
    assert_eq!(1_000_000, inputs.steering);
    assert_eq!(999_985, inputs.throttle);

    // The brake overrides the accelerator beyond the dead zone.
    let events = vec![
        AxisEvent { axis: 4, value: 32767 },
        AxisEvent { axis: 5, value: 32767 },
    ];
    apply_gamepad_events(&mut inputs, &events);
    assert_eq!(-999_985, inputs.throttle);

    // The steering keeps its last value when no axis-0 event arrives.
    assert_eq!(1_000_000, inputs.steering);
}

#[test]
fn an_empty_pass_resets_the_pedals_only() {
    let mut inputs = Inputs { steering: 250_000, throttle: 700_000, running: true };
    apply_gamepad_events(&mut inputs, &Vec::new());
    assert_eq!(250_000, inputs.steering);
    // Throttle and brake are re-derived each pass; with no reports
    // both read 0.
    assert_eq!(0, inputs.throttle);
    assert!(inputs.running);
}
