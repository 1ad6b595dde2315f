//! End-to-end scenarios: events through the default configuration.

use gamepad2midi::ANALOG_ONE;
use gamepad2midi::config::Config;
use gamepad2midi::controls::Axis;
use gamepad2midi::controls::Button;
use gamepad2midi::controls::InputEvent;
use gamepad2midi::midi::Channel;
use gamepad2midi::midi::ControlNumber;
use gamepad2midi::midi::DataByte;
use gamepad2midi::midi::MidiMessage;
use gamepad2midi::translate::FIXED_VELOCITY;
use gamepad2midi::translate::step;
use gamepad2midi::translate::translate;
use gamepad2midi::translate::translate_events;

fn scaled(pos: f32) -> i32 {
    (pos * ANALOG_ONE as f32).floor() as i32
}

#[test]
fn default_config_shape() {
    let cfg = Config::default();
    assert_eq!(cfg.output_port_name, "xbox");
    assert_eq!(cfg.output_midi_channel, Channel(14));
    assert_eq!(cfg.keys.len(), 13);
    assert_eq!(cfg.analog_button_ccs.len(), 2);
    assert_eq!(cfg.axis_ccs.len(), 4);
    assert_eq!(cfg.note_for(Button::North).unwrap().0, 24);
    assert_eq!(cfg.note_for(Button::DPadRight).unwrap().0, 62);
    assert_eq!(cfg.analog_cc_for(Button::LeftTrigger2), Some(ControlNumber(1)));
    assert_eq!(cfg.axis_cc_for(Axis::RightStickY), Some(ControlNumber(6)));
}

#[test]
fn mapped_button_press_and_release() {
    let cfg = Config::default();
    for (btn, note) in cfg.keys.clone() {
        let on = translate(&cfg, InputEvent::ButtonPressed(btn));
        assert_eq!(
            on,
            Some(MidiMessage::NoteOn(Channel(14), note, DataByte(FIXED_VELOCITY)))
        );
        let off = translate(&cfg, InputEvent::ButtonReleased(btn));
        assert_eq!(
            off,
            Some(MidiMessage::NoteOff(Channel(14), note, DataByte(FIXED_VELOCITY)))
        );
    }
}

#[test]
fn south_press_then_release() {
    let cfg = Config::default();
    let on = translate(&cfg, InputEvent::ButtonPressed(Button::South)).unwrap();
    let off = translate(&cfg, InputEvent::ButtonReleased(Button::South)).unwrap();
    match (on, off) {
        (MidiMessage::NoteOn(ch_on, n_on, v_on), MidiMessage::NoteOff(ch_off, n_off, v_off)) => {
            assert_eq!(ch_on, Channel(14));
            assert_eq!(ch_off, Channel(14));
            assert_eq!(n_on, n_off);
            assert_eq!(v_on, DataByte(80));
            assert_eq!(v_off, DataByte(80));
        }
        _ => panic!("expected a note-on followed by a note-off"),
    }
}

#[test]
fn left_stick_x_full_deflection() {
    let cfg = Config::default();
    let r = translate(&cfg, InputEvent::AxisChanged(Axis::LeftStickX, scaled(1.0)));
    assert_eq!(
        r,
        Some(MidiMessage::ControlChange(Channel(14), ControlNumber(3), DataByte(127)))
    );
}

#[test]
fn left_trigger2_half_pressure() {
    let cfg = Config::default();
    let r = translate(&cfg, InputEvent::ButtonChanged(Button::LeftTrigger2, scaled(0.5)));
    assert_eq!(
        r,
        Some(MidiMessage::ControlChange(Channel(14), ControlNumber(1), DataByte(64)))
    );
}

#[test]
fn unmapped_controls_are_silent() {
    let cfg = Config::default();
    // Buttons absent from every table.
    for btn in [Button::C, Button::Z, Button::LeftThumb, Button::RightThumb, Button::Unknown] {
        assert_eq!(translate(&cfg, InputEvent::ButtonPressed(btn)), None);
        assert_eq!(translate(&cfg, InputEvent::ButtonReleased(btn)), None);
        assert_eq!(translate(&cfg, InputEvent::ButtonChanged(btn, scaled(0.7))), None);
    }
    // Axes absent from the axis table.
    for ax in [Axis::LeftZ, Axis::RightZ, Axis::DPadX, Axis::DPadY, Axis::Unknown] {
        assert_eq!(translate(&cfg, InputEvent::AxisChanged(ax, scaled(1.0))), None);
    }
    // Digital presses of an analog-only button, and events without musical
    // meaning.
    assert_eq!(translate(&cfg, InputEvent::ButtonPressed(Button::LeftTrigger2)), None);
    assert_eq!(translate(&cfg, InputEvent::Other), None);
}

#[test]
fn unmapped_event_emits_no_buffer() {
    let cfg = Config::default();
    assert_eq!(step(&cfg, InputEvent::ButtonPressed(Button::Z)), None);
    let evs = vec![InputEvent::ButtonChanged(Button::C, scaled(0.9)), InputEvent::Other];
    let out = translate_events(&cfg, &evs);
    assert!(out.is_empty());
}

#[test]
fn emitted_buffers_preserve_order() {
    let cfg = Config::default();
    let evs = vec![
        InputEvent::ButtonPressed(Button::South),
        InputEvent::AxisChanged(Axis::LeftStickX, scaled(1.0)),
        InputEvent::ButtonChanged(Button::LeftTrigger2, scaled(0.5)),
        InputEvent::ButtonReleased(Button::South),
    ];
    let out = translate_events(&cfg, &evs);
    assert_eq!(out.len(), 4);
    assert_eq!(out[0], vec![0x9e, 28, 80]);
    assert_eq!(out[1], vec![0xbe, 3, 127]);
    assert_eq!(out[2], vec![0xbe, 1, 64]);
    assert_eq!(out[3], vec![0x8e, 28, 80]);
}

#[test]
fn silent_events_do_not_disturb_order() {
    let cfg = Config::default();
    let evs = vec![
        InputEvent::ButtonPressed(Button::North),
        InputEvent::Other,
        InputEvent::ButtonPressed(Button::Z),
        InputEvent::ButtonPressed(Button::East),
    ];
    let out = translate_events(&cfg, &evs);
    assert_eq!(out.len(), 2);
    assert_eq!(out[0], vec![0x9e, 24, 80]);
    assert_eq!(out[1], vec![0x9e, 26, 80]);
}
