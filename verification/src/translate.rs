//! The event-translation engine: one abstract input event in, at most one
//! framed protocol message out.
//!
//! Dispatch goes by event kind: analog button changes and axis changes
//! become control-change messages through their mapping tables and the
//! value conversions; presses and releases of mapped digital buttons become
//! note-on and note-off with a fixed velocity; everything else, and every
//! event whose control has no table entry, produces no message. The
//! unverified shell drives [`step`] once per polled event and forwards each
//! produced buffer to the transport, so the emitted buffers keep the exact
//! order of their source events; [`translate_events`] is that loop over a
//! whole recorded event sequence.

use vstd::prelude::*;

use crate::config::Config;
use crate::config::assoc_lookup;
use crate::config::lemma_assoc_lookup_found;
use crate::controls::Axis;
use crate::controls::Button;
use crate::controls::InputEvent;
use crate::midi::DataByte;
use crate::midi::MidiMessage;
use crate::normalize::spec_centered_to_midi;
use crate::normalize::spec_unsigned_to_midi;
use crate::normalize::centered_to_midi;
use crate::normalize::unsigned_to_midi;

verus! {

/// The fixed velocity of every note-on and note-off the translator emits.
pub const FIXED_VELOCITY: u8 = 80;

/// The message an event translates to, if any: the mapping table of the
/// event's kind is consulted for its control, analog payloads go through
/// the matching value conversion, and the configured channel tags every
/// produced message.
pub open spec fn spec_translate(cfg: Config, ev: InputEvent) -> Option<MidiMessage> {
    match ev {
        InputEvent::ButtonChanged(b, raw) => match assoc_lookup(cfg.analog_button_ccs@, b) {
            Some(cc) => Some(
                MidiMessage::ControlChange(
                    cfg.output_midi_channel,
                    cc,
                    DataByte(spec_unsigned_to_midi(raw as int) as u8),
                ),
            ),
            None => None,
        },
        InputEvent::ButtonPressed(b) => match assoc_lookup(cfg.keys@, b) {
            Some(n) => Some(
                MidiMessage::NoteOn(cfg.output_midi_channel, n, DataByte(FIXED_VELOCITY)),
            ),
            None => None,
        },
        InputEvent::ButtonReleased(b) => match assoc_lookup(cfg.keys@, b) {
            Some(n) => Some(
                MidiMessage::NoteOff(cfg.output_midi_channel, n, DataByte(FIXED_VELOCITY)),
            ),
            None => None,
        },
        InputEvent::AxisChanged(a, raw) => match assoc_lookup(cfg.axis_ccs@, a) {
            Some(cc) => Some(
                MidiMessage::ControlChange(
                    cfg.output_midi_channel,
                    cc,
                    DataByte(spec_centered_to_midi(raw as int) as u8),
                ),
            ),
            None => None,
        },
        InputEvent::Other => None,
    }
}

/// Translates one input event against the configuration.
pub fn translate(cfg: &Config, ev: InputEvent) -> (r: Option<MidiMessage>)
    ensures
        r == spec_translate(*cfg, ev),
        cfg.wf() ==> match r {
            Some(m) => m.wf(),
            None => true,
        },
{
    let r = match ev {
        InputEvent::ButtonChanged(b, raw) => match cfg.analog_cc_for(b) {
            Some(cc) => Some(
                MidiMessage::ControlChange(
                    cfg.output_midi_channel,
                    cc,
                    DataByte(unsigned_to_midi(raw)),
                ),
            ),
            None => None,
        },
        InputEvent::ButtonPressed(b) => match cfg.note_for(b) {
            Some(n) => Some(
                MidiMessage::NoteOn(cfg.output_midi_channel, n, DataByte(FIXED_VELOCITY)),
            ),
            None => None,
        },
        InputEvent::ButtonReleased(b) => match cfg.note_for(b) {
            Some(n) => Some(
                MidiMessage::NoteOff(cfg.output_midi_channel, n, DataByte(FIXED_VELOCITY)),
            ),
            None => None,
        },
        InputEvent::AxisChanged(a, raw) => match cfg.axis_cc_for(a) {
            Some(cc) => Some(
                MidiMessage::ControlChange(
                    cfg.output_midi_channel,
                    cc,
                    DataByte(centered_to_midi(raw)),
                ),
            ),
            None => None,
        },
        InputEvent::Other => None,
    };
    proof {
        if cfg.wf() {
            match ev {
                InputEvent::ButtonChanged(b, _) => {
                    lemma_assoc_lookup_found(cfg.analog_button_ccs@, b);
                },
                InputEvent::ButtonPressed(b) => {
                    lemma_assoc_lookup_found(cfg.keys@, b);
                },
                InputEvent::ButtonReleased(b) => {
                    lemma_assoc_lookup_found(cfg.keys@, b);
                },
                InputEvent::AxisChanged(a, _) => {
                    lemma_assoc_lookup_found(cfg.axis_ccs@, a);
                },
                InputEvent::Other => {},
            }
        }
    }
    r
}

/// The framed buffer an event gives rise to: the wire bytes of its
/// translated message, or nothing.
pub open spec fn spec_step(cfg: Config, ev: InputEvent) -> Option<Seq<u8>> {
    match spec_translate(cfg, ev) {
        Some(m) => Some(m.spec_bytes()),
        None => None,
    }
}

/// Translates one event and frames the resulting message, if there is one.
pub fn step(cfg: &Config, ev: InputEvent) -> (r: Option<Vec<u8>>)
    requires
        cfg.wf(),
    ensures
        match r {
            Some(buf) => spec_step(*cfg, ev) == Some(buf@),
            None => spec_step(*cfg, ev) is None,
        },
{
    match translate(cfg, ev) {
        Some(m) => Some(m.to_bytes()),
        None => None,
    }
}

/// The buffers a whole event sequence emits, in source order, silent
/// events skipped.
pub open spec fn spec_emitted(cfg: Config, evs: Seq<InputEvent>) -> Seq<Seq<u8>>
    decreases evs.len(),
{
    if evs.len() == 0 {
        Seq::empty()
    } else {
        let rest = spec_emitted(cfg, evs.drop_last());
        match spec_step(cfg, evs.last()) {
            Some(b) => rest.push(b),
            None => rest,
        }
    }
}

/// Translates and frames a recorded sequence of events, emitting the
/// buffers in the exact order of their source events.
pub fn translate_events(cfg: &Config, evs: &Vec<InputEvent>) -> (out: Vec<Vec<u8>>)
    requires
        cfg.wf(),
    ensures
        out@.map_values(|b: Vec<u8>| b@) == spec_emitted(*cfg, evs@),
{
    let mut out: Vec<Vec<u8>> = Vec::new();
    let n = evs.len();
    let mut i: usize = 0;
    proof {
        assert(evs@.take(0) =~= Seq::<InputEvent>::empty());
        assert(out@.map_values(|b: Vec<u8>| b@) =~= Seq::<Seq<u8>>::empty());
    }
    while i < n
        invariant
            i <= n,
            n == evs@.len(),
            cfg.wf(),
            out@.map_values(|b: Vec<u8>| b@) == spec_emitted(*cfg, evs@.take(i as int)),
        decreases n - i,
    {
        let ghost prev = out@.map_values(|b: Vec<u8>| b@);
        proof {
            let taken = evs@.take(i as int + 1);
            assert(taken.drop_last() =~= evs@.take(i as int));
            assert(taken.last() == evs@[i as int]);
        }
        match step(cfg, evs[i]) {
            Some(buf) => {
                let ghost bs = buf@;
                out.push(buf);
                proof {
                    assert(out@.map_values(|b: Vec<u8>| b@) =~= prev.push(bs));
                }
            },
            None => {
                proof {
                    assert(out@.map_values(|b: Vec<u8>| b@) =~= prev);
                }
            },
        }
        i = i + 1;
    }
    proof {
        assert(evs@.take(n as int) =~= evs@);
    }
    out
}

/// Pressing a mapped digital button yields note-on with the table's note
/// and the fixed velocity; releasing it yields note-off with the same note
/// and the same velocity.
pub proof fn lemma_mapped_button_press_release(cfg: Config, b: Button)
    requires
        assoc_lookup(cfg.keys@, b) is Some,
    ensures
        spec_translate(cfg, InputEvent::ButtonPressed(b)) == Some(
            MidiMessage::NoteOn(
                cfg.output_midi_channel,
                assoc_lookup(cfg.keys@, b).unwrap(),
                DataByte(FIXED_VELOCITY),
            ),
        ),
        spec_translate(cfg, InputEvent::ButtonReleased(b)) == Some(
            MidiMessage::NoteOff(
                cfg.output_midi_channel,
                assoc_lookup(cfg.keys@, b).unwrap(),
                DataByte(FIXED_VELOCITY),
            ),
        ),
{
}

/// A button absent from both button tables is silent: no event kind that
/// refers to it produces a message.
pub proof fn lemma_unmapped_button_silent(cfg: Config, b: Button)
    requires
        assoc_lookup(cfg.keys@, b) is None,
        assoc_lookup(cfg.analog_button_ccs@, b) is None,
    ensures
        spec_translate(cfg, InputEvent::ButtonPressed(b)) is None,
        spec_translate(cfg, InputEvent::ButtonReleased(b)) is None,
        forall|raw: i32| spec_translate(cfg, InputEvent::ButtonChanged(b, raw)) is None,
{
}

/// An axis absent from the axis table is silent, whatever its reading; so
/// is every event without musical meaning.
pub proof fn lemma_unmapped_axis_silent(cfg: Config, a: Axis)
    requires
        assoc_lookup(cfg.axis_ccs@, a) is None,
    ensures
        forall|raw: i32| spec_translate(cfg, InputEvent::AxisChanged(a, raw)) is None,
        spec_translate(cfg, InputEvent::Other) is None,
{
}

/// Ordering: when every event of a sequence maps to a message, exactly one
/// buffer is emitted per event, and the buffers stand in the exact order of
/// their source events.
pub proof fn lemma_emitted_preserves_order(cfg: Config, evs: Seq<InputEvent>)
    requires
        forall|i: int| 0 <= i < evs.len() ==> (#[trigger] spec_step(cfg, evs[i])) is Some,
    ensures
        spec_emitted(cfg, evs).len() == evs.len(),
        forall|i: int|
            0 <= i < evs.len() ==> #[trigger] spec_emitted(cfg, evs)[i] == spec_step(
                cfg,
                evs[i],
            ).unwrap(),
    decreases evs.len(),
{
    if evs.len() > 0 {
        let prefix = evs.drop_last();
        assert forall|i: int| 0 <= i < prefix.len() implies (#[trigger] spec_step(
            cfg,
            prefix[i],
        )) is Some by {
            assert(prefix[i] == evs[i]);
        }
        lemma_emitted_preserves_order(cfg, prefix);
        assert(spec_step(cfg, evs.last()) is Some);
        assert forall|i: int| 0 <= i < evs.len() implies #[trigger] spec_emitted(cfg, evs)[i]
            == spec_step(cfg, evs[i]).unwrap() by {
            if i < evs.len() - 1 {
                assert(spec_emitted(cfg, evs)[i] == spec_emitted(cfg, prefix)[i]);
                assert(prefix[i] == evs[i]);
            }
        }
    }
}

/// First output destination whose name matches the configured one exactly,
/// scanning the enumeration in order. With no match the process runs
/// disconnected and every produced message is dropped.
pub fn find_port(names: &Vec<String>, target: &String) -> (r: Option<usize>)
    ensures
        match r {
            Some(i) => i < names@.len() && names@[i as int]@ == target@ && forall|j: int|
                0 <= j < i ==> (#[trigger] names@[j])@ != target@,
            None => forall|j: int| 0 <= j < names@.len() ==> (#[trigger] names@[j])@ != target@,
        },
{
    let n = names.len();
    let mut i: usize = 0;
    while i < n
        invariant
            i <= n,
            n == names@.len(),
            forall|j: int| 0 <= j < i ==> (#[trigger] names@[j])@ != target@,
        decreases n - i,
    {
        if names[i] == *target {
            return Some(i);
        }
        i = i + 1;
    }
    None
}

} // verus!
