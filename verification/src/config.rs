//! The process-lifetime configuration: the output destination, the output
//! channel, and the three control-mapping tables.
//!
//! The tables are immutable association lists built once at startup from
//! compiled-in defaults. Each lookup is total: a control absent from its
//! table simply has no mapping, which is an expected outcome and not an
//! error.

use vstd::prelude::*;

use crate::controls::Axis;
use crate::controls::Button;
use crate::midi::Channel;
use crate::midi::ControlNumber;
use crate::midi::Note;

verus! {

/// First match of a key in an association list, scanning left to right.
pub open spec fn assoc_lookup<K, V>(entries: Seq<(K, V)>, key: K) -> Option<V>
    decreases entries.len(),
{
    if entries.len() == 0 {
        None
    } else if entries[0].0 == key {
        Some(entries[0].1)
    } else {
        assoc_lookup(entries.drop_first(), key)
    }
}

/// A found entry lies in the list under the looked-up key; a miss means no
/// entry carries the key at all.
pub proof fn lemma_assoc_lookup_found<K, V>(entries: Seq<(K, V)>, key: K)
    ensures
        match assoc_lookup(entries, key) {
            Some(v) => exists|i: int|
                0 <= i < entries.len() && #[trigger] entries[i] == (key, v),
            None => forall|i: int| 0 <= i < entries.len() ==> (#[trigger] entries[i]).0 != key,
        },
    decreases entries.len(),
{
    if entries.len() == 0 {
    } else if entries[0].0 == key {
        assert(entries[0] == (key, entries[0].1));
    } else {
        lemma_assoc_lookup_found(entries.drop_first(), key);
        match assoc_lookup(entries, key) {
            Some(v) => {
                let j = choose|j: int|
                    0 <= j < entries.drop_first().len() && #[trigger] entries.drop_first()[j]
                        == (key, v);
                assert(entries[j + 1] == (key, v));
            },
            None => {
                assert forall|i: int| 0 <= i < entries.len() implies (#[trigger] entries[i]).0
                    != key by {
                    if i > 0 {
                        assert(entries.drop_first()[i - 1] == entries[i]);
                    }
                }
            },
        }
    }
}

/// No key occurs twice in an association table, so a lookup's first match
/// is its only match.
pub open spec fn unique_keys<K, V>(entries: Seq<(K, V)>) -> bool {
    forall|i: int, j: int|
        0 <= i < j < entries.len() ==> (#[trigger] entries[i]).0 != (#[trigger] entries[j]).0
}

/// Two association tables cover disjoint sets of keys.
pub open spec fn disjoint_keys<K, V1, V2>(a: Seq<(K, V1)>, b: Seq<(K, V2)>) -> bool {
    forall|i: int, j: int|
        0 <= i < a.len() && 0 <= j < b.len() ==> (#[trigger] a[i]).0 != (#[trigger] b[j]).0
}

/// The immutable translation configuration.
#[derive(Clone, Debug)]
pub struct Config {
    /// Exact name of the output destination to connect to at startup.
    pub output_port_name: String,
    /// The single channel every produced message is tagged with.
    pub output_midi_channel: Channel,
    /// Digital buttons that produce discrete pitched events.
    pub keys: Vec<(Button, Note)>,
    /// Analog-valued buttons that produce continuous control messages.
    pub analog_button_ccs: Vec<(Button, ControlNumber)>,
    /// Stick axes that produce continuous control messages.
    pub axis_ccs: Vec<(Axis, ControlNumber)>,
}

/// The compiled-in button-to-note table.
pub open spec fn spec_default_keys() -> Seq<(Button, Note)> {
    seq![
        (Button::North, Note(24)),
        (Button::East, Note(26)),
        (Button::South, Note(28)),
        (Button::West, Note(29)),
        (Button::LeftTrigger, Note(45)),
        (Button::RightTrigger, Note(47)),
        (Button::Start, Note(48)),
        (Button::Select, Note(50)),
        (Button::Mode, Note(52)),
        (Button::DPadUp, Note(69)),
        (Button::DPadDown, Note(71)),
        (Button::DPadLeft, Note(60)),
        (Button::DPadRight, Note(62)),
    ]
}

/// The compiled-in analog-button-to-controller table.
pub open spec fn spec_default_analog_button_ccs() -> Seq<(Button, ControlNumber)> {
    seq![(Button::LeftTrigger2, ControlNumber(1)), (Button::RightTrigger2, ControlNumber(2))]
}

/// The compiled-in axis-to-controller table.
pub open spec fn spec_default_axis_ccs() -> Seq<(Axis, ControlNumber)> {
    seq![
        (Axis::LeftStickX, ControlNumber(3)),
        (Axis::LeftStickY, ControlNumber(4)),
        (Axis::RightStickX, ControlNumber(5)),
        (Axis::RightStickY, ControlNumber(6)),
    ]
}

impl Config {
    /// The channel is a legal channel, every mapped note and controller
    /// number is within its wire bounds, each table maps a control at most
    /// once, and the two button tables cover disjoint sets of buttons (the
    /// axis table is disjoint from both by its key type).
    pub open spec fn wf(self) -> bool {
        &&& self.output_midi_channel.wf()
        &&& forall|i: int|
            0 <= i < self.keys@.len() ==> (#[trigger] self.keys@[i]).1.wf()
        &&& forall|i: int|
            0 <= i < self.analog_button_ccs@.len() ==> (
            #[trigger] self.analog_button_ccs@[i]).1.wf()
        &&& forall|i: int|
            0 <= i < self.axis_ccs@.len() ==> (#[trigger] self.axis_ccs@[i]).1.wf()
        &&& unique_keys(self.keys@)
        &&& unique_keys(self.analog_button_ccs@)
        &&& unique_keys(self.axis_ccs@)
        &&& disjoint_keys(self.keys@, self.analog_button_ccs@)
    }

    /// The note mapped to a digital button, if the button has one.
    pub fn note_for(&self, b: Button) -> (r: Option<Note>)
        ensures
            r == assoc_lookup(self.keys@, b),
    {
        let n = self.keys.len();
        let mut i: usize = 0;
        proof {
            assert(self.keys@.skip(0) =~= self.keys@);
        }
        while i < n
            invariant
                i <= n,
                n == self.keys@.len(),
                assoc_lookup(self.keys@, b) == assoc_lookup(self.keys@.skip(i as int), b),
            decreases n - i,
        {
            let (key, val) = self.keys[i];
            proof {
                assert(self.keys@.skip(i as int)[0] == self.keys@[i as int]);
                assert(self.keys@.skip(i as int).drop_first() =~= self.keys@.skip(i as int + 1));
            }
            if key == b {
                return Some(val);
            }
            i = i + 1;
        }
        proof {
            assert(self.keys@.skip(n as int) =~= Seq::<(Button, Note)>::empty());
        }
        None
    }

    /// The controller number mapped to an analog button, if it has one.
    pub fn analog_cc_for(&self, b: Button) -> (r: Option<ControlNumber>)
        ensures
            r == assoc_lookup(self.analog_button_ccs@, b),
    {
        let n = self.analog_button_ccs.len();
        let mut i: usize = 0;
        proof {
            assert(self.analog_button_ccs@.skip(0) =~= self.analog_button_ccs@);
        }
        while i < n
            invariant
                i <= n,
                n == self.analog_button_ccs@.len(),
                assoc_lookup(self.analog_button_ccs@, b) == assoc_lookup(
                    self.analog_button_ccs@.skip(i as int),
                    b,
                ),
            decreases n - i,
        {
            let (key, val) = self.analog_button_ccs[i];
            proof {
                assert(self.analog_button_ccs@.skip(i as int)[0]
                    == self.analog_button_ccs@[i as int]);
                assert(self.analog_button_ccs@.skip(i as int).drop_first()
                    =~= self.analog_button_ccs@.skip(i as int + 1));
            }
            if key == b {
                return Some(val);
            }
            i = i + 1;
        }
        proof {
            assert(self.analog_button_ccs@.skip(n as int)
                =~= Seq::<(Button, ControlNumber)>::empty());
        }
        None
    }

    /// The controller number mapped to an axis, if the axis has one.
    pub fn axis_cc_for(&self, a: Axis) -> (r: Option<ControlNumber>)
        ensures
            r == assoc_lookup(self.axis_ccs@, a),
    {
        let n = self.axis_ccs.len();
        let mut i: usize = 0;
        proof {
            assert(self.axis_ccs@.skip(0) =~= self.axis_ccs@);
        }
        while i < n
            invariant
                i <= n,
                n == self.axis_ccs@.len(),
                assoc_lookup(self.axis_ccs@, a) == assoc_lookup(
                    self.axis_ccs@.skip(i as int),
                    a,
                ),
            decreases n - i,
        {
            let (key, val) = self.axis_ccs[i];
            proof {
                assert(self.axis_ccs@.skip(i as int)[0] == self.axis_ccs@[i as int]);
                assert(self.axis_ccs@.skip(i as int).drop_first()
                    =~= self.axis_ccs@.skip(i as int + 1));
            }
            if key == a {
                return Some(val);
            }
            i = i + 1;
        }
        proof {
            assert(self.axis_ccs@.skip(n as int) =~= Seq::<(Axis, ControlNumber)>::empty());
        }
        None
    }
}

impl Default for Config {
    /// The compiled-in default configuration: destination "xbox", channel
    /// index 14, and the three literal mapping tables.
    fn default() -> (cfg: Config)
        ensures
            cfg.wf(),
            cfg.output_port_name@ == "xbox"@,
            cfg.output_midi_channel == (Channel(14)),
            cfg.keys@ == spec_default_keys(),
            cfg.analog_button_ccs@ == spec_default_analog_button_ccs(),
            cfg.axis_ccs@ == spec_default_axis_ccs(),
    {
        let mut keys: Vec<(Button, Note)> = Vec::new();
        keys.push((Button::North, Note(24)));
        keys.push((Button::East, Note(26)));
        keys.push((Button::South, Note(28)));
        keys.push((Button::West, Note(29)));
        keys.push((Button::LeftTrigger, Note(45)));
        keys.push((Button::RightTrigger, Note(47)));
        keys.push((Button::Start, Note(48)));
        keys.push((Button::Select, Note(50)));
        keys.push((Button::Mode, Note(52)));
        keys.push((Button::DPadUp, Note(69)));
        keys.push((Button::DPadDown, Note(71)));
        keys.push((Button::DPadLeft, Note(60)));
        keys.push((Button::DPadRight, Note(62)));
        let mut analog_button_ccs: Vec<(Button, ControlNumber)> = Vec::new();
        analog_button_ccs.push((Button::LeftTrigger2, ControlNumber(1)));
        analog_button_ccs.push((Button::RightTrigger2, ControlNumber(2)));
        let mut axis_ccs: Vec<(Axis, ControlNumber)> = Vec::new();
        axis_ccs.push((Axis::LeftStickX, ControlNumber(3)));
        axis_ccs.push((Axis::LeftStickY, ControlNumber(4)));
        axis_ccs.push((Axis::RightStickX, ControlNumber(5)));
        axis_ccs.push((Axis::RightStickY, ControlNumber(6)));
        proof {
            assert(keys@ =~= spec_default_keys());
            assert(analog_button_ccs@ =~= spec_default_analog_button_ccs());
            assert(axis_ccs@ =~= spec_default_axis_ccs());
        }
        Config {
            output_port_name: String::from_str("xbox"),
            output_midi_channel: Channel(14),
            keys,
            analog_button_ccs,
            axis_ccs,
        }
    }
}

} // verus!
