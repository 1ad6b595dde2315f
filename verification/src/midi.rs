//! MIDI protocol values and messages, with their exact wire framing.
//!
//! Each numeric protocol field is a validated wrapper: the checked
//! constructors reject out-of-range numbers, and every message the library
//! builds satisfies its well-formedness predicate. Framing a message yields
//! exactly the bytes of the channel-voice wire format: a status byte
//! carrying the message kind and channel, followed by two 7-bit data bytes.

use vstd::prelude::*;

verus! {

/// One of the 16 MIDI channels, stored as its zero-based wire index.
#[derive(Clone, Copy, Debug, PartialEq, Eq, Structural)]
pub struct Channel(pub u8);

impl Channel {
    /// A valid channel index fits in the low nibble of a status byte.
    pub open spec fn wf(self) -> bool {
        self.0 < 16
    }

    /// Builds a channel from a zero-based index, rejecting indices past 15.
    pub fn from_index(idx: u8) -> (r: Option<Channel>)
        ensures
            match r {
                Some(c) => idx < 16 && c == (Channel(idx)),
                None => idx >= 16,
            },
    {
        if idx < 16 {
            Some(Channel(idx))
        } else {
            None
        }
    }
}

/// A discrete pitch identifier, stored as its 7-bit wire number.
#[derive(Clone, Copy, Debug, PartialEq, Eq, Structural)]
pub struct Note(pub u8);

impl Note {
    /// A valid note number is a 7-bit value.
    pub open spec fn wf(self) -> bool {
        self.0 < 128
    }

    /// Builds a note from its wire number, rejecting numbers past 127.
    pub fn from_u8(n: u8) -> (r: Option<Note>)
        ensures
            match r {
                Some(v) => n < 128 && v == (Note(n)),
                None => n >= 128,
            },
    {
        if n < 128 {
            Some(Note(n))
        } else {
            None
        }
    }
}

/// A continuous-controller selector, stored as its 7-bit wire number.
#[derive(Clone, Copy, Debug, PartialEq, Eq, Structural)]
pub struct ControlNumber(pub u8);

impl ControlNumber {
    /// A valid controller number is a 7-bit value.
    pub open spec fn wf(self) -> bool {
        self.0 < 128
    }

    /// Builds a controller number from its wire number, rejecting numbers
    /// past 127.
    pub fn from_u8(n: u8) -> (r: Option<ControlNumber>)
        ensures
            match r {
                Some(v) => n < 128 && v == (ControlNumber(n)),
                None => n >= 128,
            },
    {
        if n < 128 {
            Some(ControlNumber(n))
        } else {
            None
        }
    }
}

/// A 7-bit data value: a velocity or a controller position.
#[derive(Clone, Copy, Debug, PartialEq, Eq, Structural)]
pub struct DataByte(pub u8);

impl DataByte {
    /// A valid data byte is a 7-bit value.
    pub open spec fn wf(self) -> bool {
        self.0 < 128
    }

    /// Builds a data byte, rejecting values past 127.
    pub fn from_u8(n: u8) -> (r: Option<DataByte>)
        ensures
            match r {
                Some(v) => n < 128 && v == (DataByte(n)),
                None => n >= 128,
            },
    {
        if n < 128 {
            Some(DataByte(n))
        } else {
            None
        }
    }
}

/// One channel-voice message of the output protocol.
#[derive(Clone, Copy, Debug, PartialEq, Eq, Structural)]
pub enum MidiMessage {
    NoteOn(Channel, Note, DataByte),
    NoteOff(Channel, Note, DataByte),
    ControlChange(Channel, ControlNumber, DataByte),
}

impl MidiMessage {
    /// Every numeric field of the message is within its wire bounds.
    pub open spec fn wf(self) -> bool {
        match self {
            MidiMessage::NoteOn(ch, n, v) => ch.wf() && n.wf() && v.wf(),
            MidiMessage::NoteOff(ch, n, v) => ch.wf() && n.wf() && v.wf(),
            MidiMessage::ControlChange(ch, cc, v) => ch.wf() && cc.wf() && v.wf(),
        }
    }

    /// The exact wire bytes of the message: status byte with the kind in
    /// the high nibble and the channel in the low nibble, then the two data
    /// bytes.
    pub open spec fn spec_bytes(self) -> Seq<u8> {
        match self {
            MidiMessage::NoteOff(ch, n, v) => seq![(0x80 + ch.0) as u8, n.0, v.0],
            MidiMessage::NoteOn(ch, n, v) => seq![(0x90 + ch.0) as u8, n.0, v.0],
            MidiMessage::ControlChange(ch, cc, v) => seq![(0xb0 + ch.0) as u8, cc.0, v.0],
        }
    }

    /// The wire length of the message.
    pub fn bytes_size(&self) -> (n: usize)
        ensures
            n == self.spec_bytes().len(),
    {
        3
    }

    /// Frames the message into a buffer holding exactly its wire bytes.
    pub fn to_bytes(&self) -> (out: Vec<u8>)
        requires
            self.wf(),
        ensures
            out@ == self.spec_bytes(),
    {
        let mut out: Vec<u8> = Vec::new();
        match self {
            MidiMessage::NoteOff(ch, n, v) => {
                out.push(0x80 + ch.0);
                out.push(n.0);
                out.push(v.0);
            },
            MidiMessage::NoteOn(ch, n, v) => {
                out.push(0x90 + ch.0);
                out.push(n.0);
                out.push(v.0);
            },
            MidiMessage::ControlChange(ch, cc, v) => {
                out.push(0xb0 + ch.0);
                out.push(cc.0);
                out.push(v.0);
            },
        }
        proof {
            assert(out@ =~= self.spec_bytes());
        }
        out
    }
}

} // verus!
