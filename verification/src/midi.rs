//! Note events and their decoding from the three bytes of a channel message.

use vstd::prelude::*;

verus! {

/// The three bytes of one short message, as a host delivers them.
#[derive(Clone, Copy, Debug, PartialEq, Eq, Structural)]
pub struct RawMidi {
    pub status: u8,
    pub data1: u8,
    pub data2: u8,
}

/// The events that the note state machine reacts to.
#[derive(Clone, Copy, Debug, PartialEq, Eq, Structural)]
pub enum NoteEvent {
    NoteOn { pitch: u8, velocity: u8 },
    NoteOff { pitch: u8 },
}

/// A data byte has its top bit clear.
pub open spec fn is_data_byte(byte: u8) -> bool {
    byte < 0x80
}

/// The note event that a short message carries, if it carries one.
///
/// Both data bytes must be data bytes. A status of `0x90..=0x9F` with a
/// velocity above zero is a note-on. A status of `0x80..=0x8F` is a note-off,
/// and so is a note-on with velocity zero. The channel, the low half of the
/// status byte, is not looked at. Every other message, and every malformed
/// one, carries no note event.
pub open spec fn spec_decode(raw: RawMidi) -> Option<NoteEvent> {
    if is_data_byte(raw.data1) && is_data_byte(raw.data2) {
        if 0x90 <= raw.status <= 0x9F && raw.data2 != 0 {
            Some(NoteEvent::NoteOn { pitch: raw.data1, velocity: raw.data2 })
        } else if 0x80 <= raw.status <= 0x9F {
            Some(NoteEvent::NoteOff { pitch: raw.data1 })
        } else {
            None
        }
    } else {
        None
    }
}

/// Decodes one short message with `wmidi::MidiMessage::try_from`.
///
/// The contract is assumed, not proved. It restates, for the two note
/// messages, what that parser does with three bytes: it rejects a first byte
/// without the top bit and data bytes with it; it reads the high half of the
/// status byte as the sort of message; and it reports a note-on of velocity
/// zero as a note-off. Its other messages and its errors all become `None`
/// here.
#[verifier::external_body]
pub(crate) fn decode(raw: RawMidi) -> (r: Option<NoteEvent>)
    ensures
        r == spec_decode(raw),
{
    let bytes = [raw.status, raw.data1, raw.data2];
    match wmidi::MidiMessage::try_from(&bytes[..]) {
        Ok(wmidi::MidiMessage::NoteOn(_, note, velocity)) => Some(
            NoteEvent::NoteOn { pitch: u8::from(note), velocity: u8::from(velocity) },
        ),
        Ok(wmidi::MidiMessage::NoteOff(_, note, _)) => Some(
            NoteEvent::NoteOff { pitch: u8::from(note) },
        ),
        _ => None,
    }
}

/// A decoded event only ever names data bytes, and a note-on never has
/// velocity zero.
pub proof fn lemma_decoded_in_range(raw: RawMidi)
    ensures
        match spec_decode(raw) {
            Some(NoteEvent::NoteOn { pitch, velocity }) => pitch < 128 && 0 < velocity < 128,
            Some(NoteEvent::NoteOff { pitch }) => pitch < 128,
            None => true,
        },
{
}

} // verus!
