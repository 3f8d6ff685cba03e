//! The engine's control state: the monophonic note state machine, transport
//! time, and what each render block does to them.
//!
//! The signal graph itself works on real numbers and lives with the host
//! glue. This module decides, block by block, what is pushed into the graph's
//! tags, whether the graph is evaluated or the block is silent, and how far
//! transport time moves.

use vstd::prelude::*;
use crate::midi::{decode, spec_decode, NoteEvent, RawMidi};
use crate::params::{Parameter, Parameters};
use crate::tag::{Tag, TagSlots};

verus! {

/// Frames in one render block. The graph is evaluated for exactly this many
/// frames at a time, and control state is sampled once per block.
pub const BLOCK_FRAMES: u64 = 64;

/// Bit pattern of the sample rate that the engine starts with, forty
/// thousand frames a second.
pub const DEFAULT_SAMPLE_RATE_BITS: u32 = 0x471C_4000;

/// The note number that the pitch slot starts with: the A of standard
/// tuning.
pub const DEFAULT_PITCH: u64 = 69;

/// The sounding note.
#[derive(Clone, Copy, Debug, PartialEq, Eq, Structural)]
pub struct Note {
    pub pitch: u8,
    pub velocity: u8,
}

/// The control state of one engine instance.
#[derive(Clone, Copy, Debug, PartialEq, Eq)]
pub struct Synthy {
    /// The note that sounds, if one does. At most one note is live.
    pub note: Option<Note>,
    /// Whether sound is enabled: blocks are rendered, or silent.
    pub enabled: bool,
    /// Bit pattern of the sample rate in frames a second.
    pub sample_rate: u32,
    /// Transport time, in frames at the current sample rate.
    pub time: u64,
    /// What the graph's tags were last given.
    pub tags: TagSlots,
}

/// `time` moved on by one block, stopping at the largest value.
pub open spec fn spec_advance(time: u64) -> u64 {
    if time <= u64::MAX - BLOCK_FRAMES {
        (time + BLOCK_FRAMES) as u64
    } else {
        u64::MAX
    }
}

impl Synthy {
    /// Sound is enabled exactly while a note sounds.
    pub open spec fn wf(self) -> bool {
        self.enabled == self.note.is_some()
    }

    /// No note sounds.
    pub open spec fn is_idle(self) -> bool {
        self.note.is_none() && !self.enabled
    }

    /// A note of this pitch sounds.
    pub open spec fn is_sounding(self, pitch: u8) -> bool {
        self.enabled && self.note.is_some() && self.note.unwrap().pitch == pitch
    }

    /// The state of a new engine: idle, at time zero, with the pitch slot at
    /// the default pitch and the modulation slot at the default modulation.
    pub open spec fn spec_new() -> Synthy {
        Synthy {
            note: None,
            enabled: false,
            sample_rate: DEFAULT_SAMPLE_RATE_BITS,
            time: 0,
            tags: TagSlots {
                freq: DEFAULT_PITCH,
                modulation: crate::params::DEFAULT_MODULATION_BITS as u64,
                note_on: 0,
            },
        }
    }

    /// The state with `value` at `tag`.
    pub open spec fn spec_set_tag(self, tag: Tag, value: u64) -> Synthy {
        Synthy { tags: self.tags.spec_set(tag, value), ..self }
    }

    /// The state with the stored value of `param` at `tag`.
    pub open spec fn spec_set_tag_with_param(
        self,
        parameters: Parameters,
        tag: Tag,
        param: Parameter,
    ) -> Synthy {
        self.spec_set_tag(tag, parameters.spec_get(param.spec_index()) as u64)
    }

    /// The note state machine. A note-on always wins: it replaces any note,
    /// enables sound and anchors the envelope at the current time. A
    /// note-off disables sound only if it names the sounding pitch.
    pub open spec fn spec_apply(self, event: NoteEvent) -> Synthy {
        match event {
            NoteEvent::NoteOn { pitch, velocity } => Synthy {
                note: Some(Note { pitch, velocity }),
                enabled: true,
                ..self.spec_set_tag(Tag::NoteOn, self.time)
            },
            NoteEvent::NoteOff { pitch } => if self.note.is_some() && self.note.unwrap().pitch
                == pitch {
                Synthy { note: None, enabled: false, ..self }
            } else {
                self
            },
        }
    }

    /// The state after a decoded message; one that decoded to nothing is
    /// dropped.
    pub open spec fn spec_apply_decoded(self, decoded: Option<NoteEvent>) -> Synthy {
        match decoded {
            Some(event) => self.spec_apply(event),
            None => self,
        }
    }

    /// The state after one short message.
    pub open spec fn spec_handle_midi(self, raw: RawMidi) -> Synthy {
        self.spec_apply_decoded(spec_decode(raw))
    }

    /// The state after a batch of messages, applied in delivery order.
    pub open spec fn spec_process_events(self, events: Seq<RawMidi>) -> Synthy
        decreases events.len(),
    {
        if events.len() == 0 {
            self
        } else {
            self.spec_process_events(events.drop_last()).spec_handle_midi(events.last())
        }
    }

    /// The state after the control step of one block: the modulation
    /// parameter is pushed into the modulation tag; the sounding pitch, if
    /// any, into the pitch tag; and time moves on by one block if sound is
    /// enabled.
    pub open spec fn spec_begin_block(self, parameters: Parameters) -> Synthy {
        let pushed = self.spec_set_tag_with_param(parameters, Tag::Modulation, Parameter::Modulation);
        let tuned = match self.note {
            Some(note) => pushed.spec_set_tag(Tag::Freq, note.pitch as u64),
            None => pushed,
        };
        if self.enabled {
            Synthy { time: spec_advance(self.time), ..tuned }
        } else {
            tuned
        }
    }

    /// The state after a change of sample rate: the rate is taken over and
    /// transport time starts again at zero.
    pub open spec fn spec_set_sample_rate(self, rate: u32) -> Synthy {
        Synthy { sample_rate: rate, time: 0, ..self }
    }

    pub fn new() -> (r: Synthy)
        ensures
            r == Self::spec_new(),
            r.wf(),
            r.is_idle(),
    {
        Synthy {
            note: None,
            enabled: false,
            sample_rate: DEFAULT_SAMPLE_RATE_BITS,
            time: 0,
            tags: TagSlots {
                freq: DEFAULT_PITCH,
                modulation: crate::params::DEFAULT_MODULATION_BITS as u64,
                note_on: 0,
            },
        }
    }

    /// Gives the slot at `tag` the value `value`.
    pub fn set_tag(&mut self, tag: Tag, value: u64)
        ensures
            *final(self) == old(self).spec_set_tag(tag, value),
    {
        self.tags.set(tag, value);
    }

    /// Gives the slot at `tag` the stored value of `param`.
    pub fn set_tag_with_param(&mut self, parameters: &Parameters, tag: Tag, param: Parameter)
        ensures
            *final(self) == old(self).spec_set_tag_with_param(*parameters, tag, param),
    {
        let value: u32 = parameters.get_parameter(param.index());
        self.set_tag(tag, value as u64);
    }

    /// Applies one note event.
    pub fn apply(&mut self, event: NoteEvent)
        ensures
            *final(self) == old(self).spec_apply(event),
            old(self).wf() ==> final(self).wf(),
    {
        match event {
            NoteEvent::NoteOn { pitch, velocity } => {
                let now: u64 = self.time;
                self.set_tag(Tag::NoteOn, now);
                self.note = Some(Note { pitch, velocity });
                self.enabled = true;
            },
            NoteEvent::NoteOff { pitch } => {
                let matches = match self.note {
                    Some(current) => current.pitch == pitch,
                    None => false,
                };
                if matches {
                    self.note = None;
                    self.enabled = false;
                }
            },
        }
    }

    /// Applies what a message decoded to, or nothing where it decoded to
    /// nothing.
    pub fn apply_decoded(&mut self, decoded: Option<NoteEvent>)
        ensures
            *final(self) == old(self).spec_apply_decoded(decoded),
            old(self).wf() ==> final(self).wf(),
    {
        match decoded {
            Some(event) => self.apply(event),
            None => {},
        }
    }

    /// Decodes one short message and applies it.
    pub fn handle_midi(&mut self, raw: RawMidi)
        ensures
            *final(self) == old(self).spec_handle_midi(raw),
            old(self).wf() ==> final(self).wf(),
    {
        let decoded = decode(raw);
        self.apply_decoded(decoded);
    }

    /// Applies a batch of short messages in delivery order.
    pub fn process_events(&mut self, events: &[RawMidi])
        ensures
            *final(self) == old(self).spec_process_events(events@),
            old(self).wf() ==> final(self).wf(),
    {
        let mut i: usize = 0;
        while i < events.len()
            invariant
                i <= events.len(),
                *self == old(self).spec_process_events(events@.take(i as int)),
                old(self).wf() ==> self.wf(),
            decreases events.len() - i,
        {
            proof {
                assert(events@.take(i + 1).drop_last() =~= events@.take(i as int));
            }
            self.handle_midi(events[i]);
            i += 1;
        }
        proof {
            assert(events@.take(i as int) =~= events@);
        }
    }

    /// The control step of one render block. Returns whether the graph is to
    /// be evaluated for this block; where it is not, the block is silent.
    pub fn begin_block(&mut self, parameters: &Parameters) -> (render: bool)
        ensures
            *final(self) == old(self).spec_begin_block(*parameters),
            render == old(self).enabled,
            old(self).wf() ==> final(self).wf(),
    {
        self.set_tag_with_param(parameters, Tag::Modulation, Parameter::Modulation);
        match self.note {
            Some(note) => {
                self.set_tag(Tag::Freq, note.pitch as u64);
            },
            None => {},
        }
        if self.enabled {
            self.time = if self.time <= u64::MAX - BLOCK_FRAMES {
                self.time + BLOCK_FRAMES
            } else {
                u64::MAX
            };
        }
        self.enabled
    }

    /// Takes over a new sample rate and starts transport time again at zero.
    pub fn set_sample_rate(&mut self, rate: u32)
        ensures
            *final(self) == old(self).spec_set_sample_rate(rate),
            old(self).wf() ==> final(self).wf(),
    {
        self.sample_rate = rate;
        self.time = 0;
    }
}

} // verus!
