//! Tags: the integer-addressed injection points of the signal graph.

use vstd::prelude::*;

verus! {

/// The injection points of the graph. A tag is an internal slot; it is not a
/// host-visible parameter.
#[derive(Clone, Copy, Debug, PartialEq, Eq, Structural)]
pub enum Tag {
    /// The oscillator's pitch.
    Freq,
    /// The modulation depth.
    Modulation,
    /// The transport time at which the envelope is anchored.
    NoteOn,
}

impl Tag {
    /// The integer by which the graph addresses the slot.
    pub open spec fn spec_id(self) -> int {
        match self {
            Tag::Freq => 0,
            Tag::Modulation => 1,
            Tag::NoteOn => 2,
        }
    }

    /// The tag that `id` addresses, if any.
    pub open spec fn spec_from_i64(id: int) -> Option<Tag> {
        if id == 0 {
            Some(Tag::Freq)
        } else if id == 1 {
            Some(Tag::Modulation)
        } else if id == 2 {
            Some(Tag::NoteOn)
        } else {
            None
        }
    }

    pub fn id(self) -> (r: i64)
        ensures
            r == self.spec_id(),
    {
        match self {
            Tag::Freq => 0,
            Tag::Modulation => 1,
            Tag::NoteOn => 2,
        }
    }

    pub fn from_i64(id: i64) -> (r: Option<Tag>)
        ensures
            r == Self::spec_from_i64(id as int),
    {
        if id == 0 {
            Some(Tag::Freq)
        } else if id == 1 {
            Some(Tag::Modulation)
        } else if id == 2 {
            Some(Tag::NoteOn)
        } else {
            None
        }
    }
}

/// Every tag is found again by its id, and an id that names a tag is that
/// tag's id.
pub proof fn lemma_tag_id_round_trip(tag: Tag, id: int)
    ensures
        Tag::spec_from_i64(tag.spec_id()) == Some(tag),
        Tag::spec_from_i64(id) == Some(tag) ==> id == tag.spec_id(),
{
}

/// The value held at each injection point, in the unit of its source: a note
/// number for the pitch, the bit pattern of a normalized parameter for the
/// modulation depth, a frame count for the envelope anchor. They are turned
/// into the graph's own units where they are handed to the graph.
#[derive(Clone, Copy, Debug, PartialEq, Eq, Structural)]
pub struct TagSlots {
    pub freq: u64,
    pub modulation: u64,
    pub note_on: u64,
}

impl TagSlots {
    /// The value held at `tag`.
    pub open spec fn spec_get(self, tag: Tag) -> u64 {
        match tag {
            Tag::Freq => self.freq,
            Tag::Modulation => self.modulation,
            Tag::NoteOn => self.note_on,
        }
    }

    /// The slots with the value at `tag` replaced by `value`.
    pub open spec fn spec_set(self, tag: Tag, value: u64) -> TagSlots {
        match tag {
            Tag::Freq => TagSlots { freq: value, ..self },
            Tag::Modulation => TagSlots { modulation: value, ..self },
            Tag::NoteOn => TagSlots { note_on: value, ..self },
        }
    }

    pub fn get(&self, tag: Tag) -> (r: u64)
        ensures
            r == self.spec_get(tag),
    {
        match tag {
            Tag::Freq => self.freq,
            Tag::Modulation => self.modulation,
            Tag::NoteOn => self.note_on,
        }
    }

    pub fn set(&mut self, tag: Tag, value: u64)
        ensures
            *final(self) == old(self).spec_set(tag, value),
    {
        match tag {
            Tag::Freq => {
                self.freq = value;
            },
            Tag::Modulation => {
                self.modulation = value;
            },
            Tag::NoteOn => {
                self.note_on = value;
            },
        }
    }
}

/// A write to one slot is read back there and leaves the other slots alone.
pub proof fn lemma_slot_write(slots: TagSlots, tag: Tag, value: u64, other: Tag)
    ensures
        slots.spec_set(tag, value).spec_get(tag) == value,
        other != tag ==> slots.spec_set(tag, value).spec_get(other) == slots.spec_get(other),
{
}

} // verus!
