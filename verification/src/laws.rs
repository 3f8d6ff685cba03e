//! What holds of the engine over whole runs of events and blocks.

use vstd::prelude::*;
use crate::engine::{spec_advance, Synthy, BLOCK_FRAMES};
use crate::midi::{spec_decode, NoteEvent, RawMidi};
use crate::params::Parameters;

verus! {

/// One thing that a host does to the engine.
pub enum Step {
    /// It delivers a short message.
    Midi(RawMidi),
    /// It asks for one render block, with the parameters as they then stand.
    Block(Parameters),
    /// It announces a sample rate.
    SampleRate(u32),
}

/// The state after one step.
pub open spec fn spec_step(state: Synthy, step: Step) -> Synthy {
    match step {
        Step::Midi(raw) => state.spec_handle_midi(raw),
        Step::Block(parameters) => state.spec_begin_block(parameters),
        Step::SampleRate(rate) => state.spec_set_sample_rate(rate),
    }
}

/// The state after a run of steps, in order.
pub open spec fn spec_run(state: Synthy, steps: Seq<Step>) -> Synthy
    decreases steps.len(),
{
    if steps.len() == 0 {
        state
    } else {
        spec_step(spec_run(state, steps.drop_last()), steps.last())
    }
}

/// Whether the step delivers a note-on.
pub open spec fn starts_note(step: Step) -> bool {
    match step {
        Step::Midi(raw) => spec_decode(raw) is Some && spec_decode(raw)->0 is NoteOn,
        _ => false,
    }
}

/// A note-on always wins: whatever the state, its note sounds afterwards,
/// sound is enabled, and the envelope is anchored at the time of the event.
pub proof fn lemma_note_on_wins(state: Synthy, pitch: u8, velocity: u8)
    ensures
        state.spec_apply(NoteEvent::NoteOn { pitch, velocity }).is_sounding(pitch),
        state.spec_apply(NoteEvent::NoteOn { pitch, velocity }).wf(),
        state.spec_apply(NoteEvent::NoteOn { pitch, velocity }).tags.note_on == state.time,
        state.spec_apply(NoteEvent::NoteOn { pitch, velocity }).time == state.time,
{
}

/// A note-off for another pitch than the sounding one changes nothing.
pub proof fn lemma_mismatched_off_ignored(state: Synthy, pitch: u8, velocity: u8, other: u8)
    requires
        other != pitch,
    ensures
        state.spec_apply(NoteEvent::NoteOn { pitch, velocity }).spec_apply(
            NoteEvent::NoteOff { pitch: other },
        ) == state.spec_apply(NoteEvent::NoteOn { pitch, velocity }),
        state.spec_apply(NoteEvent::NoteOn { pitch, velocity }).spec_apply(
            NoteEvent::NoteOff { pitch: other },
        ).is_sounding(pitch),
{
}

/// A note-off for the sounding pitch leaves the engine idle, and the next
/// block is silent.
pub proof fn lemma_matching_off_idles(state: Synthy, pitch: u8, velocity: u8)
    ensures
        state.spec_apply(NoteEvent::NoteOn { pitch, velocity }).spec_apply(
            NoteEvent::NoteOff { pitch },
        ).is_idle(),
{
}

/// A note-off in the idle state changes nothing.
pub proof fn lemma_off_while_idle_ignored(state: Synthy, pitch: u8)
    requires
        state.is_idle(),
    ensures
        state.spec_apply(NoteEvent::NoteOff { pitch }) == state,
{
}

/// Every step keeps sound enabled exactly while a note sounds.
pub proof fn lemma_run_preserves_wf(state: Synthy, steps: Seq<Step>)
    requires
        state.wf(),
    ensures
        spec_run(state, steps).wf(),
    decreases steps.len(),
{
    if steps.len() > 0 {
        lemma_run_preserves_wf(state, steps.drop_last());
    }
}

/// An idle engine stays idle until a note-on arrives: after any run of steps
/// without one, no note sounds, so every block in the run was silent, and
/// transport time stands where it stood or, after a change of sample rate, at
/// zero.
pub proof fn lemma_idle_until_note_on(state: Synthy, steps: Seq<Step>)
    requires
        state.is_idle(),
        forall|i: int| 0 <= i < steps.len() ==> !starts_note(#[trigger] steps[i]),
    ensures
        spec_run(state, steps).is_idle(),
        spec_run(state, steps).time == state.time || spec_run(state, steps).time == 0,
        forall|k: int| 0 <= k <= steps.len() ==> (#[trigger] spec_run(state, steps.take(k))).is_idle(),
    decreases steps.len(),
{
    if steps.len() > 0 {
        let init = steps.drop_last();
        lemma_idle_until_note_on(state, init);
        assert(!starts_note(steps[steps.len() - 1]));
        assert forall|k: int| 0 <= k <= steps.len() implies (#[trigger] spec_run(
            state,
            steps.take(k),
        )).is_idle() by {
            if k < steps.len() {
                assert(steps.take(k) =~= init.take(k));
            } else {
                assert(steps.take(k) =~= steps);
            }
        }
    } else {
        assert forall|k: int| 0 <= k <= steps.len() implies (#[trigger] spec_run(
            state,
            steps.take(k),
        )).is_idle() by {
            assert(steps.take(k) =~= steps);
        }
    }
}

/// After a note-on and the note-off that matches it, every block is silent
/// until the next note-on: through any run of steps without one, the engine
/// is idle at every point.
pub proof fn lemma_silent_after_matching_off(
    state: Synthy,
    pitch: u8,
    velocity: u8,
    steps: Seq<Step>,
)
    requires
        forall|i: int| 0 <= i < steps.len() ==> !starts_note(#[trigger] steps[i]),
    ensures
        forall|k: int|
            0 <= k <= steps.len() ==> (#[trigger] spec_run(
                state.spec_apply(NoteEvent::NoteOn { pitch, velocity }).spec_apply(
                    NoteEvent::NoteOff { pitch },
                ),
                steps.take(k),
            )).is_idle(),
{
    lemma_idle_until_note_on(
        state.spec_apply(NoteEvent::NoteOn { pitch, velocity }).spec_apply(
            NoteEvent::NoteOff { pitch },
        ),
        steps,
    );
}

/// Before the first note-on, transport time is zero: a new engine is idle at
/// time zero, and stays so through any run of steps without a note-on.
pub proof fn lemma_time_rests_before_first_note(steps: Seq<Step>)
    requires
        forall|i: int| 0 <= i < steps.len() ==> !starts_note(#[trigger] steps[i]),
    ensures
        spec_run(Synthy::spec_new(), steps).time == 0,
        spec_run(Synthy::spec_new(), steps).is_idle(),
{
    lemma_idle_until_note_on(Synthy::spec_new(), steps);
}

/// One block moves transport time on by exactly one block's frames while sound
/// is enabled, short of the largest value, and not at all while it is
/// disabled. Time never runs backwards in a block.
pub proof fn lemma_block_advances_time(state: Synthy, parameters: Parameters)
    ensures
        state.enabled && state.time + BLOCK_FRAMES <= u64::MAX ==> state.spec_begin_block(
            parameters,
        ).time == state.time + BLOCK_FRAMES,
        state.enabled ==> state.spec_begin_block(parameters).time == spec_advance(state.time),
        !state.enabled ==> state.spec_begin_block(parameters).time == state.time,
        state.spec_begin_block(parameters).time >= state.time,
{
}

/// A block changes neither the note, nor whether sound is enabled, nor the
/// sample rate, nor the envelope's anchor; while idle it leaves the pitch
/// slot at its last value.
pub proof fn lemma_block_keeps_control_state(state: Synthy, parameters: Parameters)
    ensures
        state.spec_begin_block(parameters).note == state.note,
        state.spec_begin_block(parameters).enabled == state.enabled,
        state.spec_begin_block(parameters).sample_rate == state.sample_rate,
        state.spec_begin_block(parameters).tags.note_on == state.tags.note_on,
        state.note.is_none() ==> state.spec_begin_block(parameters).tags.freq == state.tags.freq,
        state.note.is_some() ==> state.spec_begin_block(parameters).tags.freq
            == state.note.unwrap().pitch,
        state.spec_begin_block(parameters).tags.modulation == parameters.modulation,
{
}

/// Transport time never runs backwards as long as no sample rate is
/// announced.
pub proof fn lemma_time_monotone(state: Synthy, steps: Seq<Step>)
    requires
        forall|i: int| 0 <= i < steps.len() ==> !((#[trigger] steps[i]) is SampleRate),
    ensures
        spec_run(state, steps).time >= state.time,
    decreases steps.len(),
{
    if steps.len() > 0 {
        assert(!(steps[steps.len() - 1] is SampleRate));
        lemma_time_monotone(state, steps.drop_last());
    }
}

/// While a note sounds, transport time is the time at the start plus one
/// block's frames for every block rendered since.
pub proof fn lemma_time_after_blocks(state: Synthy, steps: Seq<Step>)
    requires
        state.enabled,
        forall|i: int| 0 <= i < steps.len() ==> (#[trigger] steps[i]) is Block,
        state.time + steps.len() * BLOCK_FRAMES <= u64::MAX,
    ensures
        spec_run(state, steps).time == state.time + steps.len() * BLOCK_FRAMES,
        spec_run(state, steps).enabled,
        spec_run(state, steps).note == state.note,
    decreases steps.len(),
{
    if steps.len() > 0 {
        let init = steps.drop_last();
        assert(steps[steps.len() - 1] is Block);
        assert(init.len() * BLOCK_FRAMES + BLOCK_FRAMES == steps.len() * BLOCK_FRAMES)
            by (nonlinear_arith)
            requires
                init.len() + 1 == steps.len(),
        ;
        lemma_time_after_blocks(state, init);
    }
}

/// Announcing the same sample rate twice in a row is the same as announcing
/// it once: the states are equal, and so is everything that any later run of
/// steps makes of them.
pub proof fn lemma_sample_rate_idempotent(state: Synthy, rate: u32, steps: Seq<Step>)
    ensures
        state.spec_set_sample_rate(rate).spec_set_sample_rate(rate) == state.spec_set_sample_rate(
            rate,
        ),
        spec_run(state.spec_set_sample_rate(rate).spec_set_sample_rate(rate), steps) == spec_run(
            state.spec_set_sample_rate(rate),
            steps,
        ),
        state.spec_set_sample_rate(rate).time == 0,
        state.spec_set_sample_rate(rate).note == state.note,
        state.spec_set_sample_rate(rate).tags == state.tags,
{
}

/// A batch of messages is applied in delivery order: a batch followed by one
/// more message is the batch, then the message.
pub proof fn lemma_events_in_order(state: Synthy, events: Seq<RawMidi>, last: RawMidi)
    ensures
        state.spec_process_events(events.push(last)) == state.spec_process_events(
            events,
        ).spec_handle_midi(last),
        state.spec_process_events(Seq::empty()) == state,
{
    assert(events.push(last).drop_last() =~= events);
}

} // verus!
