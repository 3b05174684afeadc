//! The controller's wire protocol: which frame means what, and which note
//! lights which button.
//!
//! The controller has three buttons per beat, numbered from 1. The first of
//! each group taps the beat and carries its main light; the third resets it
//! and carries the reset light. Velocity knobs sit on two rows of four.

use vstd::prelude::*;
use crate::tempo::{Velocity, DATA_MAX};
use crate::BEAT_COUNT;

verus! {

/// Status byte of a note-on frame.
pub const NOTE_ON: u8 = 144;

/// Status byte of a note-off frame.
pub const NOTE_OFF: u8 = 128;

/// Status byte of a control-change frame.
pub const CONTROL_CHANGE: u8 = 176;

/// Controller number of the master velocity knob.
pub const MASTER_KNOB: u8 = 62;

/// Controller number of the first velocity knob of the upper row.
pub const UPPER_ROW: u8 = 19;

/// Controller number of the first velocity knob of the lower row.
pub const LOWER_ROW: u8 = 49;

/// Velocity that switches a light on.
pub const LIGHT_ON: u8 = 127;

/// Velocity that switches a light off.
pub const LIGHT_OFF: u8 = 0;

/// What one frame from the controller asks for.
#[derive(Clone, Copy, Debug, PartialEq, Eq, Structural)]
pub enum ControllerEvent {
    /// The tap button of a beat was pressed.
    Tap(usize),
    /// The reset button of a beat was pressed.
    Reset(usize),
    /// The velocity knob of a beat was turned.
    Velocity(usize, Velocity),
    /// The master velocity knob was turned.
    MasterVelocity(Velocity),
    /// Anything else: dropped without effect.
    Ignored,
}

impl ControllerEvent {
    /// A beat the event names is one of the controller's beats, and a
    /// velocity it carries lies in `[0, 1]`.
    pub open spec fn valid(self) -> bool {
        match self {
            ControllerEvent::Tap(beat) => beat < BEAT_COUNT,
            ControllerEvent::Reset(beat) => beat < BEAT_COUNT,
            ControllerEvent::Velocity(beat, velocity) => beat < BEAT_COUNT && velocity.valid(),
            ControllerEvent::MasterVelocity(velocity) => velocity.valid(),
            ControllerEvent::Ignored => true,
        }
    }
}

/// A note-on command for the controller: it sets the light of button
/// `note`, on at velocity 127 and off at 0.
#[derive(Clone, Copy, Debug, PartialEq, Eq, Structural)]
pub struct NoteOn {
    pub note: u8,
    pub velocity: u8,
}

impl NoteOn {
    /// The three bytes that go to the controller.
    pub open spec fn frame(self) -> Seq<u8> {
        seq![NOTE_ON, self.note, self.velocity]
    }

    pub fn bytes(&self) -> (out: Vec<u8>)
        ensures
            out@ == self.frame(),
    {
        let mut out: Vec<u8> = Vec::new();
        out.push(NOTE_ON);
        out.push(self.note);
        out.push(self.velocity);
        assert(out@ =~= self.frame());
        out
    }
}

/// Note number of the tap button of `beat`, which carries its main light.
pub open spec fn tap_note(beat: int) -> int {
    1 + 3 * beat
}

/// Note number of the reset button of `beat`, which carries its reset light.
pub open spec fn reset_note(beat: int) -> int {
    3 + 3 * beat
}

/// Controller number of the velocity knob of `beat`: four on the upper row,
/// four on the lower.
pub open spec fn knob_of(beat: int) -> int {
    if beat < 4 {
        UPPER_ROW + 4 * beat
    } else {
        LOWER_ROW + 4 * (beat - 4)
    }
}

/// `note` is the tap button of some beat.
pub open spec fn is_tap_note(note: u8) -> bool {
    1 <= note <= 22 && note % 3 == 1
}

/// `note` is the reset button of some beat.
pub open spec fn is_reset_note(note: u8) -> bool {
    3 <= note <= 24 && note % 3 == 0
}

/// `knob` is the velocity knob of some beat.
pub open spec fn is_velocity_knob(knob: u8) -> bool {
    ||| UPPER_ROW <= knob <= UPPER_ROW + 12 && (knob - UPPER_ROW) % 4 == 0
    ||| LOWER_ROW <= knob <= LOWER_ROW + 12 && (knob - LOWER_ROW) % 4 == 0
}

/// The beat whose velocity knob is `knob`.
pub open spec fn beat_of_knob(knob: u8) -> int {
    if knob < LOWER_ROW {
        (knob - UPPER_ROW) / 4
    } else {
        4 + (knob - LOWER_ROW) / 4
    }
}

/// What a frame means. A frame has a status byte and two data bytes; one
/// with fewer than three bytes is malformed, and so is a control change
/// whose value is above 127. Both are dropped, like every frame that the
/// layout does not map.
pub open spec fn decoded(frame: Seq<u8>) -> ControllerEvent {
    if frame.len() < 3 {
        ControllerEvent::Ignored
    } else if frame[0] == NOTE_ON {
        if is_tap_note(frame[1]) {
            ControllerEvent::Tap(((frame[1] - 1) / 3) as usize)
        } else if is_reset_note(frame[1]) {
            ControllerEvent::Reset(((frame[1] - 3) / 3) as usize)
        } else {
            ControllerEvent::Ignored
        }
    } else if frame[0] == CONTROL_CHANGE && frame[2] <= DATA_MAX {
        if is_velocity_knob(frame[1]) {
            ControllerEvent::Velocity(beat_of_knob(frame[1]) as usize, Velocity { raw: frame[2] })
        } else if frame[1] == MASTER_KNOB {
            ControllerEvent::MasterVelocity(Velocity { raw: frame[2] })
        } else {
            ControllerEvent::Ignored
        }
    } else {
        ControllerEvent::Ignored
    }
}

/// Decodes one frame from the controller.
pub fn decode(frame: &[u8]) -> (event: ControllerEvent)
    ensures
        event == decoded(frame@),
        event.valid(),
{
    if frame.len() < 3 {
        return ControllerEvent::Ignored;
    }
    let status: u8 = frame[0];
    let index: u8 = frame[1];
    let value: u8 = frame[2];
    if status == NOTE_ON {
        if 1 <= index && index <= 22 && index % 3 == 1 {
            ControllerEvent::Tap(((index - 1) / 3) as usize)
        } else if 3 <= index && index <= 24 && index % 3 == 0 {
            ControllerEvent::Reset(((index - 3) / 3) as usize)
        } else {
            ControllerEvent::Ignored
        }
    } else if status == CONTROL_CHANGE && value <= DATA_MAX {
        if UPPER_ROW <= index && index <= UPPER_ROW + 12 && (index - UPPER_ROW) % 4 == 0 {
            ControllerEvent::Velocity(((index - UPPER_ROW) / 4) as usize, Velocity { raw: value })
        } else if LOWER_ROW <= index && index <= LOWER_ROW + 12 && (index - LOWER_ROW) % 4 == 0 {
            ControllerEvent::Velocity(
                (4 + (index - LOWER_ROW) / 4) as usize,
                Velocity { raw: value },
            )
        } else if index == MASTER_KNOB {
            ControllerEvent::MasterVelocity(Velocity { raw: value })
        } else {
            ControllerEvent::Ignored
        }
    } else {
        ControllerEvent::Ignored
    }
}

/// Every beat's tap button decodes to a tap of that beat, its reset button
/// to a reset of it, and its velocity knob to its velocity, whatever the
/// third byte of a note-on and for every value a knob can send.
pub proof fn lemma_layout_round_trip(beat: int, value: u8)
    requires
        0 <= beat < BEAT_COUNT,
    ensures
        decoded(seq![NOTE_ON, tap_note(beat) as u8, value]) == ControllerEvent::Tap(beat as usize),
        decoded(seq![NOTE_ON, reset_note(beat) as u8, value]) == ControllerEvent::Reset(
            beat as usize,
        ),
        value <= DATA_MAX ==> decoded(seq![CONTROL_CHANGE, knob_of(beat) as u8, value])
            == ControllerEvent::Velocity(beat as usize, Velocity { raw: value }),
{
}

/// Note-off frames, and frames of any status other than note-on and control
/// change, are dropped.
pub proof fn lemma_other_status_is_ignored(frame: Seq<u8>)
    requires
        frame.len() < 3 || frame[0] == NOTE_OFF || (frame[0] != NOTE_ON && frame[0]
            != CONTROL_CHANGE),
    ensures
        decoded(frame) == ControllerEvent::Ignored,
{
}

/// A frame names a beat only through a button or knob of that beat, and
/// every beat a frame names is one of the controller's.
pub proof fn lemma_decoded_names_its_button(frame: Seq<u8>)
    ensures
        decoded(frame) matches ControllerEvent::Tap(beat) ==> frame[1] == tap_note(beat as int),
        decoded(frame) matches ControllerEvent::Reset(beat) ==> frame[1] == reset_note(
            beat as int,
        ),
        decoded(frame) matches ControllerEvent::Velocity(beat, _) ==> frame[1] == knob_of(
            beat as int,
        ),
        decoded(frame).valid(),
{
}

} // verus!
