//! The input actor: it takes the controller's frames, keeps one tap-tempo
//! estimator per beat, and tells the other two actors what has changed.
//!
//! A tap is recorded at the time it arrives and the beat's estimate is
//! brought up to date; both other actors get the beat's tempo and phase,
//! and the beat's reset light goes off. A reset clears the beat's samples
//! and lights its reset light. A knob sends its velocity to the broadcast
//! actor. Everything else is dropped.

use vstd::prelude::*;
use crate::broadcast::BroadcastMessage;
use crate::feedback::FeedbackMessage;
use crate::protocol::{decode, decoded, reset_note, ControllerEvent, LIGHT_OFF, LIGHT_ON};
use crate::taptempo::{tap, TapTempo, TapTempoView};
use crate::tempo::Millis;
use crate::BEAT_COUNT;

verus! {

/// The messages one frame gives rise to, for each of the other actors, in
/// the order they are to be queued.
pub struct Routing {
    pub feedback: Vec<FeedbackMessage>,
    pub broadcast: Vec<BroadcastMessage>,
}

/// The estimators after `event` at time `now`.
pub open spec fn handled(tappers: Seq<TapTempoView>, event: ControllerEvent, now: Millis) -> Seq<
    TapTempoView,
> {
    match event {
        ControllerEvent::Tap(beat) => tappers.update(
            beat as int,
            tappers[beat as int].with_sample(now).estimated(),
        ),
        ControllerEvent::Reset(beat) => tappers.update(
            beat as int,
            tappers[beat as int].cleared(),
        ),
        _ => tappers,
    }
}

/// What the feedback actor is told of `event`, given the estimators after
/// it.
pub open spec fn feedback_for(tappers: Seq<TapTempoView>, event: ControllerEvent) -> Seq<
    FeedbackMessage,
> {
    match event {
        ControllerEvent::Tap(beat) => seq![
            FeedbackMessage::UpdateBeat(
                beat,
                tappers[beat as int].frequency,
                tappers[beat as int].phase,
            ),
            FeedbackMessage::SendNoteOn(reset_note(beat as int) as u8, LIGHT_OFF),
        ],
        ControllerEvent::Reset(beat) => seq![
            FeedbackMessage::SendNoteOn(reset_note(beat as int) as u8, LIGHT_ON),
        ],
        _ => Seq::empty(),
    }
}

/// What the broadcast actor is told of `event`, given the estimators after
/// it.
pub open spec fn broadcast_for(tappers: Seq<TapTempoView>, event: ControllerEvent) -> Seq<
    BroadcastMessage,
> {
    match event {
        ControllerEvent::Tap(beat) => seq![
            BroadcastMessage::UpdateBeat(
                beat,
                tappers[beat as int].frequency,
                tappers[beat as int].phase,
            ),
        ],
        ControllerEvent::Velocity(beat, velocity) => seq![
            BroadcastMessage::UpdateVelocity(beat, velocity),
        ],
        ControllerEvent::MasterVelocity(velocity) => seq![
            BroadcastMessage::UpdateMasterVelocity(velocity),
        ],
        _ => Seq::empty(),
    }
}

/// The input actor.
pub struct InputActor {
    tappers: Vec<TapTempo>,
}

impl View for InputActor {
    type V = Seq<TapTempoView>;

    closed spec fn view(&self) -> Seq<TapTempoView> {
        Seq::new(self.tappers@.len(), |i: int| self.tappers@[i]@)
    }
}

impl InputActor {
    /// There is one estimator per beat, and each holds a valid estimate.
    pub open spec fn wf(&self) -> bool {
        &&& self@.len() == BEAT_COUNT
        &&& forall|i: int| 0 <= i < BEAT_COUNT ==> (#[trigger] self@[i]).valid()
    }

    /// An actor whose estimators are all new.
    pub fn new() -> (actor: InputActor)
        ensures
            actor.wf(),
            forall|i: int| 0 <= i < BEAT_COUNT ==> #[trigger] actor@[i] == TapTempoView::idle(),
    {
        let mut tappers: Vec<TapTempo> = Vec::new();
        let mut i: usize = 0;
        while i < BEAT_COUNT
            invariant
                i <= BEAT_COUNT,
                tappers@.len() == i,
                forall|j: int| 0 <= j < i ==> (#[trigger] tappers@[j])@ == TapTempoView::idle(),
            decreases BEAT_COUNT - i,
        {
            tappers.push(TapTempo::new());
            i = i + 1;
        }
        InputActor { tappers }
    }

    /// The estimator of `beat`.
    pub fn tapper(&self, beat: usize) -> (t: &TapTempo)
        requires
            self.wf(),
            beat < BEAT_COUNT,
        ensures
            t@ == self@[beat as int],
    {
        &self.tappers[beat]
    }

    /// Takes one decoded event at time `now`.
    pub fn apply(&mut self, event: ControllerEvent, now: Millis) -> (out: Routing)
        requires
            old(self).wf(),
            event.valid(),
        ensures
            final(self).wf(),
            final(self)@ == handled(old(self)@, event, now),
            out.feedback@ == feedback_for(final(self)@, event),
            out.broadcast@ == broadcast_for(final(self)@, event),
            forall|i: int| 0 <= i < out.feedback@.len() ==> (#[trigger] out.feedback@[i]).valid(),
            forall|i: int|
                0 <= i < out.broadcast@.len() ==> (#[trigger] out.broadcast@[i]).valid(),
    {
        let mut feedback: Vec<FeedbackMessage> = Vec::new();
        let mut broadcast: Vec<BroadcastMessage> = Vec::new();
        match event {
            ControllerEvent::Tap(beat) => {
                tap(&mut self.tappers[beat], now);
                let frequency = self.tappers[beat].frequency();
                let phase = self.tappers[beat].phase();
                broadcast.push(BroadcastMessage::UpdateBeat(beat, frequency, phase));
                feedback.push(FeedbackMessage::UpdateBeat(beat, frequency, phase));
                feedback.push(FeedbackMessage::SendNoteOn((3 + 3 * beat) as u8, LIGHT_OFF));
            },
            ControllerEvent::Reset(beat) => {
                self.tappers[beat].reset();
                feedback.push(FeedbackMessage::SendNoteOn((3 + 3 * beat) as u8, LIGHT_ON));
            },
            ControllerEvent::Velocity(beat, velocity) => {
                broadcast.push(BroadcastMessage::UpdateVelocity(beat, velocity));
            },
            ControllerEvent::MasterVelocity(velocity) => {
                broadcast.push(BroadcastMessage::UpdateMasterVelocity(velocity));
            },
            ControllerEvent::Ignored => {},
        }
        proof {
            assert(self@ =~= handled(old(self)@, event, now));
            assert(feedback@ =~= feedback_for(self@, event));
            assert(broadcast@ =~= broadcast_for(self@, event));
        }
        Routing { feedback, broadcast }
    }

    /// Takes one frame from the controller at time `now`.
    pub fn handle(&mut self, frame: &[u8], now: Millis) -> (out: Routing)
        requires
            old(self).wf(),
        ensures
            final(self).wf(),
            final(self)@ == handled(old(self)@, decoded(frame@), now),
            out.feedback@ == feedback_for(final(self)@, decoded(frame@)),
            out.broadcast@ == broadcast_for(final(self)@, decoded(frame@)),
            forall|i: int| 0 <= i < out.feedback@.len() ==> (#[trigger] out.feedback@[i]).valid(),
            forall|i: int|
                0 <= i < out.broadcast@.len() ==> (#[trigger] out.broadcast@[i]).valid(),
    {
        let event = decode(frame);
        self.apply(event, now)
    }
}

} // verus!
