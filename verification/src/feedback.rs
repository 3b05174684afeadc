//! The feedback actor: it mirrors each beat's tempo and phase, and keeps the
//! controller's lights in step with them.
//!
//! Once per period the actor takes what has arrived, then looks at every
//! beat: the main light of a beat is on during the first half of its cycle
//! and off during the second, and a command goes out only when a beat has
//! changed halves since the last look. A termination message ends the run:
//! every light is switched off, and nothing is sent after that.

use vstd::prelude::*;
use crate::beat::Beat;
use crate::protocol::{reset_note, tap_note, NoteOn, LIGHT_OFF, LIGHT_ON};
use crate::tempo::{Frequency, Millis, Phase};
use crate::BEAT_COUNT;

verus! {

/// A message to the feedback actor.
#[derive(Clone, Copy, Debug, PartialEq, Eq, Structural)]
pub enum FeedbackMessage {
    /// End the run.
    Terminate,
    /// A beat has a new tempo and phase offset.
    UpdateBeat(usize, Frequency, Phase),
    /// Send a note-on with this note and velocity to the controller.
    SendNoteOn(u8, u8),
}

impl FeedbackMessage {
    /// A beat the message names is one of the controller's beats, and the
    /// tempo and offset it carries are valid.
    pub open spec fn valid(self) -> bool {
        match self {
            FeedbackMessage::UpdateBeat(beat, frequency, phase) => {
                beat < BEAT_COUNT && frequency.valid() && phase.valid()
            },
            _ => true,
        }
    }

    pub fn is_valid(&self) -> (ok: bool)
        ensures
            ok == self.valid(),
    {
        match self {
            FeedbackMessage::UpdateBeat(beat, frequency, phase) => {
                *beat < BEAT_COUNT && frequency.is_valid() && phase.is_valid()
            },
            _ => true,
        }
    }

    /// The commands that go to the controller on this message: the one it
    /// asks for, every light off on termination, none on an update.
    pub open spec fn answer(self) -> Seq<NoteOn> {
        match self {
            FeedbackMessage::Terminate => lights_out(BEAT_COUNT as nat),
            FeedbackMessage::UpdateBeat(_, _, _) => Seq::empty(),
            FeedbackMessage::SendNoteOn(note, velocity) => seq![NoteOn { note, velocity }],
        }
    }
}

/// The commands that switch off the main light and the reset light of each
/// of the first `upto` beats, beat by beat.
pub open spec fn lights_out(upto: nat) -> Seq<NoteOn>
    decreases upto,
{
    if upto == 0 {
        Seq::empty()
    } else {
        let beat = (upto - 1) as int;
        lights_out((upto - 1) as nat).push(
            NoteOn { note: tap_note(beat) as u8, velocity: LIGHT_OFF },
        ).push(NoteOn { note: reset_note(beat) as u8, velocity: LIGHT_OFF })
    }
}

/// What the feedback actor knows: the beats, which main lights it last set
/// on, and whether it still runs.
pub struct FeedbackView {
    pub beats: Seq<Beat>,
    pub lit: Seq<bool>,
    pub running: bool,
}

impl FeedbackView {
    pub open spec fn wf(self) -> bool {
        &&& self.beats.len() == BEAT_COUNT
        &&& self.lit.len() == BEAT_COUNT
        &&& forall|i: int| 0 <= i < BEAT_COUNT ==> (#[trigger] self.beats[i]).valid()
    }

    /// The state after one message.
    pub open spec fn received(self, message: FeedbackMessage) -> FeedbackView {
        match message {
            FeedbackMessage::Terminate => FeedbackView { running: false, ..self },
            FeedbackMessage::UpdateBeat(beat, frequency, phase) => FeedbackView {
                beats: self.beats.update(
                    beat as int,
                    Beat { frequency, phase, ..self.beats[beat as int] },
                ),
                ..self
            },
            FeedbackMessage::SendNoteOn(_, _) => self,
        }
    }

    /// The state after the messages of `inbox`, taken in order up to the
    /// first termination message. A stopped actor takes none.
    pub open spec fn drained(self, inbox: Seq<FeedbackMessage>) -> FeedbackView
        decreases inbox.len(),
    {
        if inbox.len() == 0 || !self.running {
            self
        } else {
            self.received(inbox.first()).drained(inbox.skip(1))
        }
    }

    /// The commands sent while taking the messages of `inbox`.
    pub open spec fn drain_commands(self, inbox: Seq<FeedbackMessage>) -> Seq<NoteOn>
        decreases inbox.len(),
    {
        if inbox.len() == 0 || !self.running {
            Seq::empty()
        } else {
            inbox.first().answer() + self.received(inbox.first()).drain_commands(inbox.skip(1))
        }
    }

    /// Beat `beat` is in the first half of its cycle at `now`.
    pub open spec fn bip(self, beat: int, now: int) -> bool {
        self.beats[beat].position(now).first_half()
    }

    /// The command for the main light of `beat` at `now`: one if the beat
    /// is in another half than the light shows, none if the light is right.
    pub open spec fn edge(self, beat: int, now: int) -> Seq<NoteOn> {
        if self.bip(beat, now) != self.lit[beat] {
            seq![
                NoteOn {
                    note: tap_note(beat) as u8,
                    velocity: if self.bip(beat, now) {
                        LIGHT_ON
                    } else {
                        LIGHT_OFF
                    },
                },
            ]
        } else {
            Seq::empty()
        }
    }

    /// The light commands of the first `upto` beats at `now`, beat by beat.
    pub open spec fn edges(self, now: int, upto: nat) -> Seq<NoteOn>
        decreases upto,
    {
        if upto == 0 {
            Seq::empty()
        } else {
            self.edges(now, (upto - 1) as nat) + self.edge(upto - 1, now)
        }
    }

    /// The state after a look at every beat at `now`: each light shows the
    /// half its beat is in.
    pub open spec fn ticked(self, now: int) -> FeedbackView {
        FeedbackView { lit: Seq::new(BEAT_COUNT as nat, |beat: int| self.bip(beat, now)), ..self }
    }

    /// The state after one period: the inbox is taken, and an actor that
    /// still runs then looks at every beat.
    pub open spec fn stepped(self, inbox: Seq<FeedbackMessage>, now: int) -> FeedbackView {
        let taken = self.drained(inbox);
        if taken.running {
            taken.ticked(now)
        } else {
            taken
        }
    }

    /// The commands sent in one period, in the order they are sent.
    pub open spec fn step_commands(self, inbox: Seq<FeedbackMessage>, now: int) -> Seq<NoteOn> {
        let taken = self.drained(inbox);
        if taken.running {
            self.drain_commands(inbox) + taken.edges(now, BEAT_COUNT as nat)
        } else {
            self.drain_commands(inbox)
        }
    }
}

/// The feedback actor.
pub struct FeedbackActor {
    beats: [Beat; BEAT_COUNT],
    lit: [bool; BEAT_COUNT],
    running: bool,
}

impl View for FeedbackActor {
    type V = FeedbackView;

    closed spec fn view(&self) -> FeedbackView {
        FeedbackView { beats: self.beats@, lit: self.lit@, running: self.running }
    }
}

impl FeedbackActor {
    /// A running actor whose beats are all new and whose lights are all off.
    pub fn new() -> (actor: FeedbackActor)
        ensures
            actor@.wf(),
            actor@.running,
            actor@.beats == Seq::new(BEAT_COUNT as nat, |i: int| Beat::new_spec()),
            actor@.lit == Seq::new(BEAT_COUNT as nat, |i: int| false),
    {
        let actor = FeedbackActor {
            beats: [Beat::new();BEAT_COUNT],
            lit: [false;BEAT_COUNT],
            running: true,
        };
        assert(actor@.beats =~= Seq::new(BEAT_COUNT as nat, |i: int| Beat::new_spec()));
        assert(actor@.lit =~= Seq::new(BEAT_COUNT as nat, |i: int| false));
        actor
    }

    pub fn is_running(&self) -> (running: bool)
        ensures
            running == self@.running,
    {
        self.running
    }

    /// Appends the commands that switch every light off.
    fn switch_off(out: &mut Vec<NoteOn>)
        ensures
            final(out)@ == old(out)@ + lights_out(BEAT_COUNT as nat),
    {
        let mut beat: usize = 0;
        while beat < BEAT_COUNT
            invariant
                beat <= BEAT_COUNT,
                out@ == old(out)@ + lights_out(beat as nat),
            decreases BEAT_COUNT - beat,
        {
            let note: u8 = (1 + 3 * beat) as u8;
            out.push(NoteOn { note, velocity: LIGHT_OFF });
            out.push(NoteOn { note: note + 2, velocity: LIGHT_OFF });
            beat = beat + 1;
        }
    }

    /// Takes one message.
    fn receive(&mut self, message: FeedbackMessage, out: &mut Vec<NoteOn>)
        requires
            old(self)@.wf(),
            message.valid(),
        ensures
            final(self)@.wf(),
            final(self)@ == old(self)@.received(message),
            final(out)@ == old(out)@ + message.answer(),
    {
        match message {
            FeedbackMessage::Terminate => {
                self.running = false;
                Self::switch_off(out);
            },
            FeedbackMessage::UpdateBeat(beat, frequency, phase) => {
                let mut updated: Beat = self.beats[beat];
                updated.frequency = frequency;
                updated.phase = phase;
                self.beats[beat] = updated;
            },
            FeedbackMessage::SendNoteOn(note, velocity) => {
                out.push(NoteOn { note, velocity });
            },
        }
    }

    /// Looks at every beat and sets the lights that are wrong.
    fn tick(&mut self, now: Millis, out: &mut Vec<NoteOn>)
        requires
            old(self)@.wf(),
        ensures
            final(self)@.wf(),
            final(self)@ == old(self)@.ticked(now as int),
            final(out)@ == old(out)@ + old(self)@.edges(now as int, BEAT_COUNT as nat),
    {
        let mut beat: usize = 0;
        while beat < BEAT_COUNT
            invariant
                beat <= BEAT_COUNT,
                self@.wf(),
                self@.beats == old(self)@.beats,
                self@.running == old(self)@.running,
                forall|i: int| 0 <= i < beat ==> self@.lit[i] == old(self)@.bip(i, now as int),
                forall|i: int| beat <= i < BEAT_COUNT ==> self@.lit[i] == old(self)@.lit[i],
                out@ == old(out)@ + old(self)@.edges(now as int, beat as nat),
            decreases BEAT_COUNT - beat,
        {
            let bip: bool = self.beats[beat].eval(now).is_first_half();
            if bip != self.lit[beat] {
                let note: u8 = (1 + 3 * beat) as u8;
                out.push(
                    NoteOn {
                        note,
                        velocity: if bip {
                            LIGHT_ON
                        } else {
                            LIGHT_OFF
                        },
                    },
                );
            }
            self.lit[beat] = bip;
            beat = beat + 1;
        }
        assert(self@.lit =~= old(self)@.ticked(now as int).lit);
    }

    /// Runs one period at time `now`: takes the messages of `inbox` in
    /// order, up to the first termination message, and then, unless the
    /// run has ended, looks at every beat. Returns the commands for the
    /// controller in the order they are to be sent.
    pub fn step(&mut self, inbox: &[FeedbackMessage], now: Millis) -> (out: Vec<NoteOn>)
        requires
            old(self)@.wf(),
            forall|i: int| 0 <= i < inbox@.len() ==> (#[trigger] inbox@[i]).valid(),
        ensures
            final(self)@.wf(),
            final(self)@ == old(self)@.stepped(inbox@, now as int),
            out@ == old(self)@.step_commands(inbox@, now as int),
            !old(self)@.running ==> out@.len() == 0 && final(self)@ == old(self)@,
    {
        let mut out: Vec<NoteOn> = Vec::new();
        let mut i: usize = 0;
        proof {
            assert(inbox@.skip(0) =~= inbox@);
            assert(out@ + self@.drain_commands(inbox@) =~= self@.drain_commands(inbox@));
        }
        while i < inbox.len() && self.running
            invariant
                i <= inbox@.len(),
                self@.wf(),
                forall|i: int| 0 <= i < inbox@.len() ==> (#[trigger] inbox@[i]).valid(),
                self@.drained(inbox@.skip(i as int)) == old(self)@.drained(inbox@),
                out@ + self@.drain_commands(inbox@.skip(i as int)) == old(self)@.drain_commands(
                    inbox@,
                ),
            decreases inbox@.len() - i,
        {
            proof {
                assert(inbox@.skip(i as int).skip(1) =~= inbox@.skip(i + 1));
                assert(inbox@.skip(i as int).first() == inbox@[i as int]);
            }
            let ghost before = out@;
            self.receive(inbox[i], &mut out);
            assert(out@ + self@.drain_commands(inbox@.skip(i + 1)) =~= before + (
            inbox@[i as int].answer() + self@.drain_commands(inbox@.skip(i + 1))));
            i = i + 1;
        }
        if self.running {
            self.tick(now, &mut out);
        }
        out
    }
}

/// After a look at `now`, the light of a beat gets a command at a later
/// look exactly when the beat has changed halves in between, and that one
/// command switches the light to the half the beat is in: on for the
/// first, off for the second. A light that is right gets none.
pub proof fn lemma_edge_follows_crossing(state: FeedbackView, beat: int, now: int, later: int)
    requires
        state.wf(),
        0 <= beat < BEAT_COUNT,
    ensures
        state.ticked(now).lit[beat] == state.bip(beat, now),
        state.bip(beat, later) == state.bip(beat, now) ==> state.ticked(now).edge(beat, later)
            == Seq::<NoteOn>::empty(),
        state.bip(beat, later) != state.bip(beat, now) ==> state.ticked(now).edge(beat, later)
            == seq![
            NoteOn {
                note: tap_note(beat) as u8,
                velocity: if state.bip(beat, later) {
                    LIGHT_ON
                } else {
                    LIGHT_OFF
                },
            },
        ],
{
}

/// While none of the first `upto` beats changes halves, a further look
/// sends nothing for them.
proof fn lemma_silent_prefix(state: FeedbackView, now: int, later: int, upto: nat)
    requires
        state.wf(),
        upto <= BEAT_COUNT,
        forall|beat: int|
            0 <= beat < BEAT_COUNT ==> state.bip(beat, later) == state.bip(beat, now),
    ensures
        state.ticked(now).edges(later, upto) == Seq::<NoteOn>::empty(),
    decreases upto,
{
    if upto > 0 {
        lemma_silent_prefix(state, now, later, (upto - 1) as nat);
        lemma_edge_follows_crossing(state, upto - 1, now, later);
    }
}

/// While no beat changes halves, a further look sends nothing and leaves
/// the lights as they are: no command is repeated for a state that has not
/// changed.
pub proof fn lemma_steady_state_is_silent(state: FeedbackView, now: int, later: int)
    requires
        state.wf(),
        forall|beat: int|
            0 <= beat < BEAT_COUNT ==> state.bip(beat, later) == state.bip(beat, now),
    ensures
        state.ticked(now).edges(later, BEAT_COUNT as nat) == Seq::<NoteOn>::empty(),
        state.ticked(now).ticked(later) == state.ticked(now),
{
    lemma_silent_prefix(state, now, later, BEAT_COUNT as nat);
    assert(state.ticked(now).ticked(later).lit =~= state.ticked(now).lit);
}

/// The commands of one look are one per beat at most, in the order of the
/// beats.
pub proof fn lemma_edges_bounded(state: FeedbackView, now: int, upto: nat)
    ensures
        state.edges(now, upto).len() <= upto,
    decreases upto,
{
    if upto > 0 {
        lemma_edges_bounded(state, now, (upto - 1) as nat);
    }
}

/// A stopped actor takes no message, looks at no beat and sends nothing.
pub proof fn lemma_stopped_is_final(state: FeedbackView, inbox: Seq<FeedbackMessage>, now: int)
    requires
        !state.running,
    ensures
        state.stepped(inbox, now) == state,
        state.step_commands(inbox, now) == Seq::<NoteOn>::empty(),
{
}

/// A termination message ends the run. What arrived before it is taken as
/// usual, then every light is switched off; the actor is stopped, and
/// neither the messages behind the termination message nor the beats cause
/// anything more to be sent.
pub proof fn lemma_terminate_ends_run(
    state: FeedbackView,
    before: Seq<FeedbackMessage>,
    after: Seq<FeedbackMessage>,
    now: int,
)
    requires
        state.running,
        forall|i: int| 0 <= i < before.len() ==> before[i] != FeedbackMessage::Terminate,
    ensures
        state.drained(before).running,
        !state.stepped(before + seq![FeedbackMessage::Terminate] + after, now).running,
        state.stepped(before + seq![FeedbackMessage::Terminate] + after, now) == state.drained(
            before,
        ).received(FeedbackMessage::Terminate),
        state.step_commands(before + seq![FeedbackMessage::Terminate] + after, now)
            == state.drain_commands(before) + lights_out(BEAT_COUNT as nat),
    decreases before.len(),
{
    let inbox = before + seq![FeedbackMessage::Terminate] + after;
    assert(inbox.first() == if before.len() == 0 {
        FeedbackMessage::Terminate
    } else {
        before.first()
    });
    if before.len() == 0 {
        let stopped = state.received(FeedbackMessage::Terminate);
        assert(!stopped.running);
        assert(stopped.drained(inbox.skip(1)) == stopped);
        assert(stopped.drain_commands(inbox.skip(1)) == Seq::<NoteOn>::empty());
        assert(state.drain_commands(inbox) =~= lights_out(BEAT_COUNT as nat));
        assert(state.drain_commands(before) + lights_out(BEAT_COUNT as nat) =~= lights_out(
            BEAT_COUNT as nat,
        ));
    } else {
        let next = state.received(before.first());
        assert(next.running);
        lemma_terminate_ends_run(next, before.skip(1), after, now);
        assert(inbox.skip(1) =~= before.skip(1) + seq![FeedbackMessage::Terminate] + after);
        assert(state.drain_commands(inbox) =~= state.drain_commands(before) + lights_out(
            BEAT_COUNT as nat,
        ));
    }
}

} // verus!
