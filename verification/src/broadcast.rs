//! The broadcast actor: it mirrors each beat's tempo, phase and velocity,
//! and reports them to the rig once per period.
//!
//! Each period the actor takes what has arrived and then sends one packet
//! per beat, with the beat's cycle position, tempo, phase offset and
//! velocity under the master velocity, followed by one packet with the
//! time. A termination message ends the run at once: nothing more is sent.

use vstd::prelude::*;
use crate::beat::{lemma_position_in_unit_interval, Beat};
use crate::tempo::{Frequency, Level, Millis, Phase, Position, Velocity};
use crate::BEAT_COUNT;

verus! {

/// A message to the broadcast actor.
#[derive(Clone, Copy, Debug, PartialEq, Eq, Structural)]
pub enum BroadcastMessage {
    /// End the run.
    Terminate,
    /// A beat has a new tempo and phase offset.
    UpdateBeat(usize, Frequency, Phase),
    /// A beat has a new velocity.
    UpdateVelocity(usize, Velocity),
    /// The master velocity has changed.
    UpdateMasterVelocity(Velocity),
}

impl BroadcastMessage {
    /// A beat the message names is one of the controller's beats, and what
    /// it carries is valid.
    pub open spec fn valid(self) -> bool {
        match self {
            BroadcastMessage::Terminate => true,
            BroadcastMessage::UpdateBeat(beat, frequency, phase) => {
                beat < BEAT_COUNT && frequency.valid() && phase.valid()
            },
            BroadcastMessage::UpdateVelocity(beat, velocity) => {
                beat < BEAT_COUNT && velocity.valid()
            },
            BroadcastMessage::UpdateMasterVelocity(velocity) => velocity.valid(),
        }
    }

    pub fn is_valid(&self) -> (ok: bool)
        ensures
            ok == self.valid(),
    {
        match self {
            BroadcastMessage::Terminate => true,
            BroadcastMessage::UpdateBeat(beat, frequency, phase) => {
                *beat < BEAT_COUNT && frequency.is_valid() && phase.is_valid()
            },
            BroadcastMessage::UpdateVelocity(beat, velocity) => {
                *beat < BEAT_COUNT && velocity.is_valid()
            },
            BroadcastMessage::UpdateMasterVelocity(velocity) => velocity.is_valid(),
        }
    }
}

/// What the rig is told of one beat.
#[derive(Clone, Copy, Debug, PartialEq, Eq, Structural)]
pub struct BeatReport {
    /// The beat, counted from 0.
    pub beat: usize,
    /// Where the beat stands in its cycle.
    pub position: Position,
    pub frequency: Frequency,
    pub phase: Phase,
    /// The beat's velocity under the master velocity.
    pub level: Level,
}

/// A packet for the rig.
#[derive(Clone, Copy, Debug, PartialEq, Eq, Structural)]
pub enum Packet {
    /// The state of one beat, addressed to `/beat1` .. `/beat8`.
    Beat(BeatReport),
    /// The time on the clock, addressed to `/time`.
    Time(Millis),
}

impl Packet {
    /// What a packet carries is valid, and its fractions lie in their
    /// ranges: the position in `[0, 1)`, the level in `[0, 1]`.
    pub open spec fn valid(self) -> bool {
        match self {
            Packet::Beat(report) => {
                &&& report.beat < BEAT_COUNT
                &&& report.position.valid()
                &&& report.frequency.valid()
                &&& report.phase.valid()
                &&& report.level.valid()
            },
            Packet::Time(_) => true,
        }
    }

    /// The address a packet is sent to: `/time`, or `/beat` and the beat's
    /// number counted from 1.
    pub open spec fn address_text(self) -> Seq<char> {
        match self {
            Packet::Beat(report) => seq!['/', 'b', 'e', 'a', 't', digit(report.beat + 1)],
            Packet::Time(_) => seq!['/', 't', 'i', 'm', 'e'],
        }
    }

    pub fn address(&self) -> (path: String)
        requires
            self matches Packet::Beat(report) ==> report.beat < BEAT_COUNT,
        ensures
            path@ == self.address_text(),
    {
        proof {
            reveal_strlit("/time");
            reveal_strlit("/beat1");
            reveal_strlit("/beat2");
            reveal_strlit("/beat3");
            reveal_strlit("/beat4");
            reveal_strlit("/beat5");
            reveal_strlit("/beat6");
            reveal_strlit("/beat7");
            reveal_strlit("/beat8");
        }
        let text: &str = match self {
            Packet::Time(_) => "/time",
            Packet::Beat(report) => {
                if report.beat == 0 {
                    "/beat1"
                } else if report.beat == 1 {
                    "/beat2"
                } else if report.beat == 2 {
                    "/beat3"
                } else if report.beat == 3 {
                    "/beat4"
                } else if report.beat == 4 {
                    "/beat5"
                } else if report.beat == 5 {
                    "/beat6"
                } else if report.beat == 6 {
                    "/beat7"
                } else {
                    "/beat8"
                }
            },
        };
        assert(text@ =~= self.address_text());
        String::from_str(text)
    }
}

/// The decimal digit for `n`, for `n` from 0 to 9.
pub open spec fn digit(n: int) -> char {
    if n == 0 {
        '0'
    } else if n == 1 {
        '1'
    } else if n == 2 {
        '2'
    } else if n == 3 {
        '3'
    } else if n == 4 {
        '4'
    } else if n == 5 {
        '5'
    } else if n == 6 {
        '6'
    } else if n == 7 {
        '7'
    } else if n == 8 {
        '8'
    } else {
        '9'
    }
}

/// What the broadcast actor knows: the beats, the master velocity, and
/// whether it still runs.
pub struct BroadcastView {
    pub beats: Seq<Beat>,
    pub master: Velocity,
    pub running: bool,
}

impl BroadcastView {
    pub open spec fn wf(self) -> bool {
        &&& self.beats.len() == BEAT_COUNT
        &&& self.master.valid()
        &&& forall|i: int| 0 <= i < BEAT_COUNT ==> (#[trigger] self.beats[i]).valid()
    }

    /// The state after one message.
    pub open spec fn received(self, message: BroadcastMessage) -> BroadcastView {
        match message {
            BroadcastMessage::Terminate => BroadcastView { running: false, ..self },
            BroadcastMessage::UpdateBeat(beat, frequency, phase) => BroadcastView {
                beats: self.beats.update(
                    beat as int,
                    Beat { frequency, phase, ..self.beats[beat as int] },
                ),
                ..self
            },
            BroadcastMessage::UpdateVelocity(beat, velocity) => BroadcastView {
                beats: self.beats.update(beat as int, Beat { velocity, ..self.beats[beat as int] }),
                ..self
            },
            BroadcastMessage::UpdateMasterVelocity(velocity) => BroadcastView {
                master: velocity,
                ..self
            },
        }
    }

    /// The state after the messages of `inbox`, taken in order up to the
    /// first termination message. A stopped actor takes none.
    pub open spec fn drained(self, inbox: Seq<BroadcastMessage>) -> BroadcastView
        decreases inbox.len(),
    {
        if inbox.len() == 0 || !self.running {
            self
        } else {
            self.received(inbox.first()).drained(inbox.skip(1))
        }
    }

    /// The packet for `beat` at `now`.
    pub open spec fn report(self, beat: int, now: int) -> Packet {
        Packet::Beat(
            BeatReport {
                beat: beat as usize,
                position: self.beats[beat].position(now),
                frequency: self.beats[beat].frequency,
                phase: self.beats[beat].phase,
                level: self.beats[beat].velocity.scaled(self.master),
            },
        )
    }

    /// The packets for the first `upto` beats at `now`, beat by beat.
    pub open spec fn reports(self, now: int, upto: nat) -> Seq<Packet>
        decreases upto,
    {
        if upto == 0 {
            Seq::empty()
        } else {
            self.reports(now, (upto - 1) as nat).push(self.report(upto - 1, now))
        }
    }

    /// The packets of one period in which the run has not ended: one for
    /// each beat, then the time.
    pub open spec fn broadcast(self, now: Millis) -> Seq<Packet> {
        self.reports(now as int, BEAT_COUNT as nat).push(Packet::Time(now))
    }

    /// The packets sent in one period, in the order they are sent.
    pub open spec fn step_packets(self, inbox: Seq<BroadcastMessage>, now: Millis) -> Seq<
        Packet,
    > {
        let taken = self.drained(inbox);
        if taken.running {
            taken.broadcast(now)
        } else {
            Seq::empty()
        }
    }
}

/// The broadcast actor.
pub struct BroadcastActor {
    beats: [Beat; BEAT_COUNT],
    master: Velocity,
    running: bool,
}

impl View for BroadcastActor {
    type V = BroadcastView;

    closed spec fn view(&self) -> BroadcastView {
        BroadcastView { beats: self.beats@, master: self.master, running: self.running }
    }
}

impl BroadcastActor {
    /// A running actor whose beats are all new, at full master velocity.
    pub fn new() -> (actor: BroadcastActor)
        ensures
            actor@.wf(),
            actor@.running,
            actor@.beats == Seq::new(BEAT_COUNT as nat, |i: int| Beat::new_spec()),
            actor@.master == (Velocity { raw: 127 }),
    {
        let actor = BroadcastActor {
            beats: [Beat::new();BEAT_COUNT],
            master: Velocity::full(),
            running: true,
        };
        assert(actor@.beats =~= Seq::new(BEAT_COUNT as nat, |i: int| Beat::new_spec()));
        actor
    }

    pub fn is_running(&self) -> (running: bool)
        ensures
            running == self@.running,
    {
        self.running
    }

    /// Takes one message.
    fn receive(&mut self, message: BroadcastMessage)
        requires
            old(self)@.wf(),
            message.valid(),
        ensures
            final(self)@.wf(),
            final(self)@ == old(self)@.received(message),
    {
        match message {
            BroadcastMessage::Terminate => {
                self.running = false;
            },
            BroadcastMessage::UpdateBeat(beat, frequency, phase) => {
                let mut updated: Beat = self.beats[beat];
                updated.frequency = frequency;
                updated.phase = phase;
                self.beats[beat] = updated;
            },
            BroadcastMessage::UpdateVelocity(beat, velocity) => {
                let mut updated: Beat = self.beats[beat];
                updated.velocity = velocity;
                self.beats[beat] = updated;
            },
            BroadcastMessage::UpdateMasterVelocity(velocity) => {
                self.master = velocity;
            },
        }
    }

    /// The packets of one period at `now`.
    fn emit(&self, now: Millis) -> (out: Vec<Packet>)
        requires
            self@.wf(),
        ensures
            out@ == self@.broadcast(now),
            forall|i: int| 0 <= i < out@.len() ==> (#[trigger] out@[i]).valid(),
    {
        let mut out: Vec<Packet> = Vec::new();
        let mut beat: usize = 0;
        while beat < BEAT_COUNT
            invariant
                beat <= BEAT_COUNT,
                self@.wf(),
                out@ == self@.reports(now as int, beat as nat),
                forall|i: int| 0 <= i < out@.len() ==> (#[trigger] out@[i]).valid(),
            decreases BEAT_COUNT - beat,
        {
            let current: Beat = self.beats[beat];
            let report = BeatReport {
                beat,
                position: current.eval(now),
                frequency: current.frequency,
                phase: current.phase,
                level: current.velocity.scale(self.master),
            };
            out.push(Packet::Beat(report));
            beat = beat + 1;
        }
        out.push(Packet::Time(now));
        out
    }

    /// Runs one period at time `now`: takes the messages of `inbox` in
    /// order, up to the first termination message, and then, unless the
    /// run has ended, reports every beat and the time. Returns the packets
    /// for the rig in the order they are to be sent.
    pub fn step(&mut self, inbox: &[BroadcastMessage], now: Millis) -> (out: Vec<Packet>)
        requires
            old(self)@.wf(),
            forall|i: int| 0 <= i < inbox@.len() ==> (#[trigger] inbox@[i]).valid(),
        ensures
            final(self)@.wf(),
            final(self)@ == old(self)@.drained(inbox@),
            out@ == old(self)@.step_packets(inbox@, now),
            forall|i: int| 0 <= i < out@.len() ==> (#[trigger] out@[i]).valid(),
            !old(self)@.running ==> out@.len() == 0 && final(self)@ == old(self)@,
    {
        let mut i: usize = 0;
        proof {
            assert(inbox@.skip(0) =~= inbox@);
        }
        while i < inbox.len() && self.running
            invariant
                i <= inbox@.len(),
                self@.wf(),
                forall|i: int| 0 <= i < inbox@.len() ==> (#[trigger] inbox@[i]).valid(),
                self@.drained(inbox@.skip(i as int)) == old(self)@.drained(inbox@),
            decreases inbox@.len() - i,
        {
            proof {
                assert(inbox@.skip(i as int).skip(1) =~= inbox@.skip(i + 1));
                assert(inbox@.skip(i as int).first() == inbox@[i as int]);
            }
            self.receive(inbox[i]);
            i = i + 1;
        }
        if self.running {
            self.emit(now)
        } else {
            Vec::new()
        }
    }
}

/// A stopped actor takes no message and sends nothing.
pub proof fn lemma_stopped_is_final(state: BroadcastView, inbox: Seq<BroadcastMessage>, now: Millis)
    requires
        !state.running,
    ensures
        state.drained(inbox) == state,
        state.step_packets(inbox, now) == Seq::<Packet>::empty(),
{
}

/// A termination message ends the run at once. What arrived before it is
/// taken, the actor is stopped, and nothing is sent: not in this period,
/// whatever follows the termination message, and not in any later one.
pub proof fn lemma_terminate_ends_run(
    state: BroadcastView,
    before: Seq<BroadcastMessage>,
    after: Seq<BroadcastMessage>,
    now: Millis,
)
    requires
        state.running,
        forall|i: int| 0 <= i < before.len() ==> before[i] != BroadcastMessage::Terminate,
    ensures
        state.drained(before).running,
        state.drained(before + seq![BroadcastMessage::Terminate] + after) == state.drained(
            before,
        ).received(BroadcastMessage::Terminate),
        !state.drained(before + seq![BroadcastMessage::Terminate] + after).running,
        state.step_packets(before + seq![BroadcastMessage::Terminate] + after, now) == Seq::<
            Packet,
        >::empty(),
    decreases before.len(),
{
    let inbox = before + seq![BroadcastMessage::Terminate] + after;
    assert(inbox.first() == if before.len() == 0 {
        BroadcastMessage::Terminate
    } else {
        before.first()
    });
    if before.len() == 0 {
        let stopped = state.received(BroadcastMessage::Terminate);
        assert(stopped.drained(inbox.skip(1)) == stopped);
    } else {
        let next = state.received(before.first());
        lemma_terminate_ends_run(next, before.skip(1), after, now);
        assert(inbox.skip(1) =~= before.skip(1) + seq![BroadcastMessage::Terminate] + after);
    }
}

/// The packets of a running period are one for each beat of the
/// controller, in order, each with its position in `[0, 1)` and its level in
/// `[0, 1]`, and the time last.
pub proof fn lemma_broadcast_in_range(state: BroadcastView, now: Millis)
    requires
        state.wf(),
    ensures
        state.broadcast(now).len() == BEAT_COUNT + 1,
        forall|i: int|
            0 <= i < BEAT_COUNT ==> #[trigger] state.broadcast(now)[i] == state.report(
                i,
                now as int,
            ),
        state.broadcast(now)[BEAT_COUNT as int] == Packet::Time(now),
        forall|i: int|
            0 <= i < state.broadcast(now).len() ==> (#[trigger] state.broadcast(now)[i]).valid(),
{
    lemma_reports_in_range(state, now as int, BEAT_COUNT as nat);
    assert forall|i: int| 0 <= i < state.broadcast(now).len() implies (
    #[trigger] state.broadcast(now)[i]).valid() by {
        if i < BEAT_COUNT {
            assert(state.broadcast(now)[i] == state.report(i, now as int));
        }
    }
}

/// The packets of the first `upto` beats, one by one.
proof fn lemma_reports_in_range(state: BroadcastView, now: int, upto: nat)
    requires
        state.wf(),
        upto <= BEAT_COUNT,
    ensures
        state.reports(now, upto).len() == upto,
        forall|i: int|
            0 <= i < upto ==> #[trigger] state.reports(now, upto)[i] == state.report(i, now),
        forall|i: int| 0 <= i < upto ==> (#[trigger] state.report(i, now)).valid(),
    decreases upto,
{
    if upto > 0 {
        lemma_reports_in_range(state, now, (upto - 1) as nat);
        let beat = state.beats[upto - 1];
        lemma_position_in_unit_interval(beat, now);
        assert(beat.velocity.raw * state.master.raw <= 127 * 127) by (nonlinear_arith)
            requires
                beat.velocity.raw <= 127,
                state.master.raw <= 127,
        ;
    }
}

} // verus!
