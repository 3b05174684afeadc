use beatsync::beat::Beat;
use beatsync::broadcast::{BeatReport, BroadcastActor, BroadcastMessage, Packet};
use beatsync::feedback::{FeedbackActor, FeedbackMessage};
use beatsync::input::InputActor;
use beatsync::protocol::{ControllerEvent, NoteOn};
use beatsync::tempo::{Frequency, Level, Phase, Position, Velocity};

fn hertz(f: Frequency) -> f64 {
    1000.0 * f.cycles as f64 / f.millis as f64
}

fn fraction(p: Position) -> f64 {
    p.num as f64 / p.den as f64
}

fn all_main_lights(velocity: u8) -> Vec<NoteOn> {
    (0..8u8).map(|beat| NoteOn { note: 1 + 3 * beat, velocity }).collect()
}

fn all_lights_off() -> Vec<NoteOn> {
    let mut out = Vec::new();
    for beat in 0..8u8 {
        out.push(NoteOn { note: 1 + 3 * beat, velocity: 0 });
        out.push(NoteOn { note: 3 + 3 * beat, velocity: 0 });
    }
    out
}

// ----- feedback actor -----

#[test]
fn feedback_first_look_lights_every_beat_in_its_first_half() {
    let mut actor = FeedbackActor::new();
    assert!(actor.is_running());
    // a new beat stands at position 0 at time 0: first half, light was off
    assert_eq!(actor.step(&[], 0), all_main_lights(127));
}

#[test]
fn feedback_sends_one_command_per_crossing() {
    let mut actor = FeedbackActor::new();
    let mut sent: Vec<Vec<NoteOn>> = Vec::new();
    // a new beat has its cycle start at every whole second
    for now in [0u32, 100, 250, 499, 500, 600, 750, 999, 1000, 1100, 1499, 1500, 1999, 2000] {
        sent.push(actor.step(&[], now));
    }
    let none: Vec<NoteOn> = Vec::new();
    assert_eq!(sent[0], all_main_lights(127));
    assert_eq!(sent[1], none);
    assert_eq!(sent[2], none);
    assert_eq!(sent[3], none);
    assert_eq!(sent[4], all_main_lights(0));
    assert_eq!(sent[5], none);
    assert_eq!(sent[6], none);
    assert_eq!(sent[7], none);
    assert_eq!(sent[8], all_main_lights(127));
    assert_eq!(sent[9], none);
    assert_eq!(sent[10], none);
    assert_eq!(sent[11], all_main_lights(0));
    assert_eq!(sent[12], none);
    assert_eq!(sent[13], all_main_lights(127));
}

#[test]
fn feedback_crossing_from_above_then_below_one_half() {
    let mut actor = FeedbackActor::new();
    let update = FeedbackMessage::UpdateBeat(
        3,
        Frequency { cycles: 1, millis: 1000 },
        Phase { num: 0, den: 1 },
    );
    // at 700 every beat is in its second half: nothing to switch
    assert_eq!(actor.step(&[update], 700), Vec::<NoteOn>::new());
    assert_eq!(actor.step(&[], 900), Vec::<NoteOn>::new());
    assert_eq!(actor.step(&[], 1100), all_main_lights(127));
    assert_eq!(actor.step(&[], 1300), Vec::<NoteOn>::new());
    assert_eq!(actor.step(&[], 1600), all_main_lights(0));
    assert_eq!(actor.step(&[], 1800), Vec::<NoteOn>::new());
}

#[test]
fn feedback_update_moves_one_beat_only() {
    let mut actor = FeedbackActor::new();
    assert_eq!(actor.step(&[], 0), all_main_lights(127));
    // beat 2 now runs at two hertz from the origin: at 300 ms it is at 0.6
    let update = FeedbackMessage::UpdateBeat(
        2,
        Frequency { cycles: 2, millis: 1000 },
        Phase { num: 0, den: 1 },
    );
    assert_eq!(actor.step(&[update], 300), vec![NoteOn { note: 7, velocity: 0 }]);
    assert_eq!(actor.step(&[], 400), Vec::<NoteOn>::new());
    // at 500 ms beat 2 is back at 0, the others reach 0.5
    let mut expected = Vec::new();
    for beat in 0..8u8 {
        let on = beat == 2;
        expected.push(NoteOn { note: 1 + 3 * beat, velocity: if on { 127 } else { 0 } });
    }
    assert_eq!(actor.step(&[], 500), expected);
}

#[test]
fn feedback_last_update_wins() {
    let mut actor = FeedbackActor::new();
    assert_eq!(actor.step(&[], 0), all_main_lights(127));
    let first = FeedbackMessage::UpdateBeat(
        0,
        Frequency { cycles: 2, millis: 1000 },
        Phase { num: 0, den: 1 },
    );
    let second = FeedbackMessage::UpdateBeat(
        0,
        Frequency { cycles: 1, millis: 1000 },
        Phase { num: 0, den: 1 },
    );
    // under the first beat 0 would be at 0.6 at 300 ms, under the second at 0.3
    assert_eq!(actor.step(&[first, second], 300), Vec::<NoteOn>::new());
}

#[test]
fn feedback_forwards_note_commands_before_the_look() {
    let mut actor = FeedbackActor::new();
    let inbox = [FeedbackMessage::SendNoteOn(9, 127), FeedbackMessage::SendNoteOn(3, 0)];
    let mut expected = vec![NoteOn { note: 9, velocity: 127 }, NoteOn { note: 3, velocity: 0 }];
    expected.extend(all_main_lights(127));
    assert_eq!(actor.step(&inbox, 0), expected);
}

#[test]
fn feedback_terminate_switches_every_light_off_and_stops() {
    let mut actor = FeedbackActor::new();
    assert_eq!(actor.step(&[], 0), all_main_lights(127));
    let inbox = [
        FeedbackMessage::SendNoteOn(5, 9),
        FeedbackMessage::Terminate,
        FeedbackMessage::SendNoteOn(6, 1),
        FeedbackMessage::UpdateBeat(
            0,
            Frequency { cycles: 2, millis: 1000 },
            Phase { num: 0, den: 1 },
        ),
    ];
    let mut expected = vec![NoteOn { note: 5, velocity: 9 }];
    expected.extend(all_lights_off());
    // at 500 every beat has changed halves, but the run has ended
    assert_eq!(actor.step(&inbox, 500), expected);
    assert!(!actor.is_running());
}

#[test]
fn feedback_sends_nothing_after_it_stopped() {
    let mut actor = FeedbackActor::new();
    assert_eq!(actor.step(&[FeedbackMessage::Terminate], 0), all_lights_off());
    assert!(!actor.is_running());
    assert_eq!(actor.step(&[], 0), Vec::<NoteOn>::new());
    assert_eq!(actor.step(&[], 500), Vec::<NoteOn>::new());
    assert_eq!(actor.step(&[FeedbackMessage::SendNoteOn(1, 127)], 1000), Vec::<NoteOn>::new());
    assert_eq!(actor.step(&[FeedbackMessage::Terminate], 1500), Vec::<NoteOn>::new());
    assert!(!actor.is_running());
}

#[test]
fn feedback_message_validity() {
    let f = Frequency { cycles: 1, millis: 1000 };
    let p = Phase { num: 0, den: 1 };
    assert!(FeedbackMessage::Terminate.is_valid());
    assert!(FeedbackMessage::SendNoteOn(255, 255).is_valid());
    assert!(FeedbackMessage::UpdateBeat(7, f, p).is_valid());
    assert!(!FeedbackMessage::UpdateBeat(8, f, p).is_valid());
    assert!(!FeedbackMessage::UpdateBeat(0, Frequency { cycles: 1, millis: 0 }, p).is_valid());
    assert!(!FeedbackMessage::UpdateBeat(0, f, Phase { num: 0, den: 0 }).is_valid());
}

// ----- broadcast actor -----

fn report_of(packet: &Packet) -> BeatReport {
    match packet {
        Packet::Beat(report) => *report,
        Packet::Time(_) => panic!("a beat packet was expected"),
    }
}

#[test]
fn broadcast_sends_eight_beats_and_the_time() {
    let mut actor = BroadcastActor::new();
    assert!(actor.is_running());
    let out = actor.step(&[], 250);
    assert_eq!(out.len(), 9);
    for beat in 0..8 {
        let new = Beat::new();
        assert_eq!(
            out[beat],
            Packet::Beat(BeatReport {
                beat,
                position: Position { num: 250, den: 1000 },
                frequency: new.frequency,
                phase: new.phase,
                level: Level { num: 16129 },
            })
        );
    }
    assert_eq!(out[8], Packet::Time(250));
}

#[test]
fn broadcast_addresses() {
    let mut actor = BroadcastActor::new();
    let out = actor.step(&[], 0);
    let addresses: Vec<String> = out.iter().map(|p| p.address()).collect();
    assert_eq!(
        addresses,
        vec![
            "/beat1", "/beat2", "/beat3", "/beat4", "/beat5", "/beat6", "/beat7", "/beat8",
            "/time"
        ]
    );
}

#[test]
fn broadcast_velocity_is_scaled_by_the_master() {
    let mut actor = BroadcastActor::new();
    let inbox = [
        BroadcastMessage::UpdateVelocity(1, Velocity { raw: 64 }),
        BroadcastMessage::UpdateMasterVelocity(Velocity { raw: 100 }),
        BroadcastMessage::UpdateVelocity(5, Velocity { raw: 0 }),
    ];
    let out = actor.step(&inbox, 0);
    assert_eq!(report_of(&out[0]).level, Level { num: 12700 });
    assert_eq!(report_of(&out[1]).level, Level { num: 6400 });
    assert_eq!(report_of(&out[5]).level, Level { num: 0 });
    // the state stays for the next period
    let out = actor.step(&[BroadcastMessage::UpdateMasterVelocity(Velocity { raw: 127 })], 10);
    assert_eq!(report_of(&out[0]).level, Level { num: 16129 });
    assert_eq!(report_of(&out[1]).level, Level { num: 8128 });
}

#[test]
fn broadcast_update_beat_keeps_the_velocity() {
    let mut actor = BroadcastActor::new();
    let f = Frequency { cycles: 2, millis: 1000 };
    let p = Phase { num: 0, den: 1 };
    let inbox = [
        BroadcastMessage::UpdateVelocity(4, Velocity { raw: 10 }),
        BroadcastMessage::UpdateBeat(4, f, p),
    ];
    let out = actor.step(&inbox, 1250);
    let report = report_of(&out[4]);
    assert_eq!(report.frequency, f);
    assert_eq!(report.phase, p);
    assert_eq!(report.level, Level { num: 1270 });
    assert_eq!(report.position, Position { num: 500, den: 1000 });
    assert_eq!(report_of(&out[3]).frequency, Beat::new().frequency);
}

#[test]
fn broadcast_terminate_stops_at_once() {
    let mut actor = BroadcastActor::new();
    assert_eq!(actor.step(&[], 0).len(), 9);
    let inbox = [
        BroadcastMessage::UpdateMasterVelocity(Velocity { raw: 1 }),
        BroadcastMessage::Terminate,
        BroadcastMessage::UpdateMasterVelocity(Velocity { raw: 2 }),
    ];
    assert_eq!(actor.step(&inbox, 10), Vec::<Packet>::new());
    assert!(!actor.is_running());
    assert_eq!(actor.step(&[], 20), Vec::<Packet>::new());
    assert_eq!(
        actor.step(&[BroadcastMessage::UpdateMasterVelocity(Velocity { raw: 3 })], 30),
        Vec::<Packet>::new()
    );
    assert!(!actor.is_running());
}

#[test]
fn broadcast_message_validity() {
    let f = Frequency { cycles: 1, millis: 1000 };
    let p = Phase { num: 0, den: 1 };
    assert!(BroadcastMessage::Terminate.is_valid());
    assert!(BroadcastMessage::UpdateBeat(7, f, p).is_valid());
    assert!(!BroadcastMessage::UpdateBeat(8, f, p).is_valid());
    assert!(BroadcastMessage::UpdateVelocity(0, Velocity { raw: 127 }).is_valid());
    assert!(!BroadcastMessage::UpdateVelocity(0, Velocity { raw: 128 }).is_valid());
    assert!(!BroadcastMessage::UpdateVelocity(8, Velocity { raw: 1 }).is_valid());
    assert!(BroadcastMessage::UpdateMasterVelocity(Velocity { raw: 0 }).is_valid());
    assert!(!BroadcastMessage::UpdateMasterVelocity(Velocity { raw: 200 }).is_valid());
}

// ----- input actor -----

#[test]
fn input_tap_updates_both_actors_and_clears_the_reset_light() {
    let mut actor = InputActor::new();
    let out = actor.handle(&[144, 7, 127], 1000);
    let zero_f = Frequency { cycles: 0, millis: 1 };
    let zero_p = Phase { num: 0, den: 1 };
    assert_eq!(out.broadcast, vec![BroadcastMessage::UpdateBeat(2, zero_f, zero_p)]);
    assert_eq!(
        out.feedback,
        vec![FeedbackMessage::UpdateBeat(2, zero_f, zero_p), FeedbackMessage::SendNoteOn(9, 0)]
    );
    assert_eq!(actor.tapper(2).sample_count(), 1);
    let out = actor.handle(&[144, 7, 127], 1500);
    let f = Frequency { cycles: 1, millis: 500 };
    let p = Phase { num: 2 * 2500 - 2 * 500, den: 4 };
    assert_eq!(out.broadcast, vec![BroadcastMessage::UpdateBeat(2, f, p)]);
    assert_eq!(
        out.feedback,
        vec![FeedbackMessage::UpdateBeat(2, f, p), FeedbackMessage::SendNoteOn(9, 0)]
    );
    assert_eq!(actor.tapper(2).sample_count(), 2);
    for beat in [0usize, 1, 3, 4, 5, 6, 7] {
        assert_eq!(actor.tapper(beat).sample_count(), 0);
    }
}

#[test]
fn input_reset_clears_the_samples_and_lights_the_reset_light() {
    let mut actor = InputActor::new();
    actor.handle(&[144, 22, 127], 0);
    actor.handle(&[144, 22, 127], 400);
    let f = actor.tapper(7).frequency();
    let p = actor.tapper(7).phase();
    assert_eq!(f, Frequency { cycles: 1, millis: 400 });
    let out = actor.handle(&[144, 24, 127], 500);
    assert_eq!(out.feedback, vec![FeedbackMessage::SendNoteOn(24, 127)]);
    assert_eq!(out.broadcast, Vec::<BroadcastMessage>::new());
    assert_eq!(actor.tapper(7).sample_count(), 0);
    assert_eq!(actor.tapper(7).frequency(), f);
    assert_eq!(actor.tapper(7).phase(), p);
    // the first tap after a reset still reports the estimate from before it
    let out = actor.handle(&[144, 22, 127], 900);
    assert_eq!(out.broadcast, vec![BroadcastMessage::UpdateBeat(7, f, p)]);
}

#[test]
fn input_knobs_go_to_the_broadcast_actor_only() {
    let mut actor = InputActor::new();
    let out = actor.handle(&[176, 53, 64], 0);
    assert_eq!(out.broadcast, vec![BroadcastMessage::UpdateVelocity(5, Velocity { raw: 64 })]);
    assert_eq!(out.feedback, Vec::<FeedbackMessage>::new());
    let out = actor.handle(&[176, 62, 127], 0);
    assert_eq!(out.broadcast, vec![BroadcastMessage::UpdateMasterVelocity(Velocity { raw: 127 })]);
    assert_eq!(out.feedback, Vec::<FeedbackMessage>::new());
}

#[test]
fn input_drops_what_it_does_not_know() {
    let mut actor = InputActor::new();
    let frames: [&[u8]; 7] =
        [&[], &[144], &[144, 7], &[128, 7, 0], &[144, 2, 127], &[176, 20, 5], &[240, 1, 2]];
    for frame in frames {
        let out = actor.handle(frame, 10);
        assert_eq!(out.feedback, Vec::<FeedbackMessage>::new());
        assert_eq!(out.broadcast, Vec::<BroadcastMessage>::new());
    }
    for beat in 0..8 {
        assert_eq!(actor.tapper(beat).sample_count(), 0);
    }
}

#[test]
fn input_apply_takes_decoded_events() {
    let mut actor = InputActor::new();
    let out = actor.apply(ControllerEvent::Ignored, 0);
    assert_eq!(out.feedback.len() + out.broadcast.len(), 0);
    let out = actor.apply(ControllerEvent::Reset(0), 0);
    assert_eq!(out.feedback, vec![FeedbackMessage::SendNoteOn(3, 127)]);
    let out = actor.apply(ControllerEvent::Tap(7), 0);
    assert_eq!(out.feedback.len(), 2);
    assert_eq!(out.feedback[1], FeedbackMessage::SendNoteOn(24, 0));
}

// ----- all three together -----

#[test]
fn three_taps_half_a_second_apart_reach_the_rig_at_two_hertz() {
    let mut input = InputActor::new();
    let mut feedback = FeedbackActor::new();
    let mut broadcast = BroadcastActor::new();
    let mut to_feedback: Vec<FeedbackMessage> = Vec::new();
    let mut to_broadcast: Vec<BroadcastMessage> = Vec::new();
    for now in [0u32, 500, 1000] {
        let out = input.handle(&[144, 1, 127], now);
        to_feedback.extend(out.feedback);
        to_broadcast.extend(out.broadcast);
    }
    match to_broadcast[2] {
        BroadcastMessage::UpdateBeat(beat, frequency, phase) => {
            assert_eq!(beat, 0);
            assert_eq!(hertz(frequency), 2.0);
            assert_eq!(phase.num, 0);
        }
        _ => panic!("an update of the beat was expected"),
    }
    assert!(to_feedback.iter().all(|m| m.is_valid()));
    assert!(to_broadcast.iter().all(|m| m.is_valid()));
    let packets = broadcast.step(&to_broadcast, 1250);
    assert_eq!(packets.len(), 9);
    let report = report_of(&packets[0]);
    assert_eq!(packets[0].address(), "/beat1");
    assert_eq!(fraction(report.position), 0.5);
    assert_eq!(hertz(report.frequency), 2.0);
    assert_eq!(report.phase.num, 0);
    assert_eq!(report.level, Level { num: 16129 });
    assert_eq!(packets[8], Packet::Time(1250));
    // at 1250 ms beat 0 is at one half, the others at one quarter
    let commands = feedback.step(&to_feedback, 1250);
    let mut expected = vec![
        NoteOn { note: 3, velocity: 0 },
        NoteOn { note: 3, velocity: 0 },
        NoteOn { note: 3, velocity: 0 },
    ];
    for beat in 1..8u8 {
        expected.push(NoteOn { note: 1 + 3 * beat, velocity: 127 });
    }
    assert_eq!(commands, expected);
}

#[test]
fn terminate_to_both_actors_ends_all_output_after_the_lights_are_off() {
    let mut feedback = FeedbackActor::new();
    let mut broadcast = BroadcastActor::new();
    feedback.step(&[], 0);
    broadcast.step(&[], 0);
    assert_eq!(feedback.step(&[FeedbackMessage::Terminate], 10), all_lights_off());
    assert_eq!(broadcast.step(&[BroadcastMessage::Terminate], 10), Vec::<Packet>::new());
    for now in [20u32, 500, 1000, 1500] {
        assert_eq!(feedback.step(&[], now), Vec::<NoteOn>::new());
        assert_eq!(broadcast.step(&[], now), Vec::<Packet>::new());
    }
}

#[test]
fn fitted_beat_runs_with_the_taps() {
    let mut input = InputActor::new();
    for now in [250u32, 1000, 1750, 2500] {
        input.handle(&[144, 4, 127], now);
    }
    let beat = Beat {
        frequency: input.tapper(1).frequency(),
        phase: input.tapper(1).phase(),
        velocity: Velocity { raw: 127 },
    };
    for turn in 0..6u32 {
        assert_eq!(beat.eval(250 + turn * 750).num, 0);
        let p = beat.eval(250 + turn * 750 + 150);
        assert_eq!(p.num * 750, 150 * p.den);
        assert_eq!(fraction(p), 0.2);
    }
    // before the first tap as well
    let p = beat.eval(100);
    assert_eq!(p.num * 750, 600 * p.den);
}
