use libpoly::{Clock, Envelope, Mutator, Segments, State, SYNTH_MUTATE_MAX, SYNTH_MUTATE_MIN};
use rand::rngs::SmallRng;
use rand::SeedableRng;

#[test]
fn state_cycle() {
    assert_eq!(State::Attack, State::Off.next());
    assert_eq!(State::Decay, State::Attack.next());
    assert_eq!(State::Sustain, State::Decay.next());
    assert_eq!(State::Release, State::Sustain.next());
    assert_eq!(State::Off, State::Release.next());
}

#[test]
fn new_envelope_is_off_and_stays_off() {
    let mut envelope = Envelope::new();
    assert_eq!(State::Off, envelope.state);
    assert!(envelope.clock.ready());
    for _ in 0..10 {
        assert_eq!(Some(State::Off), envelope.next());
        assert_eq!(State::Off, envelope.state);
    }
}

#[test]
fn attack_of_half_an_eight_sample_note() {
    // attack 0.5 and decay 0.5 of an 8-sample note: four samples each
    let mut envelope = Envelope::new();
    envelope.start(Segments {
        attack: 4,
        decay: 4,
        sustain: 0,
        release: 0,
    });
    assert_eq!(State::Attack, envelope.state);
    let events: Vec<Option<State>> = (0..4).map(|_| envelope.next()).collect();
    assert_eq!(events, vec![None, None, None, Some(State::Decay)]);
    assert_eq!(Clock::deadline(4).deadline, envelope.clock.deadline);
    assert_eq!(0, envelope.clock.tick);
}

#[test]
fn full_note_passes_every_stage_in_order() {
    let mut envelope = Envelope::new();
    envelope.start(Segments {
        attack: 2,
        decay: 3,
        sustain: 1,
        release: 2,
    });
    let transitions: Vec<(usize, State)> = (1..=12)
        .filter_map(|sample| envelope.next().map(|state| (sample, state)))
        .collect();
    assert_eq!(
        transitions[..4].to_vec(),
        vec![
            (2, State::Decay),
            (5, State::Sustain),
            (6, State::Release),
            (8, State::Off),
        ]
    );
    assert!(transitions[4..].iter().all(|&(_, state)| state == State::Off));
}

#[test]
fn release_runs_out_to_off() {
    let mut envelope = Envelope::new();
    envelope.state = State::Sustain;
    envelope.segments = Segments {
        attack: 0,
        decay: 0,
        sustain: 0,
        release: 4,
    };
    assert_eq!(Some(State::Release), envelope.next());
    let events: Vec<Option<State>> = (0..4).map(|_| envelope.next()).collect();
    assert_eq!(events, vec![None, None, None, Some(State::Off)]);
}

#[test]
fn restart_leaves_off() {
    let mut envelope = Envelope::new();
    envelope.next();
    assert_eq!(State::Off, envelope.state);
    let segments = Segments {
        attack: 3,
        decay: 1,
        sustain: 1,
        release: 1,
    };
    envelope.start(segments);
    assert_eq!(State::Attack, envelope.state);
    assert_eq!(3, envelope.clock.deadline);
    assert_eq!(segments, envelope.segments);
}

#[test]
fn mutator_waits_for_its_deadline() {
    let mut rng = SmallRng::seed_from_u64(0);
    let mut mutator = Mutator::new(&mut rng);
    assert_eq!(0, mutator.clock.tick);
    assert!(mutator.clock.deadline >= SYNTH_MUTATE_MIN);
    assert!(mutator.clock.deadline <= SYNTH_MUTATE_MAX);
    assert_eq!(None, mutator.due(&mut rng));
    mutator.tick();
    assert_eq!(1, mutator.clock.tick);
}

#[test]
fn mutator_names_a_modulator_when_due() {
    let mut rng = SmallRng::seed_from_u64(5);
    for _ in 0..50 {
        let mut mutator = Mutator {
            clock: Clock::deadline(2),
        };
        mutator.tick();
        assert_eq!(None, mutator.due(&mut rng));
        mutator.tick();
        let slot = mutator.due(&mut rng).unwrap();
        assert!(slot == 1 || slot == 2);
        assert_eq!(0, mutator.clock.tick);
        assert!(mutator.clock.deadline >= SYNTH_MUTATE_MIN);
        assert!(mutator.clock.deadline <= SYNTH_MUTATE_MAX);
    }
}
