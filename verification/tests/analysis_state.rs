use spotlight::beat::{lag_window, AUTOCORRELATION_EVERY, HISTORY_SIZE, MAX_LAG};
use spotlight::frame::{FrameCollector, BIN_COUNT, FFT_SIZE};
use spotlight::onset::{OnsetTriggers, HIHAT, KICK, SNARE};
use spotlight::ring::HistoryRing;
use spotlight::schedule::{Divider, PacketAction, PacketSchedule};
use spotlight::section::{next_section, Section, SectionState, TransitionCues, MIN_FRAMES_BEFORE_TRANSITION};

fn no_cues() -> TransitionCues {
    TransitionCues { quiet: false, surge: false, slump: false, rising: false, plateau: false, fading: false }
}

#[test]
fn section_names() {
    assert_eq!(Section::Intro.to_string(), "Intro");
    assert_eq!(Section::Build.to_string(), "Build");
    assert_eq!(Section::Drop.to_string(), "Drop");
    assert_eq!(Section::Breakdown.to_string(), "Breakdown");
    assert_eq!(Section::Sustain.to_string(), "Sustain");
    assert_eq!(Section::Outro.to_string(), "Outro");
}

#[test]
fn rules_apply_in_order() {
    let all = TransitionCues { quiet: true, surge: true, slump: true, rising: true, plateau: true, fading: true };
    assert_eq!(next_section(Section::Drop, all), Section::Intro);
    let c = TransitionCues { quiet: false, ..all };
    assert_eq!(next_section(Section::Drop, c), Section::Drop);
    assert_eq!(next_section(Section::Sustain, c), Section::Drop);
    let c = TransitionCues { surge: false, ..c };
    assert_eq!(next_section(Section::Drop, c), Section::Breakdown);
    assert_eq!(next_section(Section::Intro, c), Section::Build);
    let c = TransitionCues { slump: false, ..c };
    assert_eq!(next_section(Section::Drop, c), Section::Build);
    let c = TransitionCues { rising: false, ..c };
    assert_eq!(next_section(Section::Drop, c), Section::Sustain);
    let c = TransitionCues { plateau: false, ..c };
    assert_eq!(next_section(Section::Drop, c), Section::Outro);
    assert_eq!(next_section(Section::Build, no_cues()), Section::Build);
}

#[test]
fn breakdown_never_follows_intro() {
    let c = TransitionCues { slump: true, ..no_cues() };
    assert_eq!(next_section(Section::Intro, c), Section::Intro);
    assert_eq!(next_section(Section::Sustain, c), Section::Breakdown);
}

#[test]
fn section_lasts_minimum_frames() {
    let surge = TransitionCues { surge: true, ..no_cues() };
    let mut s = SectionState::new();
    for k in 1..MIN_FRAMES_BEFORE_TRANSITION {
        s.advance(surge);
        assert_eq!(s.current(), Section::Intro);
        assert_eq!(s.frames_in_section(), k);
    }
    s.advance(surge);
    assert_eq!(s.current(), Section::Drop);
    assert_eq!(s.frames_in_section(), 0);
    let quiet = TransitionCues { quiet: true, ..no_cues() };
    for _ in 1..MIN_FRAMES_BEFORE_TRANSITION {
        s.advance(quiet);
        assert_eq!(s.current(), Section::Drop);
    }
    s.advance(quiet);
    assert_eq!(s.current(), Section::Intro);
    s.reset();
    assert_eq!(s.current(), Section::Intro);
    assert_eq!(s.frames_in_section(), 0);
}

#[test]
fn unchanged_section_keeps_counting() {
    let mut s = SectionState::new();
    for _ in 0..100 {
        s.advance(no_cues());
    }
    assert_eq!(s.current(), Section::Intro);
    assert_eq!(s.frames_in_section(), 100);
}

#[test]
fn history_keeps_latest_values() {
    let mut h = HistoryRing::new(4, 0u32);
    assert_eq!(h.len(), 4);
    let mut evicted = Vec::new();
    for x in 1..=6u32 {
        evicted.push(h.push(x));
    }
    assert_eq!(evicted, vec![0, 0, 0, 0, 1, 2]);
    let held: Vec<u32> = (0..4).map(|i| h.at(i)).collect();
    assert_eq!(held, vec![3, 4, 5, 6]);
    h.fill(9);
    let held: Vec<u32> = (0..4).map(|i| h.at(i)).collect();
    assert_eq!(held, vec![9, 9, 9, 9]);
    assert_eq!(h.push(1), 9);
}

#[test]
fn autocorrelation_runs_every_eighth_frame() {
    let mut d = Divider::new(AUTOCORRELATION_EVERY);
    let fired: Vec<usize> = (1..=24).filter(|_| d.tick()).collect();
    assert_eq!(fired, vec![8, 16, 24]);
    d.tick();
    d.reset();
    let fired: Vec<usize> = (1..=8).filter(|_| d.tick()).collect();
    assert_eq!(fired, vec![8]);
}

#[test]
fn packets_every_fourth_buffer_spectrum_every_sixteenth() {
    let mut s = PacketSchedule::new();
    let actions: Vec<PacketAction> = (0..16).map(|_| s.tick()).collect();
    for (k, a) in actions.iter().enumerate() {
        let n = k + 1;
        let expected = if n % 16 == 0 {
            PacketAction::SendWithSpectrum
        } else if n % 4 == 0 {
            PacketAction::Send
        } else {
            PacketAction::Skip
        };
        assert_eq!(*a, expected, "buffer {}", n);
    }
    let mut sent = 0;
    let mut with_spectrum = 0;
    for _ in 0..64 {
        match s.tick() {
            PacketAction::Skip => {}
            PacketAction::Send => sent += 1,
            PacketAction::SendWithSpectrum => {
                sent += 1;
                with_spectrum += 1;
            }
        }
    }
    assert_eq!((sent, with_spectrum), (16, 4));
    s.tick();
    s.reset();
    assert_eq!(s.tick(), PacketAction::Skip);
}

#[test]
fn cooldown_blocks_retrigger() {
    let mut g = OnsetTriggers::new(3);
    g.step([true, false, true]);
    assert!(g.kick() && !g.snare() && g.hihat());
    g.step([true, true, true]);
    assert!(!g.kick() && g.snare() && !g.hihat());
    g.step([true, true, true]);
    assert!(!g.kick() && !g.snare() && !g.hihat());
    g.step([true, false, true]);
    assert!(g.kick() && !g.snare() && g.hihat());
    g.step([false, false, false]);
    assert!(!g.kick() && !g.snare() && !g.hihat());
    assert_eq!((KICK, SNARE, HIHAT), (0, 1, 2));
}

#[test]
fn cooldown_is_at_least_one_frame() {
    let mut g = OnsetTriggers::new(0);
    g.step([true, true, true]);
    assert!(g.kick());
    g.step([true, true, true]);
    assert!(g.kick() && g.snare() && g.hihat());
    g.set_cooldown_frames(2);
    g.step([true, false, false]);
    assert!(g.kick());
    g.step([true, false, false]);
    assert!(!g.kick());
    g.reset();
    g.step([true, false, false]);
    assert!(g.kick());
}

#[test]
fn spectrum_is_taken_once_per_frame() {
    let mut c = FrameCollector::new(4, 0i32, 2, -120i32);
    assert_eq!(c.bin_count(), 2);
    assert_eq!(c.take(), None);
    assert!(!c.push(1));
    assert!(!c.push(2));
    assert!(!c.push(3));
    assert!(c.push(4));
    assert_eq!(c.samples(), &[1, 2, 3, 4]);
    assert_eq!(c.take(), None);
    c.publish(vec![7, 8]);
    assert_eq!(c.take(), Some(vec![7, 8]));
    assert_eq!(c.take(), None);
    assert!(!c.push(5));
    assert_eq!(c.samples(), &[5, 2, 3, 4]);
    c.publish(vec![1, 1]);
    c.reset(0, -120);
    assert_eq!(c.take(), None);
    assert_eq!(c.samples(), &[0, 0, 0, 0]);
    c.publish(vec![3, 3]);
    assert_eq!(c.take(), Some(vec![3, 3]));
}

#[test]
fn full_size_frames() {
    let mut c = FrameCollector::new(FFT_SIZE, 0i32, BIN_COUNT, -120i32);
    let completions: Vec<usize> = (0..3 * FFT_SIZE).filter(|&i| c.push(i as i32)).collect();
    assert_eq!(completions, vec![FFT_SIZE - 1, 2 * FFT_SIZE - 1, 3 * FFT_SIZE - 1]);
    assert_eq!(c.samples()[0], 2 * FFT_SIZE as i32);
    assert_eq!(c.bin_count(), BIN_COUNT);
}

#[test]
fn lag_windows() {
    // 44.1 kHz: about 21.5 frames per second, lags 6..21.
    assert_eq!(lag_window(6, 21), Some((6, 21)));
    // 48 kHz.
    assert_eq!(lag_window(7, 23), Some((7, 23)));
    // Very high rates hit the cap of half the history.
    assert_eq!(lag_window(57, 191), Some((57, MAX_LAG)));
    assert_eq!(MAX_LAG, HISTORY_SIZE / 2);
    assert_eq!(lag_window(130, 300), None);
    assert_eq!(lag_window(21, 21), None);
    assert_eq!(lag_window(0, 0), None);
}
