//! Voice-table behaviour: note-on idempotence, release and reactivation,
//! cleanup, emergency stop, and the polyphonic end-to-end scenario.

use synthesizer_emulation::adsr::EnvelopeStage;
use synthesizer_emulation::fixed::LEVEL_ONE;
use synthesizer_emulation::notes::{ActiveNote, NoteManager};

#[test]
fn add_note_creates_one_attacking_voice() {
    let mut mgr = NoteManager::new();
    mgr.add_note(440_000, 44_100);
    assert_eq!(mgr.note_count(), 1);
    let ix = mgr.find_note(440_000).expect("voice missing");
    assert_eq!(mgr.notes[ix].frequency, 440_000);
    assert!(!mgr.notes[ix].is_released);
    assert_eq!(mgr.notes[ix].adsr.stage, EnvelopeStage::Attack);
}

#[test]
fn add_note_twice_is_idempotent() {
    let mut mgr = NoteManager::new();
    mgr.add_note(440_000, 44_100);
    // advance partway into the attack
    let ix = mgr.find_note(440_000).unwrap();
    for _ in 0..1000 {
        mgr.notes[ix].get_amplitude();
    }
    let level_before = mgr.notes[ix].adsr.level;
    let step_before = mgr.notes[ix].adsr.step;
    mgr.add_note(440_000, 44_100);
    // no second voice, and the envelope was not restarted
    assert_eq!(mgr.note_count(), 1);
    assert_eq!(mgr.notes[ix].adsr.level, level_before);
    assert_eq!(mgr.notes[ix].adsr.step, step_before);
    assert_eq!(mgr.notes[ix].adsr.stage, EnvelopeStage::Attack);
}

#[test]
fn two_pitches_are_two_voices() {
    let mut mgr = NoteManager::new();
    mgr.add_note(440_000, 44_100);
    mgr.add_note(440_001, 44_100); // one milli-Hz apart: still distinct
    assert_eq!(mgr.note_count(), 2);
}

#[test]
fn release_note_starts_the_release_once() {
    let mut mgr = NoteManager::new();
    mgr.add_note(440_000, 44_100);
    mgr.release_note(440_000);
    let ix = mgr.find_note(440_000).unwrap();
    assert!(mgr.notes[ix].is_released);
    assert_eq!(mgr.notes[ix].adsr.stage, EnvelopeStage::Release);
    let step = mgr.notes[ix].adsr.step;
    mgr.release_note(440_000); // a second release is a no-op
    assert_eq!(mgr.notes[ix].adsr.step, step);
    mgr.release_note(900_000); // a silent pitch is a no-op
    assert_eq!(mgr.note_count(), 1);
}

#[test]
fn add_note_on_released_voice_reactivates_from_current_level() {
    let mut mgr = NoteManager::new();
    mgr.add_note(440_000, 44_100);
    let ix = mgr.find_note(440_000).unwrap();
    for _ in 0..2000 {
        mgr.notes[ix].get_amplitude();
    }
    mgr.release_note(440_000);
    for _ in 0..2000 {
        mgr.notes[ix].get_amplitude();
    }
    let mid_level = mgr.notes[ix].adsr.level;
    assert!(mid_level > 0);
    mgr.add_note(440_000, 44_100);
    assert_eq!(mgr.note_count(), 1);
    assert!(!mgr.notes[ix].is_released);
    assert_eq!(mgr.notes[ix].adsr.stage, EnvelopeStage::Attack);
    // the click-free restart: the level is kept, not reset
    assert_eq!(mgr.notes[ix].adsr.level, mid_level);
}

#[test]
fn cleanup_removes_only_finished_voices() {
    let mut mgr = NoteManager::new();
    mgr.add_note(440_000, 44_100);
    mgr.add_note(660_000, 44_100);
    // fade the first voice out completely
    let ix = mgr.find_note(440_000).unwrap();
    mgr.notes[ix].set_current_release(0);
    mgr.notes[ix].note_off();
    while !mgr.notes[ix].is_finished() {
        mgr.notes[ix].get_amplitude();
    }
    mgr.cleanup_finished_notes();
    assert_eq!(mgr.note_count(), 1);
    assert!(mgr.find_note(440_000).is_none());
    assert!(mgr.find_note(660_000).is_some());
}

#[test]
fn stop_all_notes_releases_every_held_voice() {
    let mut mgr = NoteManager::new();
    mgr.add_note(440_000, 44_100);
    mgr.add_note(550_000, 44_100);
    mgr.add_note(660_000, 44_100);
    mgr.release_note(550_000);
    mgr.stop_all_notes();
    assert_eq!(mgr.note_count(), 3);
    for i in 0..mgr.note_count() {
        assert!(mgr.notes[i].is_released);
        assert_eq!(mgr.notes[i].adsr.stage, EnvelopeStage::Release);
    }
}

#[test]
fn end_to_end_note_lifecycle_hits_the_amplitude_marks() {
    // one voice at 440 Hz, 44100 Hz rate, a one-second attack and a
    // half-second release
    let mut note = ActiveNote::new(440_000, 44_100);
    note.set_current_attack(1_000_000);
    note.set_current_release(500_000);
    note.adsr.note_on(); // re-arm so the one-second attack step applies
    let mut level = 0;
    for _ in 0..44_100 {
        level = note.get_amplitude();
    }
    // within 1% of full level at sample 44099
    assert!(level >= LEVEL_ONE - LEVEL_ONE / 100, "attack fell short: {}", level);
    assert!(level <= LEVEL_ONE);
    assert!(!note.is_finished());

    note.note_off();
    let budget = 22_050 + 22_050 / 20; // 0.5 s worth of samples, plus 5%
    let mut finished = false;
    for _ in 0..budget {
        note.get_amplitude();
        if note.is_finished() {
            finished = true;
            break;
        }
    }
    assert!(finished, "voice did not fade out within the budget");
    assert_eq!(note.adsr.level, 0);
}

#[test]
fn manager_lifecycle_matches_the_note_level_scenario() {
    let mut mgr = NoteManager::new();
    mgr.add_note(440_000, 44_100);
    let ix = mgr.find_note(440_000).unwrap();
    // default attack is 0.1 s: full level within 1% after 4410 samples
    let mut level = 0;
    for _ in 0..4_410 {
        level = mgr.notes[ix].get_amplitude();
    }
    assert!(level >= LEVEL_ONE - LEVEL_ONE / 100);
    mgr.release_note(440_000);
    // default release is 1 s
    let budget = 44_100 + 44_100 / 20;
    let mut steps = 0;
    while !mgr.notes[ix].is_finished() {
        mgr.notes[ix].get_amplitude();
        steps += 1;
        assert!(steps <= budget, "voice did not finish in time");
    }
    mgr.cleanup_finished_notes();
    assert_eq!(mgr.note_count(), 0);
}
