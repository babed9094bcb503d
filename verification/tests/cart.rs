use lib::display::progress_text;
use lib::melody::{nandemonaiya_melody, MAX_NOTE_FRAMES};
use lib::pitch::{DO_HIGH, MI_HIGH, RE_HIGH, REST, TEMPO};
use lib::player::{
    Player, Tone, BUTTON_1, RESTART_COLORS, TEXT_COLORS, TONE_MODE1, TONE_PULSE1, TONE_VOLUME,
};

fn tone(frequency: u32, duration: u32) -> Option<Tone> {
    Some(Tone { frequency, duration, volume: TONE_VOLUME, flags: TONE_PULSE1 | TONE_MODE1 })
}

#[test]
fn tune_has_290_notes_and_starts_with_e() {
    let m = nandemonaiya_melody();
    assert_eq!(m.len(), 290);
    assert_eq!(m[0], (MI_HIGH, 10));
    assert_eq!(m[1], (RE_HIGH, 10));
    assert_eq!(m[4], (REST, 30));
    assert_eq!(m[289], (REST, 12));
    let total: i64 = m.iter().map(|n| n.1 as i64).sum();
    assert_eq!(total, 1848);
}

#[test]
fn first_frame_shows_progress_and_plays_first_note() {
    let mut p = Player::nandemonaiya();
    let f = p.update(0);
    assert_eq!(f.colors, TEXT_COLORS);
    assert_eq!(f.progress, "Note: 1/290");
    assert_eq!(f.tone, tone(659, 166));
    assert_eq!(p.time_frame(), 1);
    assert_eq!(p.current_note(), 0);
    assert_eq!(p.note_timer(), 1);
}

#[test]
fn tone_lengths_follow_frames() {
    let m = vec![(DO_HIGH, 30), (DO_HIGH, TEMPO), (DO_HIGH, 4), (DO_HIGH, 12), (DO_HIGH, 1)];
    let mut p = Player::new(m).unwrap();
    let mut lengths = Vec::new();
    for _ in 0..(30 + 6 + 4 + 12 + 1) {
        if let Some(t) = p.play_music_sequence() {
            lengths.push(t.duration);
        }
    }
    assert_eq!(lengths, vec![500, 100, 66, 200, 16]);
    let mut p = Player::nandemonaiya();
    let t = p.play_music_sequence().unwrap();
    assert_eq!(t.flags, 0);
    assert_eq!(t.volume, 100);
}

#[test]
fn note_lasts_its_length() {
    let mut p = Player::nandemonaiya();
    assert!(p.play_music_sequence().is_some());
    for k in 1..10 {
        assert_eq!(p.current_note(), 0);
        assert_eq!(p.note_timer(), k);
        assert_eq!(p.play_music_sequence(), None);
    }
    assert_eq!(p.current_note(), 1);
    assert_eq!(p.note_timer(), 0);
    assert_eq!(p.play_music_sequence(), tone(587, 166));
}

#[test]
fn rests_are_silent() {
    let mut p = Player::nandemonaiya();
    // The first four notes last 10 + 10 + 10 + 30 frames.
    for _ in 0..60 {
        p.play_music_sequence();
    }
    assert_eq!(p.current_note(), 4);
    assert_eq!(p.note_timer(), 0);
    for _ in 0..30 {
        assert_eq!(p.play_music_sequence(), None);
    }
    assert_eq!(p.current_note(), 5);
    assert_eq!(p.play_music_sequence(), tone(523, 500));
}

#[test]
fn tune_loops_after_its_length_and_one_frame() {
    let mut p = Player::nandemonaiya();
    for _ in 0..1848 {
        p.play_music_sequence();
    }
    assert_eq!(p.current_note(), 290);
    assert_eq!(p.note_timer(), 0);
    assert_eq!(p.play_music_sequence(), None);
    assert_eq!(p.current_note(), 0);
    assert_eq!(p.note_timer(), 0);
    assert_eq!(p.play_music_sequence(), tone(659, 166));
}

#[test]
fn progress_past_the_end_counts_one_beyond() {
    let mut p = Player::nandemonaiya();
    for _ in 0..1848 {
        p.update(0);
    }
    let f = p.update(0);
    assert_eq!(f.progress, "Note: 291/290");
    assert_eq!(f.tone, None);
    assert_eq!(p.current_note(), 0);
    let f = p.update(0);
    assert_eq!(f.progress, "Note: 1/290");
    assert_eq!(p.time_frame(), 1850);
}

#[test]
fn pressing_x_restarts() {
    let mut p = Player::nandemonaiya();
    for _ in 0..500 {
        p.update(0);
    }
    assert!(p.current_note() > 0);
    let f = p.update(BUTTON_1);
    assert_eq!(f.colors, RESTART_COLORS);
    assert_eq!(f.progress, "Note: 1/290");
    assert_eq!(f.tone, tone(659, 166));
    assert_eq!(p.time_frame(), 1);
    assert_eq!(p.current_note(), 0);
    assert_eq!(p.note_timer(), 1);
    let f = p.update(0);
    assert_eq!(f.colors, TEXT_COLORS);
    assert_eq!(p.time_frame(), 2);
}

#[test]
fn other_buttons_do_not_restart() {
    let mut p = Player::nandemonaiya();
    for _ in 0..20 {
        p.update(0);
    }
    let f = p.update(2 | 16 | 64);
    assert_eq!(f.colors, TEXT_COLORS);
    assert_eq!(f.progress, "Note: 3/290");
    assert_eq!(p.time_frame(), 21);
    let f = p.update(0xFF);
    assert_eq!(f.colors, RESTART_COLORS);
    assert_eq!(p.time_frame(), 1);
}

#[test]
fn restart_on_a_one_frame_rest() {
    let mut p = Player::new(vec![(REST, 1)]).unwrap();
    let f = p.update(BUTTON_1);
    assert_eq!(f.tone, None);
    assert_eq!(f.progress, "Note: 1/1");
    assert_eq!(p.current_note(), 1);
}

#[test]
fn melody_is_checked() {
    assert!(Player::new(vec![]).is_some());
    assert!(Player::new(vec![(DO_HIGH, 1), (REST, MAX_NOTE_FRAMES)]).is_some());
    assert!(Player::new(vec![(DO_HIGH, 0)]).is_none());
    assert!(Player::new(vec![(DO_HIGH, 6), (REST, -3)]).is_none());
    assert!(Player::new(vec![(DO_HIGH, MAX_NOTE_FRAMES + 1)]).is_none());
    let p = Player::new(vec![(DO_HIGH, 6), (MI_HIGH, 4)]).unwrap();
    assert_eq!(p.melody(), &[(DO_HIGH, 6), (MI_HIGH, 4)][..]);
    assert_eq!(p.current_note(), 0);
    assert_eq!(p.time_frame(), 0);
}

#[test]
fn longest_note_has_exact_millis() {
    let mut p = Player::new(vec![(DO_HIGH, MAX_NOTE_FRAMES)]).unwrap();
    assert_eq!(p.play_music_sequence(), tone(DO_HIGH, 35791383));
}

#[test]
fn empty_melody_stays_silent() {
    let mut p = Player::new(vec![]).unwrap();
    let f = p.update(0);
    assert_eq!(f.progress, "Note: 1/0");
    assert_eq!(f.tone, None);
    assert_eq!(p.current_note(), 0);
}

#[test]
fn progress_text_writes_numbers_in_decimal() {
    assert_eq!(progress_text(0, 290), "Note: 1/290");
    assert_eq!(progress_text(9, 10), "Note: 10/10");
    assert_eq!(progress_text(99, 1000), "Note: 100/1000");
    assert_eq!(progress_text(0, 0), "Note: 1/0");
    assert_eq!(progress_text(123456788, 7), "Note: 123456789/7");
}

fn sound(n: (u32, i32)) -> Option<Tone> {
    if n.0 > 0 {
        tone(n.0, (n.1 * 1000 / 60) as u32)
    } else {
        None
    }
}

#[test]
fn position_at_every_step_of_a_pass() {
    let m = nandemonaiya_melody();
    let mut p = Player::nandemonaiya();
    let mut step = 0;
    for (i, n) in m.iter().enumerate() {
        for t in 0..n.1 {
            assert_eq!(p.current_note(), i);
            assert_eq!(p.note_timer(), t);
            let expected = if t == 0 { sound(*n) } else { None };
            assert_eq!(p.play_music_sequence(), expected);
            step += 1;
        }
    }
    assert_eq!(step, 1848);
    assert_eq!(p.current_note(), 290);
    assert_eq!(p.note_timer(), 0);
}

#[test]
fn one_pass_sounds_every_note_once_in_order() {
    let m = nandemonaiya_melody();
    let expected: Vec<Tone> = m.iter().filter_map(|n| sound(*n)).collect();
    assert_eq!(expected.len(), 220);
    let mut p = Player::nandemonaiya();
    let mut heard = Vec::new();
    for _ in 0..1849 {
        if let Some(t) = p.play_music_sequence() {
            heard.push(t);
        }
    }
    assert_eq!(heard, expected);
    assert_eq!(p.current_note(), 0);
    assert_eq!(p.note_timer(), 0);
}

#[test]
fn from_any_state_every_note_sounds_within_one_pass() {
    let m = nandemonaiya_melody();
    for offset in [0usize, 1, 5, 17, 59, 60, 1000, 1847, 1848] {
        let mut p = Player::nandemonaiya();
        for _ in 0..offset {
            p.update(0);
        }
        let mut started = vec![false; m.len()];
        let mut restarted = false;
        for _ in 0..1849 {
            let note = p.current_note();
            let fresh = p.note_timer() == 0;
            let f = p.update(4);
            if note < m.len() && fresh {
                started[note] = true;
                assert_eq!(f.tone, sound(m[note]));
            } else {
                assert_eq!(f.tone, None);
            }
            if p.current_note() == 0 && p.note_timer() == 0 {
                restarted = true;
            }
        }
        assert!(restarted);
        assert!(started.iter().all(|s| *s));
    }
}

#[test]
fn frame_counter_does_not_change_the_frame() {
    let mut fresh = Player::nandemonaiya();
    let mut looped = Player::nandemonaiya();
    for _ in 0..1849 {
        looped.update(0);
    }
    assert_eq!(looped.time_frame(), 1849);
    for k in 0..300 {
        let pad = if k % 7 == 3 { 2 } else { 0 };
        let a = fresh.update(pad);
        let b = looped.update(pad);
        assert_eq!(a.colors, b.colors);
        assert_eq!(a.progress, b.progress);
        assert_eq!(a.tone, b.tone);
        assert_eq!(fresh.current_note(), looped.current_note());
        assert_eq!(fresh.note_timer(), looped.note_timer());
        assert_eq!(looped.time_frame(), fresh.time_frame() + 1849);
    }
    fresh.update(BUTTON_1);
    looped.update(BUTTON_1);
    assert_eq!(fresh.time_frame(), looped.time_frame());
}
