//! What holds of the cart over many frames.
use vstd::prelude::*;
use crate::display::{decimal, digit_char, progress_label};
use crate::melody::{valid_melody, Note};
use crate::player::{
    button_pressed, melody_tones, position_valid, Tone, note_sound, note_sound_fn, tone_at, tone_seq, PlayerView,
};

verus! {

/// Frames that the first `j` notes of `m` last together.
pub open spec fn frames_before(m: Seq<Note>, j: int) -> int
    decreases j,
{
    if j <= 0 {
        0
    } else {
        frames_before(m, j - 1) + m[j - 1].1
    }
}

/// The number a string of decimal digits stands for.
pub open spec fn decimal_value(s: Seq<char>) -> int
    decreases s.len(),
{
    if s.len() == 0 {
        0
    } else {
        decimal_value(s.drop_last()) * 10 + (s.last() as int - 48)
    }
}

/// A step of playback keeps the cart in a state it can be in.
pub proof fn lemma_play_keeps_state_valid(v: PlayerView)
    requires
        v.wf(),
    ensures
        v.played().wf(),
{
}

/// A whole frame keeps the cart in a state it can be in.
pub proof fn lemma_update_keeps_state_valid(v: PlayerView, gamepad: u8)
    requires
        v.wf(),
        !button_pressed(gamepad) ==> v.time_frame < i32::MAX,
    ensures
        v.updated(gamepad).wf(),
{
}

/// Playing `a` steps and then `b` more is playing `a + b` steps.
pub proof fn lemma_played_n_add(v: PlayerView, a: nat, b: nat)
    ensures
        v.played_n(a + b) == v.played_n(a).played_n(b),
    decreases b,
{
    if b > 0 {
        lemma_played_n_add(v, a, (b - 1) as nat);
        assert(v.played_n(a + b) == v.played_n((a + b - 1) as nat).played());
    }
}

proof fn lemma_frames_before_mono(m: Seq<Note>, i: int, j: int)
    requires
        valid_melody(m),
        0 <= i <= j <= m.len(),
    ensures
        frames_before(m, j) - frames_before(m, i) >= j - i,
    decreases j - i,
{
    if j > i {
        lemma_frames_before_mono(m, i, j - 1);
    }
}

/// The rest of the current note: `k` steps on, playback is `k` frames
/// further into it, or, once its length has passed, at the next note.
proof fn lemma_note_rest(v: PlayerView, k: nat)
    requires
        v.wf(),
        v.note < v.melody.len(),
        k <= v.melody[v.note].1 - v.timer,
    ensures
        k < v.melody[v.note].1 - v.timer ==> v.played_n(k) == (PlayerView {
            timer: v.timer + k,
            ..v
        }),
        k == v.melody[v.note].1 - v.timer ==> v.played_n(k) == (PlayerView {
            note: v.note + 1,
            timer: 0,
            ..v
        }),
    decreases k,
{
    if k > 0 {
        lemma_note_rest(v, (k - 1) as nat);
    }
}

/// Each note is held for exactly as many frames as it lasts. From its first
/// frame, `k` steps later playback is still on it, `k` frames in, and starts
/// no tone; once its length has passed, the next note starts at frame zero.
pub proof fn lemma_note_lasts_its_length(v: PlayerView, k: nat)
    requires
        v.wf(),
        v.note < v.melody.len(),
        v.timer == 0,
        0 < k < v.melody[v.note].1,
    ensures
        v.played_n(k) == (PlayerView { timer: k as int, ..v }),
        v.played_n(k).tone() is None,
        v.played_n(v.melody[v.note].1 as nat) == (PlayerView { note: v.note + 1, timer: 0, ..v }),
{
    lemma_note_rest(v, k);
    lemma_note_rest(v, v.melody[v.note].1 as nat);
}

/// From the start of a note, playback reaches the start of any later note
/// once the notes in between have lasted their lengths.
proof fn lemma_between_notes(v: PlayerView, j: int)
    requires
        v.wf(),
        v.timer == 0,
        v.note <= j <= v.melody.len(),
    ensures
        v.played_n((frames_before(v.melody, j) - frames_before(v.melody, v.note)) as nat) == (
        PlayerView { note: j, timer: 0, ..v }),
    decreases j,
{
    let m = v.melody;
    if j > v.note {
        lemma_between_notes(v, j - 1);
        lemma_frames_before_mono(m, v.note, j - 1);
        let a = (frames_before(m, j - 1) - frames_before(m, v.note)) as nat;
        let d = m[j - 1].1 as nat;
        let w = PlayerView { note: j - 1, timer: 0, ..v };
        lemma_played_n_add(v, a, d);
        assert(a + d == (frames_before(m, j) - frames_before(m, v.note)) as nat);
        lemma_note_rest(w, d);
    }
}

/// Each note starts on time: from the first note, note `j` starts (at frame
/// zero of it, with its own tone) once the notes before it have lasted
/// their lengths.
pub proof fn lemma_note_starts_on_time(v: PlayerView, j: int)
    requires
        v.wf(),
        v.note == 0,
        v.timer == 0,
        0 <= j <= v.melody.len(),
    ensures
        v.played_n(frames_before(v.melody, j) as nat) == (PlayerView { note: j, timer: 0, ..v }),
        v.played_n(frames_before(v.melody, j) as nat).tone() == tone_at(v.melody, j, 0),
{
    lemma_between_notes(v, j);
}

/// Where playback stands at every step from the first note: at step `k`
/// within note `i` (the notes before it last `frames_before(m, i)` frames)
/// it is on note `i`, `k - frames_before(m, i)` frames in, and that step
/// starts the note's tone if it is the note's first frame and none
/// otherwise.
pub proof fn lemma_position_at_every_step(v: PlayerView, i: int, k: nat)
    requires
        v.wf(),
        v.note == 0,
        v.timer == 0,
        0 <= i < v.melody.len(),
        frames_before(v.melody, i) <= k < frames_before(v.melody, i + 1),
    ensures
        v.played_n(k) == (PlayerView { note: i, timer: k - frames_before(v.melody, i), ..v }),
        v.played_n(k).tone() == (if k == frames_before(v.melody, i) {
            note_sound(v.melody[i])
        } else {
            None
        }),
{
    let m = v.melody;
    lemma_frames_before_mono(m, 0, i);
    let a = frames_before(m, i) as nat;
    lemma_between_notes(v, i);
    lemma_played_n_add(v, a, (k - a) as nat);
    lemma_note_rest(PlayerView { note: i, timer: 0, ..v }, (k - a) as nat);
}

proof fn lemma_step_in_some_note(m: Seq<Note>, k: int, j: int)
    requires
        valid_melody(m),
        0 <= k,
        0 <= j <= m.len(),
        k < frames_before(m, j),
    ensures
        exists|i: int| 0 <= i < j && #[trigger] frames_before(m, i) <= k < frames_before(m, i + 1),
    decreases j,
{
    if j > 0 {
        if k < frames_before(m, j - 1) {
            lemma_step_in_some_note(m, k, j - 1);
        } else {
            assert(frames_before(m, j - 1) <= k < frames_before(m, j));
        }
    }
}

/// Every step of one pass of a melody falls within one of its notes.
pub proof fn lemma_every_step_in_a_note(m: Seq<Note>, k: int)
    requires
        valid_melody(m),
        0 <= k < frames_before(m, m.len() as int),
    ensures
        exists|i: int| 0 <= i < m.len() && #[trigger] frames_before(m, i) <= k < frames_before(m, i + 1),
{
    lemma_step_in_some_note(m, k, m.len() as int);
}

/// The tune loops. From its first note, playback reaches the end of the
/// tune after as many frames as its notes last together, and one frame
/// later it is back at the first note.
pub proof fn lemma_tune_loops(v: PlayerView)
    requires
        v.wf(),
        v.note == 0,
        v.timer == 0,
    ensures
        v.played_n(frames_before(v.melody, v.melody.len() as int) as nat)
            == (PlayerView { note: v.melody.len() as int, timer: 0, ..v }),
        v.played_n((frames_before(v.melody, v.melody.len() as int) + 1) as nat) == v,
{
    let m = v.melody;
    lemma_between_notes(v, m.len() as int);
    lemma_frames_before_mono(m, 0, m.len() as int);
}

/// The tones of `a` steps and then `b` more are those of `a + b` steps.
pub proof fn lemma_tones_n_add(v: PlayerView, a: nat, b: nat)
    ensures
        v.tones_n(a + b) == v.tones_n(a) + v.played_n(a).tones_n(b),
    decreases b,
{
    if b > 0 {
        lemma_tones_n_add(v, a, (b - 1) as nat);
        lemma_played_n_add(v, a, (b - 1) as nat);
        assert(v.tones_n(a + b) == v.tones_n((a + b - 1) as nat) + tone_seq(
            v.played_n((a + b - 1) as nat).tone(),
        ));
        assert(v.tones_n(a + b) =~= v.tones_n(a) + v.played_n(a).tones_n(b));
    }
}

proof fn lemma_note_tones(w: PlayerView, k: nat)
    requires
        w.wf(),
        w.note < w.melody.len(),
        w.timer == 0,
        1 <= k <= w.melody[w.note].1,
    ensures
        w.tones_n(k) == tone_seq(note_sound(w.melody[w.note])),
    decreases k,
{
    if k == 1 {
        assert(w.played_n(0) == w);
        assert(w.tones_n(0) == Seq::<Tone>::empty());
        assert(w.tones_n(1) =~= tone_seq(w.tone()));
    } else {
        lemma_note_tones(w, (k - 1) as nat);
        lemma_note_rest(w, (k - 1) as nat);
        assert(w.tones_n(k) =~= w.tones_n((k - 1) as nat));
    }
}

proof fn lemma_tones_to_note(v: PlayerView, j: int)
    requires
        v.wf(),
        v.note == 0,
        v.timer == 0,
        0 <= j <= v.melody.len(),
    ensures
        v.tones_n(frames_before(v.melody, j) as nat) == melody_tones(v.melody.take(j)),
    decreases j,
{
    let m = v.melody;
    if j == 0 {
        assert(m.take(0).filter_map(note_sound_fn()) =~= Seq::empty());
    } else {
        lemma_tones_to_note(v, j - 1);
        lemma_frames_before_mono(m, 0, j - 1);
        let a = frames_before(m, j - 1) as nat;
        let d = m[j - 1].1 as nat;
        lemma_tones_n_add(v, a, d);
        lemma_between_notes(v, j - 1);
        lemma_note_tones(PlayerView { note: j - 1, timer: 0, ..v }, d);
        m.lemma_filter_map_take_succ(note_sound_fn(), j - 1);
        assert(a + d == frames_before(m, j) as nat);
    }
}

/// One pass of the tune sounds exactly its notes that are not rests, each
/// once, in the order of the score; then playback is back at the first note.
pub proof fn lemma_one_pass_sounds_the_tune(v: PlayerView)
    requires
        v.wf(),
        v.note == 0,
        v.timer == 0,
    ensures
        v.tones_n((frames_before(v.melody, v.melody.len() as int) + 1) as nat) == melody_tones(
            v.melody,
        ),
        v.played_n((frames_before(v.melody, v.melody.len() as int) + 1) as nat) == v,
{
    let m = v.melody;
    let total = frames_before(m, m.len() as int);
    lemma_tones_to_note(v, m.len() as int);
    lemma_tune_loops(v);
    assert(m.take(m.len() as int) =~= m);
    lemma_frames_before_mono(m, 0, m.len() as int);
    assert(v.played_n(total as nat).tone() is None);
    assert(v.tones_n((total + 1) as nat) == v.tones_n(total as nat) + tone_seq(
        v.played_n(total as nat).tone(),
    ));
    assert(v.tones_n((total + 1) as nat) =~= v.tones_n(total as nat));
}

/// Steps of playback until the first note starts again.
pub open spec fn frames_to_restart(v: PlayerView) -> int {
    frames_before(v.melody, v.melody.len() as int) - frames_before(v.melody, v.note) - v.timer + 1
}

/// Steps of playback until note `j` next starts (zero if it starts now).
pub open spec fn frames_to_note(v: PlayerView, j: int) -> int {
    if j > v.note || (j == v.note && v.timer == 0) {
        frames_before(v.melody, j) - frames_before(v.melody, v.note) - v.timer
    } else {
        frames_to_restart(v) + frames_before(v.melody, j)
    }
}

/// From any state, playback is back at the first note within one pass of
/// the tune and one frame.
pub proof fn lemma_restarts_within_one_pass(v: PlayerView)
    requires
        v.wf(),
    ensures
        1 <= frames_to_restart(v) <= frames_before(v.melody, v.melody.len() as int) + 1,
        v.played_n(frames_to_restart(v) as nat) == (PlayerView { note: 0, timer: 0, ..v }),
{
    let m = v.melody;
    let len = m.len() as int;
    lemma_frames_before_mono(m, 0, v.note);
    if v.note < len {
        let d = m[v.note].1;
        let w = PlayerView { note: v.note + 1, timer: 0, ..v };
        lemma_note_rest(v, (d - v.timer) as nat);
        lemma_between_notes(w, len);
        lemma_frames_before_mono(m, v.note + 1, len);
        let a = (d - v.timer) as nat;
        let b = (frames_before(m, len) - frames_before(m, v.note + 1)) as nat;
        lemma_played_n_add(v, a, b);
        lemma_played_n_add(v, a + b, 1);
        assert(v.played_n(a + b).played_n(0) == v.played_n(a + b));
        assert(v.played_n(a + b).played_n(1) == v.played_n(a + b).played());
        assert(a + b + 1 == frames_to_restart(v) as nat);
    } else {
        assert(v.played_n(0) == v);
        assert(v.played_n(1) == v.played());
    }
}

/// From any state, every note of the tune starts, with its own tone, within
/// one pass of the tune and one frame.
pub proof fn lemma_every_note_within_one_pass(v: PlayerView, j: int)
    requires
        v.wf(),
        0 <= j < v.melody.len(),
    ensures
        0 <= frames_to_note(v, j) <= frames_before(v.melody, v.melody.len() as int),
        v.played_n(frames_to_note(v, j) as nat) == (PlayerView { note: j, timer: 0, ..v }),
        v.played_n(frames_to_note(v, j) as nat).tone() == note_sound(v.melody[j]),
{
    let m = v.melody;
    let len = m.len() as int;
    lemma_frames_before_mono(m, 0, v.note);
    lemma_frames_before_mono(m, j, len);
    if j == v.note && v.timer == 0 {
    } else if j > v.note {
        let d = m[v.note].1;
        let w = PlayerView { note: v.note + 1, timer: 0, ..v };
        lemma_note_rest(v, (d - v.timer) as nat);
        lemma_between_notes(w, j);
        lemma_frames_before_mono(m, v.note + 1, j);
        let a = (d - v.timer) as nat;
        let b = (frames_before(m, j) - frames_before(m, v.note + 1)) as nat;
        lemma_played_n_add(v, a, b);
        assert(a + b == frames_to_note(v, j) as nat);
    } else {
        lemma_restarts_within_one_pass(v);
        let r = frames_to_restart(v) as nat;
        let u = PlayerView { note: 0, timer: 0, ..v };
        lemma_between_notes(u, j);
        lemma_frames_before_mono(m, 0, j);
        lemma_played_n_add(v, r, frames_before(m, j) as nat);
        if j < v.note {
            lemma_frames_before_mono(m, j, v.note);
        }
    }
}

/// Pressing X forgets where playback stood: whatever state the cart was in,
/// with the same melody it draws and plays the same frame and ends in the
/// same state, the one a fresh cart is in after its first frame.
pub proof fn lemma_restart_forgets_progress(v: PlayerView, gamepad: u8)
    requires
        button_pressed(gamepad),
    ensures
        v.updated(gamepad) == PlayerView::start(v.melody).updated(0),
        v.frame_progress(gamepad) == PlayerView::start(v.melody).frame_progress(0),
        v.frame_tone(gamepad) == PlayerView::start(v.melody).frame_tone(0),
{
    assert(!button_pressed(0u8)) by (bit_vector);
}

/// Of the gamepad, a frame reads only the X button: two gamepad states that
/// agree on it give the same frame and the same new state.
pub proof fn lemma_frame_reads_only_x(v: PlayerView, g1: u8, g2: u8)
    requires
        button_pressed(g1) == button_pressed(g2),
    ensures
        v.updated(g1) == v.updated(g2),
        v.frame_colors(g1) == v.frame_colors(g2),
        v.frame_progress(g1) == v.frame_progress(g2),
        v.frame_tone(g1) == v.frame_tone(g2),
{
}

/// A frame never reads the frame counter: two states that differ only in it
/// draw and play the same frame and reach the same playback position; when X
/// is pressed they end in the same state altogether.
pub proof fn lemma_frame_counter_not_read(v1: PlayerView, v2: PlayerView, gamepad: u8)
    requires
        v1.melody == v2.melody,
        v1.note == v2.note,
        v1.timer == v2.timer,
    ensures
        v1.frame_colors(gamepad) == v2.frame_colors(gamepad),
        v1.frame_progress(gamepad) == v2.frame_progress(gamepad),
        v1.frame_tone(gamepad) == v2.frame_tone(gamepad),
        v1.updated(gamepad).melody == v2.updated(gamepad).melody,
        v1.updated(gamepad).note == v2.updated(gamepad).note,
        v1.updated(gamepad).timer == v2.updated(gamepad).timer,
        button_pressed(gamepad) ==> v1.updated(gamepad) == v2.updated(gamepad),
{
}

/// Whatever the frame counter, a frame leaves playback at a position it can
/// be at, and its progress line names a note from 1 to one past the last.
pub proof fn lemma_frame_keeps_position_valid(v: PlayerView, gamepad: u8)
    requires
        valid_melody(v.melody),
        position_valid(v.melody, v.note, v.timer),
    ensures
        position_valid(v.melody, v.updated(gamepad).note, v.updated(gamepad).timer),
        1 <= v.frame_start(gamepad).note + 1 <= v.melody.len() + 1,
        v.frame_progress(gamepad) == progress_label(
            (v.frame_start(gamepad).note + 1) as nat,
            v.melody.len(),
        ),
{
}

/// Frames without X are steps of playback that also count frames: the
/// position and the tones are those of playback alone.
pub proof fn lemma_frames_are_playback(v: PlayerView, gamepad: u8, n: nat)
    requires
        !button_pressed(gamepad),
    ensures
        v.updated_n(gamepad, n) == (PlayerView {
            time_frame: v.time_frame + n,
            ..v.played_n(n)
        }),
        v.updated_n(gamepad, n).frame_tone(gamepad) == v.played_n(n).tone(),
    decreases n,
{
    if n > 0 {
        lemma_frames_are_playback(v, gamepad, (n - 1) as nat);
    }
}

/// From any state, frames without X bring playback back to the first note,
/// and start every note with its own tone, within one pass of the tune and
/// one frame.
pub proof fn lemma_frames_loop_from_any_state(v: PlayerView, gamepad: u8, j: int)
    requires
        v.wf(),
        !button_pressed(gamepad),
        0 <= j < v.melody.len(),
    ensures
        1 <= frames_to_restart(v) <= frames_before(v.melody, v.melody.len() as int) + 1,
        v.updated_n(gamepad, frames_to_restart(v) as nat).note == 0,
        v.updated_n(gamepad, frames_to_restart(v) as nat).timer == 0,
        0 <= frames_to_note(v, j) <= frames_before(v.melody, v.melody.len() as int),
        v.updated_n(gamepad, frames_to_note(v, j) as nat).frame_tone(gamepad) == note_sound(
            v.melody[j],
        ),
{
    lemma_restarts_within_one_pass(v);
    lemma_every_note_within_one_pass(v, j);
    lemma_frames_are_playback(v, gamepad, frames_to_restart(v) as nat);
    lemma_frames_are_playback(v, gamepad, frames_to_note(v, j) as nat);
}

/// A frame restarts exactly when bit 0 of the gamepad (the X button) is
/// set. With it clear, the frame is the one of an idle gamepad: one step of
/// playback, the counter up by one, drawn in palette setting 2. With it
/// set, the frame is the one of a gamepad with only X down: playback from
/// the first note, the counter at one, drawn in palette setting 4.
pub proof fn lemma_restart_exactly_on_x(v: PlayerView, gamepad: u8)
    ensures
        gamepad & 1u8 == 0 ==> {
            &&& v.updated(gamepad) == v.updated(0)
            &&& v.updated(gamepad) == (PlayerView { time_frame: v.time_frame + 1, ..v.played() })
            &&& v.frame_colors(gamepad) == 2u16
            &&& v.frame_progress(gamepad) == progress_label((v.note + 1) as nat, v.melody.len())
            &&& v.frame_tone(gamepad) == v.tone()
        },
        gamepad & 1u8 != 0 ==> {
            &&& v.updated(gamepad) == v.updated(1)
            &&& v.updated(gamepad) == (PlayerView {
                time_frame: 1,
                ..PlayerView::start(v.melody).played()
            })
            &&& v.frame_colors(gamepad) == 4u16
            &&& v.frame_progress(gamepad) == progress_label(1, v.melody.len())
            &&& v.frame_tone(gamepad) == PlayerView::start(v.melody).tone()
        },
{
    assert(gamepad & 1u8 == 0 ==> !(gamepad & 1u8 != 0)) by (bit_vector);
    assert(0u8 & 1u8 == 0) by (bit_vector);
    assert(1u8 & 1u8 != 0) by (bit_vector);
}

/// A string is a number written in decimal: one or more ASCII digits, with
/// no leading zero unless it is the single digit zero.
pub open spec fn is_decimal(s: Seq<char>) -> bool {
    &&& s.len() > 0
    &&& forall|i: int| 0 <= i < s.len() ==> 48 <= #[trigger] (s[i] as int) <= 57
    &&& s.len() > 1 ==> s[0] != '0'
}

/// The progress line reads back: it is `Note: `, then `shown` written in
/// decimal, then `/`, then `total` written in decimal.
pub proof fn lemma_progress_line_reads_back(shown: nat, total: nat)
    ensures
        ({
            let s = progress_label(shown, total);
            exists|k: int|
                #![trigger s[k]]
                {
                    &&& 6 < k < s.len()
                    &&& s[k] == '/'
                    &&& s.subrange(0, 6) == seq!['N', 'o', 't', 'e', ':', ' ']
                    &&& is_decimal(s.subrange(6, k))
                    &&& decimal_value(s.subrange(6, k)) == shown
                    &&& is_decimal(s.subrange(k + 1, s.len() as int))
                    &&& decimal_value(s.subrange(k + 1, s.len() as int)) == total
                }
        }),
{
    let s = progress_label(shown, total);
    lemma_decimal_roundtrip(shown);
    lemma_decimal_roundtrip(total);
    let k: int = 6 + decimal(shown).len() as int;
    assert(s.subrange(0, 6) =~= seq!['N', 'o', 't', 'e', ':', ' ']);
    assert(s.subrange(6, k) =~= decimal(shown));
    assert(s.subrange(k + 1, s.len() as int) =~= decimal(total));
    assert(s[k] == '/');
    assert(digit_char(0) == '0');
}

/// Decimal writing is faithful: `decimal(n)` is a nonempty string of ASCII
/// digits that starts with a zero only for zero itself, and it reads back
/// as `n`.
pub proof fn lemma_decimal_roundtrip(n: nat)
    ensures
        decimal(n).len() > 0,
        forall|i: int| 0 <= i < decimal(n).len() ==> 48 <= #[trigger] (decimal(n)[i] as int) <= 57,
        n > 0 ==> decimal(n)[0] != digit_char(0),
        decimal_value(decimal(n)) == n,
    decreases n,
{
    if n >= 10 {
        lemma_decimal_roundtrip(n / 10);
        let s = decimal(n);
        assert(s.drop_last() == decimal(n / 10));
        assert(s.last() as int == n % 10 + 48);
        assert((n / 10) * 10 + n % 10 == n);
    } else {
        assert(decimal_value(decimal(n).drop_last()) == 0);
        assert(decimal(n).last() as int == n + 48);
    }
}

} // verus!
