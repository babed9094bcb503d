//! The cart's state and what one frame does to it.
use vstd::prelude::*;
use crate::display::{progress_label, progress_text};
use crate::melody::{
    lemma_nandemonaiya_valid, nandemonaiya, nandemonaiya_melody, valid_melody, Note,
    MAX_NOTE_FRAMES,
};
use crate::pitch::FPS;

verus! {

/// Volume of every tone the cart plays: full volume.
pub const TONE_VOLUME: u32 = 100;

/// Tone flag that selects the first pulse channel.
pub const TONE_PULSE1: u32 = 0;

/// Tone flag that selects the first duty cycle (12.5%) of a pulse channel.
pub const TONE_MODE1: u32 = 0;

/// Gamepad bit of the first button (X).
pub const BUTTON_1: u8 = 1;

/// Palette setting for everything the cart draws on an ordinary frame.
pub const TEXT_COLORS: u16 = 2;

/// Palette setting for the sprite and the lower lines on a frame where the
/// player pressed X.
pub const RESTART_COLORS: u16 = 4;

/// A sound to start on the console's sound chip.
#[derive(Clone, Copy, Debug, PartialEq, Eq, Structural)]
pub struct Tone {
    /// Frequency in hertz.
    pub frequency: u32,
    /// Length in milliseconds.
    pub duration: u32,
    /// Volume, 0 to 100.
    pub volume: u32,
    /// Channel and duty-cycle flags.
    pub flags: u32,
}

/// Length in milliseconds of a note that lasts `frames` frames.
pub open spec fn frames_to_ms(frames: int) -> int {
    frames * 1000 / FPS as int
}

/// Where playback may stand in melody `m`: on a note, fewer frames into it
/// than it lasts, or just past the last note with its frame counter at zero.
pub open spec fn position_valid(m: Seq<Note>, note: int, timer: int) -> bool {
    &&& 0 <= note <= m.len()
    &&& 0 <= timer
    &&& note < m.len() ==> timer < m[note].1
    &&& note == m.len() ==> timer == 0
}

/// Where playback stands one frame later. A note is held for as many frames
/// as it lasts; past the last note, playback goes back to the first.
pub open spec fn next_position(m: Seq<Note>, note: int, timer: int) -> (int, int) {
    if 0 <= note < m.len() {
        if timer + 1 >= m[note].1 {
            (note + 1, 0)
        } else {
            (note, timer + 1)
        }
    } else {
        (0, 0)
    }
}

/// The tone that sounds note `n`: its frequency, for as long as the note
/// lasts, at full volume on the first pulse channel.
pub open spec fn note_tone(n: Note) -> Tone {
    Tone {
        frequency: n.0,
        duration: frames_to_ms(n.1 as int) as u32,
        volume: TONE_VOLUME,
        flags: TONE_PULSE1 | TONE_MODE1,
    }
}

/// The tone, if any, that note `n` makes: none for a rest.
pub open spec fn note_sound(n: Note) -> Option<Tone> {
    if n.0 > 0 {
        Some(note_tone(n))
    } else {
        None
    }
}

/// The tone started on a frame: on the first frame of a note, the sound of
/// that note; on any other frame, and past the last note, none.
pub open spec fn tone_at(m: Seq<Note>, note: int, timer: int) -> Option<Tone> {
    if 0 <= note < m.len() && timer == 0 {
        note_sound(m[note])
    } else {
        None
    }
}

/// `note_sound` as a function value.
pub open spec fn note_sound_fn() -> spec_fn(Note) -> Option<Tone> {
    |n: Note| note_sound(n)
}

/// The tones, in order, that melody `m` makes when played through once:
/// the sound of each note that is not a rest.
pub open spec fn melody_tones(m: Seq<Note>) -> Seq<Tone> {
    m.filter_map(note_sound_fn())
}

/// An optional tone as a sequence of zero or one tones.
pub open spec fn tone_seq(t: Option<Tone>) -> Seq<Tone> {
    match t {
        Some(x) => seq![x],
        None => Seq::empty(),
    }
}

/// Whether the gamepad state has the X button down.
pub open spec fn button_pressed(gamepad: u8) -> bool {
    gamepad & BUTTON_1 != 0
}

/// The state of the cart, as plain values.
pub struct PlayerView {
    /// The melody being played.
    pub melody: Seq<Note>,
    /// Frames drawn since the start or since the last restart.
    pub time_frame: int,
    /// Index of the note being played.
    pub note: int,
    /// Frames already spent on that note.
    pub timer: int,
}

impl PlayerView {
    /// The state right after the cart starts with melody `m`.
    pub open spec fn start(m: Seq<Note>) -> PlayerView {
        PlayerView { melody: m, time_frame: 0, note: 0, timer: 0 }
    }

    /// The states the cart can be in.
    pub open spec fn wf(self) -> bool {
        &&& valid_melody(self.melody)
        &&& position_valid(self.melody, self.note, self.timer)
        &&& 0 <= self.time_frame <= i32::MAX
    }

    /// The state after one step of playback.
    pub open spec fn played(self) -> PlayerView {
        let (note, timer) = next_position(self.melody, self.note, self.timer);
        PlayerView { note, timer, ..self }
    }

    /// The state after `n` steps of playback.
    pub open spec fn played_n(self, n: nat) -> PlayerView
        decreases n,
    {
        if n == 0 {
            self
        } else {
            self.played_n((n - 1) as nat).played()
        }
    }

    /// The tones that `n` steps of playback start, in order.
    pub open spec fn tones_n(self, n: nat) -> Seq<Tone>
        decreases n,
    {
        if n == 0 {
            Seq::empty()
        } else {
            self.tones_n((n - 1) as nat) + tone_seq(self.played_n((n - 1) as nat).tone())
        }
    }

    /// The state after `n` frames with the same gamepad state.
    pub open spec fn updated_n(self, gamepad: u8, n: nat) -> PlayerView
        decreases n,
    {
        if n == 0 {
            self
        } else {
            self.updated_n(gamepad, (n - 1) as nat).updated(gamepad)
        }
    }

    /// The tone that the next step of playback starts.
    pub open spec fn tone(self) -> Option<Tone> {
        tone_at(self.melody, self.note, self.timer)
    }

    /// Back at the first note and frame zero, with the same melody.
    pub open spec fn restarted(self) -> PlayerView {
        PlayerView { time_frame: 0, note: 0, timer: 0, ..self }
    }

    /// The state a frame works from: restarted if X is down.
    pub open spec fn frame_start(self, gamepad: u8) -> PlayerView {
        if button_pressed(gamepad) {
            self.restarted()
        } else {
            self
        }
    }

    /// The state after a whole frame.
    pub open spec fn updated(self, gamepad: u8) -> PlayerView {
        let s = self.frame_start(gamepad);
        PlayerView { time_frame: s.time_frame + 1, ..s.played() }
    }

    /// The palette setting for the sprite and the lower lines of a frame.
    pub open spec fn frame_colors(self, gamepad: u8) -> u16 {
        if button_pressed(gamepad) {
            RESTART_COLORS
        } else {
            TEXT_COLORS
        }
    }

    /// The progress line of a frame: the note about to play, counted from
    /// one, out of the length of the melody.
    pub open spec fn frame_progress(self, gamepad: u8) -> Seq<char> {
        let s = self.frame_start(gamepad);
        progress_label((s.note + 1) as nat, s.melody.len())
    }

    /// The tone a frame starts.
    pub open spec fn frame_tone(self, gamepad: u8) -> Option<Tone> {
        self.frame_start(gamepad).tone()
    }
}

/// Playback position: the note being played and the frames spent on it.
#[derive(Clone, Copy)]
struct Position {
    note: usize,
    timer: i32,
}

/// The cart: a melody and how far it has been played.
pub struct Player {
    melody: Vec<Note>,
    time_frame: i32,
    position: Position,
}

/// What a frame draws and plays, in the order the cart does it: the title
/// lines in `TEXT_COLORS`, then in `colors` the smiley, the progress line and
/// the hint line, and last the tone.
pub struct Frame {
    /// Palette setting for the smiley, the progress line and the hint line.
    pub colors: u16,
    /// The progress line.
    pub progress: String,
    /// The tone to start, if any.
    pub tone: Option<Tone>,
}

impl View for Player {
    type V = PlayerView;

    closed spec fn view(&self) -> PlayerView {
        PlayerView {
            melody: self.melody@,
            time_frame: self.time_frame as int,
            note: self.position.note as int,
            timer: self.position.timer as int,
        }
    }
}

impl Player {
    #[verifier::type_invariant]
    spec fn inv(self) -> bool {
        &&& valid_melody(self.melody@)
        &&& position_valid(self.melody@, self.position.note as int, self.position.timer as int)
        &&& 0 <= self.time_frame
    }

    /// A cart that plays `melody` from its first note, if the melody can be
    /// played: `None` if a note lasts less than one frame or more than
    /// `MAX_NOTE_FRAMES`, or if the melody has `usize::MAX` notes.
    pub fn new(melody: Vec<Note>) -> (r: Option<Player>)
        ensures
            r is Some <==> valid_melody(melody@),
            r matches Some(p) ==> p@ == PlayerView::start(melody@) && p@.wf(),
    {
        if melody.len() == usize::MAX {
            return None;
        }
        let mut i: usize = 0;
        while i < melody.len()
            invariant
                i <= melody.len(),
                forall|j: int| 0 <= j < i ==> 1 <= #[trigger] melody@[j].1 <= MAX_NOTE_FRAMES,
            decreases melody.len() - i,
        {
            let frames = melody[i].1;
            if frames < 1 || frames > MAX_NOTE_FRAMES {
                return None;
            }
            i = i + 1;
        }
        Some(Player { melody, time_frame: 0, position: Position { note: 0, timer: 0 } })
    }

    /// The cart as it ships: Nandemonaiya from its first note.
    pub fn nandemonaiya() -> (p: Player)
        ensures
            p@ == PlayerView::start(nandemonaiya()),
            p@.wf(),
    {
        proof {
            lemma_nandemonaiya_valid();
        }
        Player { melody: nandemonaiya_melody(), time_frame: 0, position: Position { note: 0, timer: 0 } }
    }

    /// Plays one frame of the melody: starts the current note's tone on its
    /// first frame unless it is a rest, and moves on to the next note once
    /// the current one has lasted its length. Past the last note, it goes
    /// back to the first without playing anything.
    pub fn play_music_sequence(&mut self) -> (tone: Option<Tone>)
        ensures
            old(self)@.wf(),
            final(self)@ == old(self)@.played(),
            tone == old(self)@.tone(),
            final(self)@.wf(),
    {
        proof {
            use_type_invariant(&*self);
        }
        let note = self.position.note;
        if note < self.melody.len() {
            let (frequency, frames) = self.melody[note];
            let mut tone = None;
            if self.position.timer == 0 && frequency > 0 {
                tone = Some(
                    Tone {
                        frequency,
                        duration: (frames * 1000 / FPS) as u32,
                        volume: TONE_VOLUME,
                        flags: TONE_PULSE1 | TONE_MODE1,
                    },
                );
            }
            let timer = self.position.timer + 1;
            if timer >= frames {
                self.position = Position { note: note + 1, timer: 0 };
            } else {
                self.position = Position { note, timer };
            }
            tone
        } else {
            self.position = Position { note: 0, timer: 0 };
            None
        }
    }

    /// One frame of the cart. If X is down, playback restarts from the first
    /// note and the lower part of the screen is drawn in `RESTART_COLORS`.
    /// Then the progress line is made, one step of playback is taken and the
    /// frame counter goes up by one.
    pub fn update(&mut self, gamepad: u8) -> (frame: Frame)
        requires
            !button_pressed(gamepad) ==> old(self)@.time_frame < i32::MAX,
        ensures
            old(self)@.wf(),
            frame.colors == old(self)@.frame_colors(gamepad),
            frame.progress@ == old(self)@.frame_progress(gamepad),
            frame.tone == old(self)@.frame_tone(gamepad),
            final(self)@ == old(self)@.updated(gamepad),
            final(self)@.wf(),
    {
        proof {
            use_type_invariant(&*self);
        }
        let mut colors = TEXT_COLORS;
        if gamepad & BUTTON_1 != 0 {
            colors = RESTART_COLORS;
            self.time_frame = 0;
            self.position = Position { note: 0, timer: 0 };
        }
        let progress = progress_text(self.position.note, self.melody.len());
        let tone = self.play_music_sequence();
        proof {
            use_type_invariant(&*self);
        }
        self.time_frame = self.time_frame + 1;
        Frame { colors, progress, tone }
    }

    /// Index of the note being played.
    pub fn current_note(&self) -> (note: usize)
        ensures
            note == self@.note,
            self@.wf(),
    {
        proof {
            use_type_invariant(self);
        }
        self.position.note
    }

    /// Frames already spent on the current note.
    pub fn note_timer(&self) -> (timer: i32)
        ensures
            timer == self@.timer,
            self@.wf(),
    {
        proof {
            use_type_invariant(self);
        }
        self.position.timer
    }

    /// Frames drawn since the start or the last restart.
    pub fn time_frame(&self) -> (frames: i32)
        ensures
            frames == self@.time_frame,
            self@.wf(),
    {
        proof {
            use_type_invariant(self);
        }
        self.time_frame
    }

    /// The melody being played.
    pub fn melody(&self) -> (m: &[Note])
        ensures
            m@ == self@.melody,
            self@.wf(),
    {
        proof {
            use_type_invariant(self);
        }
        self.melody.as_slice()
    }
}

} // verus!
