//! Note frequencies and note lengths used by the tune.
use vstd::prelude::*;

verus! {

// Middle octave, C4 to B4 (frequencies in hertz).
pub const DO: u32 = 262;
pub const DO_SHARP: u32 = 277;
pub const RE: u32 = 294;
pub const RE_SHARP: u32 = 311;
pub const MI: u32 = 330;
pub const FA: u32 = 349;
pub const FA_SHARP: u32 = 370;
pub const SOL: u32 = 392;
pub const SOL_SHARP: u32 = 415;
pub const LA: u32 = 440;
pub const LA_SHARP: u32 = 466;
pub const SI: u32 = 494;

// Low octave, C3 to B3.
pub const DO_LOW: u32 = 131;
pub const DO_SHARP_LOW: u32 = 139;
pub const RE_LOW: u32 = 147;
pub const RE_SHARP_LOW: u32 = 156;
pub const MI_LOW: u32 = 165;
pub const FA_LOW: u32 = 175;
pub const FA_SHARP_LOW: u32 = 185;
pub const SOL_LOW: u32 = 196;
pub const SOL_SHARP_LOW: u32 = 208;
pub const LA_LOW: u32 = 220;
pub const LA_SHARP_LOW: u32 = 233;
pub const SI_LOW: u32 = 247;

// High octave, C5 to B5.
pub const DO_HIGH: u32 = 523;
pub const DO_SHARP_HIGH: u32 = 554;
pub const RE_HIGH: u32 = 587;
pub const RE_SHARP_HIGH: u32 = 622;
pub const MI_HIGH: u32 = 659;
pub const FA_HIGH: u32 = 698;
pub const FA_SHARP_HIGH: u32 = 740;
pub const SOL_HIGH: u32 = 784;
pub const SOL_SHARP_HIGH: u32 = 831;
pub const LA_HIGH: u32 = 880;
pub const LA_SHARP_HIGH: u32 = 932;
pub const SI_HIGH: u32 = 988;

// Higher octave, C6 to B6 (natural notes only).
pub const DO_VERY_HIGH: u32 = 1047;
pub const RE_VERY_HIGH: u32 = 1175;
pub const MI_VERY_HIGH: u32 = 1319;
pub const FA_VERY_HIGH: u32 = 1397;
pub const SOL_VERY_HIGH: u32 = 1568;
pub const LA_VERY_HIGH: u32 = 1760;
pub const SI_VERY_HIGH: u32 = 1976;

/// Frames per second of the console.
pub const FPS: i32 = 60;
/// Base note length, in frames.
pub const TEMPO: i32 = 6;
/// Length of a quick note or a short pause, in frames.
pub const TEMPO_SHORT: i32 = 4;
/// Length of a held note, in frames.
pub const TEMPO_LONG: i32 = 12;
/// The frequency that stands for a pause: nothing sounds.
pub const REST: u32 = 0;

} // verus!
