//! The tune the cart plays: Nandemonaiya by RADWIMPS, note by note.
use vstd::prelude::*;
use crate::pitch::{
    DO_HIGH, DO_VERY_HIGH, LA, LA_HIGH, LA_LOW, MI_HIGH, MI_VERY_HIGH, RE_HIGH, RE_VERY_HIGH, REST,
    SI_HIGH, SOL, SOL_HIGH, TEMPO, TEMPO_LONG, TEMPO_SHORT,
};

verus! {

/// A note of a melody: its frequency in hertz (`REST` for silence) and how
/// many frames it lasts.
pub type Note = (u32, i32);

/// Opening phrase: E D C C, C G G A C' B A, C D E.
pub open spec fn phrase_1() -> Seq<Note> {
    seq![
        (MI_HIGH, 10), (RE_HIGH, 10), (DO_HIGH, 10), (DO_HIGH, 30),
        (REST, 30), (DO_HIGH, 30), (SOL, TEMPO), (SOL, TEMPO),
        (LA, TEMPO), (DO_VERY_HIGH, TEMPO), (SI_HIGH, TEMPO), (LA_HIGH, TEMPO),
        (REST, TEMPO_SHORT), (DO_HIGH, TEMPO), (RE_HIGH, TEMPO), (MI_HIGH, TEMPO),
        (REST, TEMPO),
    ]
}

fn push_phrase_1(v: &mut Vec<Note>)
    ensures
        final(v)@ == old(v)@ + phrase_1(),
{
    v.push((MI_HIGH, 10));
    v.push((RE_HIGH, 10));
    v.push((DO_HIGH, 10));
    v.push((DO_HIGH, 30));
    v.push((REST, 30));
    v.push((DO_HIGH, 30));
    v.push((SOL, TEMPO));
    v.push((SOL, TEMPO));
    v.push((LA, TEMPO));
    v.push((DO_VERY_HIGH, TEMPO));
    v.push((SI_HIGH, TEMPO));
    v.push((LA_HIGH, TEMPO));
    v.push((REST, TEMPO_SHORT));
    v.push((DO_HIGH, TEMPO));
    v.push((RE_HIGH, TEMPO));
    v.push((MI_HIGH, TEMPO));
    v.push((REST, TEMPO));
}

/// Second phrase: E D C C, C G E D, C C, C D, C C.
pub open spec fn phrase_2() -> Seq<Note> {
    seq![
        (MI_HIGH, TEMPO), (RE_HIGH, TEMPO), (DO_HIGH, TEMPO), (DO_HIGH, TEMPO),
        (REST, TEMPO_SHORT), (DO_HIGH, TEMPO), (SOL, TEMPO), (MI_HIGH, TEMPO),
        (RE_HIGH, TEMPO), (REST, TEMPO_SHORT), (DO_HIGH, TEMPO_LONG), (DO_HIGH, TEMPO),
        (REST, TEMPO_SHORT), (DO_HIGH, TEMPO), (RE_HIGH, TEMPO), (REST, TEMPO_SHORT),
        (DO_HIGH, TEMPO_LONG), (DO_HIGH, TEMPO), (REST, TEMPO),
    ]
}

fn push_phrase_2(v: &mut Vec<Note>)
    ensures
        final(v)@ == old(v)@ + phrase_2(),
{
    v.push((MI_HIGH, TEMPO));
    v.push((RE_HIGH, TEMPO));
    v.push((DO_HIGH, TEMPO));
    v.push((DO_HIGH, TEMPO));
    v.push((REST, TEMPO_SHORT));
    v.push((DO_HIGH, TEMPO));
    v.push((SOL, TEMPO));
    v.push((MI_HIGH, TEMPO));
    v.push((RE_HIGH, TEMPO));
    v.push((REST, TEMPO_SHORT));
    v.push((DO_HIGH, TEMPO_LONG));
    v.push((DO_HIGH, TEMPO));
    v.push((REST, TEMPO_SHORT));
    v.push((DO_HIGH, TEMPO));
    v.push((RE_HIGH, TEMPO));
    v.push((REST, TEMPO_SHORT));
    v.push((DO_HIGH, TEMPO_LONG));
    v.push((DO_HIGH, TEMPO));
    v.push((REST, TEMPO));
}

/// Third phrase, the opening line at the steady tempo; the fifth phrase repeats it.
pub open spec fn phrase_3() -> Seq<Note> {
    seq![
        (MI_HIGH, TEMPO), (RE_HIGH, TEMPO), (DO_HIGH, TEMPO), (DO_HIGH, TEMPO),
        (REST, TEMPO_SHORT), (DO_HIGH, TEMPO), (SOL, TEMPO), (SOL, TEMPO),
        (LA, TEMPO), (DO_VERY_HIGH, TEMPO), (SI_HIGH, TEMPO), (LA_HIGH, TEMPO),
        (REST, TEMPO_SHORT), (DO_HIGH, TEMPO), (RE_HIGH, TEMPO), (MI_HIGH, TEMPO),
        (REST, TEMPO),
    ]
}

fn push_phrase_3(v: &mut Vec<Note>)
    ensures
        final(v)@ == old(v)@ + phrase_3(),
{
    v.push((MI_HIGH, TEMPO));
    v.push((RE_HIGH, TEMPO));
    v.push((DO_HIGH, TEMPO));
    v.push((DO_HIGH, TEMPO));
    v.push((REST, TEMPO_SHORT));
    v.push((DO_HIGH, TEMPO));
    v.push((SOL, TEMPO));
    v.push((SOL, TEMPO));
    v.push((LA, TEMPO));
    v.push((DO_VERY_HIGH, TEMPO));
    v.push((SI_HIGH, TEMPO));
    v.push((LA_HIGH, TEMPO));
    v.push((REST, TEMPO_SHORT));
    v.push((DO_HIGH, TEMPO));
    v.push((RE_HIGH, TEMPO));
    v.push((MI_HIGH, TEMPO));
    v.push((REST, TEMPO));
}

/// Fourth phrase: E D C, C G, E D, C C, C D, C C.
pub open spec fn phrase_4() -> Seq<Note> {
    seq![
        (MI_HIGH, TEMPO), (RE_HIGH, TEMPO), (DO_HIGH, TEMPO), (REST, TEMPO_SHORT),
        (DO_HIGH, TEMPO), (SOL, TEMPO), (REST, TEMPO_SHORT), (MI_HIGH, TEMPO),
        (RE_HIGH, TEMPO), (REST, TEMPO_SHORT), (DO_HIGH, TEMPO_LONG), (DO_HIGH, TEMPO),
        (REST, TEMPO_SHORT), (DO_HIGH, TEMPO), (RE_HIGH, TEMPO), (REST, TEMPO_SHORT),
        (DO_HIGH, TEMPO_LONG), (DO_HIGH, TEMPO), (REST, TEMPO_LONG),
    ]
}

fn push_phrase_4(v: &mut Vec<Note>)
    ensures
        final(v)@ == old(v)@ + phrase_4(),
{
    v.push((MI_HIGH, TEMPO));
    v.push((RE_HIGH, TEMPO));
    v.push((DO_HIGH, TEMPO));
    v.push((REST, TEMPO_SHORT));
    v.push((DO_HIGH, TEMPO));
    v.push((SOL, TEMPO));
    v.push((REST, TEMPO_SHORT));
    v.push((MI_HIGH, TEMPO));
    v.push((RE_HIGH, TEMPO));
    v.push((REST, TEMPO_SHORT));
    v.push((DO_HIGH, TEMPO_LONG));
    v.push((DO_HIGH, TEMPO));
    v.push((REST, TEMPO_SHORT));
    v.push((DO_HIGH, TEMPO));
    v.push((RE_HIGH, TEMPO));
    v.push((REST, TEMPO_SHORT));
    v.push((DO_HIGH, TEMPO_LONG));
    v.push((DO_HIGH, TEMPO));
    v.push((REST, TEMPO_LONG));
}

/// Seventh phrase: E D C C, C G G A C' B A, A G G.
pub open spec fn phrase_7() -> Seq<Note> {
    seq![
        (MI_HIGH, TEMPO), (RE_HIGH, TEMPO), (DO_HIGH, TEMPO), (DO_HIGH, TEMPO),
        (REST, TEMPO_SHORT), (DO_HIGH, TEMPO), (SOL, TEMPO), (SOL, TEMPO),
        (LA, TEMPO), (DO_VERY_HIGH, TEMPO), (SI_HIGH, TEMPO), (LA_HIGH, TEMPO),
        (REST, TEMPO_SHORT), (LA_HIGH, TEMPO_LONG), (SOL_HIGH, TEMPO), (SOL_HIGH, TEMPO),
        (REST, TEMPO),
    ]
}

fn push_phrase_7(v: &mut Vec<Note>)
    ensures
        final(v)@ == old(v)@ + phrase_7(),
{
    v.push((MI_HIGH, TEMPO));
    v.push((RE_HIGH, TEMPO));
    v.push((DO_HIGH, TEMPO));
    v.push((DO_HIGH, TEMPO));
    v.push((REST, TEMPO_SHORT));
    v.push((DO_HIGH, TEMPO));
    v.push((SOL, TEMPO));
    v.push((SOL, TEMPO));
    v.push((LA, TEMPO));
    v.push((DO_VERY_HIGH, TEMPO));
    v.push((SI_HIGH, TEMPO));
    v.push((LA_HIGH, TEMPO));
    v.push((REST, TEMPO_SHORT));
    v.push((LA_HIGH, TEMPO_LONG));
    v.push((SOL_HIGH, TEMPO));
    v.push((SOL_HIGH, TEMPO));
    v.push((REST, TEMPO));
}

/// Eighth phrase: C D E, E G E D, C C, C D E C.
pub open spec fn phrase_8() -> Seq<Note> {
    seq![
        (DO_HIGH, TEMPO), (RE_HIGH, TEMPO), (MI_HIGH, TEMPO), (REST, TEMPO_SHORT),
        (MI_HIGH, TEMPO), (SOL_HIGH, TEMPO), (MI_HIGH, TEMPO), (RE_HIGH, TEMPO),
        (REST, TEMPO_SHORT), (DO_HIGH, TEMPO_LONG), (DO_HIGH, TEMPO), (REST, TEMPO_SHORT),
        (DO_HIGH, TEMPO), (RE_HIGH, TEMPO), (MI_HIGH, TEMPO), (DO_HIGH, TEMPO),
        (REST, TEMPO),
    ]
}

fn push_phrase_8(v: &mut Vec<Note>)
    ensures
        final(v)@ == old(v)@ + phrase_8(),
{
    v.push((DO_HIGH, TEMPO));
    v.push((RE_HIGH, TEMPO));
    v.push((MI_HIGH, TEMPO));
    v.push((REST, TEMPO_SHORT));
    v.push((MI_HIGH, TEMPO));
    v.push((SOL_HIGH, TEMPO));
    v.push((MI_HIGH, TEMPO));
    v.push((RE_HIGH, TEMPO));
    v.push((REST, TEMPO_SHORT));
    v.push((DO_HIGH, TEMPO_LONG));
    v.push((DO_HIGH, TEMPO));
    v.push((REST, TEMPO_SHORT));
    v.push((DO_HIGH, TEMPO));
    v.push((RE_HIGH, TEMPO));
    v.push((MI_HIGH, TEMPO));
    v.push((DO_HIGH, TEMPO));
    v.push((REST, TEMPO));
}

/// Ninth phrase: C C G, E D, C C, A C, G.
pub open spec fn phrase_9() -> Seq<Note> {
    seq![
        (DO_HIGH, TEMPO), (DO_HIGH, TEMPO), (SOL, TEMPO), (REST, TEMPO_SHORT),
        (MI_HIGH, TEMPO), (RE_HIGH, TEMPO), (REST, TEMPO_SHORT), (DO_HIGH, TEMPO_LONG),
        (DO_HIGH, TEMPO), (REST, TEMPO_SHORT), (LA_LOW, TEMPO), (DO_HIGH, TEMPO),
        (REST, TEMPO_SHORT), (SOL, TEMPO_LONG), (REST, TEMPO),
    ]
}

fn push_phrase_9(v: &mut Vec<Note>)
    ensures
        final(v)@ == old(v)@ + phrase_9(),
{
    v.push((DO_HIGH, TEMPO));
    v.push((DO_HIGH, TEMPO));
    v.push((SOL, TEMPO));
    v.push((REST, TEMPO_SHORT));
    v.push((MI_HIGH, TEMPO));
    v.push((RE_HIGH, TEMPO));
    v.push((REST, TEMPO_SHORT));
    v.push((DO_HIGH, TEMPO_LONG));
    v.push((DO_HIGH, TEMPO));
    v.push((REST, TEMPO_SHORT));
    v.push((LA_LOW, TEMPO));
    v.push((DO_HIGH, TEMPO));
    v.push((REST, TEMPO_SHORT));
    v.push((SOL, TEMPO_LONG));
    v.push((REST, TEMPO));
}

/// Tenth phrase: E D, C E, C C G, E D, C C, A C.
pub open spec fn phrase_10() -> Seq<Note> {
    seq![
        (MI_HIGH, TEMPO), (RE_HIGH, TEMPO), (REST, TEMPO_SHORT), (DO_HIGH, TEMPO),
        (MI_HIGH, TEMPO), (REST, TEMPO_SHORT), (DO_HIGH, TEMPO), (DO_HIGH, TEMPO),
        (SOL, TEMPO), (REST, TEMPO_SHORT), (MI_HIGH, TEMPO), (RE_HIGH, TEMPO),
        (REST, TEMPO_SHORT), (DO_HIGH, TEMPO_LONG), (DO_HIGH, TEMPO), (REST, TEMPO_SHORT),
        (LA_LOW, TEMPO), (DO_HIGH, TEMPO), (REST, TEMPO),
    ]
}

fn push_phrase_10(v: &mut Vec<Note>)
    ensures
        final(v)@ == old(v)@ + phrase_10(),
{
    v.push((MI_HIGH, TEMPO));
    v.push((RE_HIGH, TEMPO));
    v.push((REST, TEMPO_SHORT));
    v.push((DO_HIGH, TEMPO));
    v.push((MI_HIGH, TEMPO));
    v.push((REST, TEMPO_SHORT));
    v.push((DO_HIGH, TEMPO));
    v.push((DO_HIGH, TEMPO));
    v.push((SOL, TEMPO));
    v.push((REST, TEMPO_SHORT));
    v.push((MI_HIGH, TEMPO));
    v.push((RE_HIGH, TEMPO));
    v.push((REST, TEMPO_SHORT));
    v.push((DO_HIGH, TEMPO_LONG));
    v.push((DO_HIGH, TEMPO));
    v.push((REST, TEMPO_SHORT));
    v.push((LA_LOW, TEMPO));
    v.push((DO_HIGH, TEMPO));
    v.push((REST, TEMPO));
}

/// Eleventh phrase: C C G, E D, C C, A C.
pub open spec fn phrase_11() -> Seq<Note> {
    seq![
        (DO_HIGH, TEMPO), (DO_HIGH, TEMPO), (SOL, TEMPO), (REST, TEMPO_SHORT),
        (MI_HIGH, TEMPO), (RE_HIGH, TEMPO), (REST, TEMPO_SHORT), (DO_HIGH, TEMPO_LONG),
        (DO_HIGH, TEMPO), (REST, TEMPO_SHORT), (LA_LOW, TEMPO), (DO_HIGH, TEMPO),
        (REST, TEMPO),
    ]
}

fn push_phrase_11(v: &mut Vec<Note>)
    ensures
        final(v)@ == old(v)@ + phrase_11(),
{
    v.push((DO_HIGH, TEMPO));
    v.push((DO_HIGH, TEMPO));
    v.push((SOL, TEMPO));
    v.push((REST, TEMPO_SHORT));
    v.push((MI_HIGH, TEMPO));
    v.push((RE_HIGH, TEMPO));
    v.push((REST, TEMPO_SHORT));
    v.push((DO_HIGH, TEMPO_LONG));
    v.push((DO_HIGH, TEMPO));
    v.push((REST, TEMPO_SHORT));
    v.push((LA_LOW, TEMPO));
    v.push((DO_HIGH, TEMPO));
    v.push((REST, TEMPO));
}

/// Twelfth phrase: C' B A, G G, C C G, E D, C C.
pub open spec fn phrase_12() -> Seq<Note> {
    seq![
        (DO_VERY_HIGH, TEMPO), (SI_HIGH, TEMPO), (LA_HIGH, TEMPO), (REST, TEMPO_SHORT),
        (SOL_HIGH, TEMPO_LONG), (SOL_HIGH, TEMPO), (REST, TEMPO_SHORT), (DO_HIGH, TEMPO),
        (DO_HIGH, TEMPO), (SOL, TEMPO), (REST, TEMPO_SHORT), (MI_HIGH, TEMPO),
        (RE_HIGH, TEMPO), (REST, TEMPO_SHORT), (DO_HIGH, TEMPO_LONG), (DO_HIGH, TEMPO),
        (REST, TEMPO_LONG),
    ]
}

fn push_phrase_12(v: &mut Vec<Note>)
    ensures
        final(v)@ == old(v)@ + phrase_12(),
{
    v.push((DO_VERY_HIGH, TEMPO));
    v.push((SI_HIGH, TEMPO));
    v.push((LA_HIGH, TEMPO));
    v.push((REST, TEMPO_SHORT));
    v.push((SOL_HIGH, TEMPO_LONG));
    v.push((SOL_HIGH, TEMPO));
    v.push((REST, TEMPO_SHORT));
    v.push((DO_HIGH, TEMPO));
    v.push((DO_HIGH, TEMPO));
    v.push((SOL, TEMPO));
    v.push((REST, TEMPO_SHORT));
    v.push((MI_HIGH, TEMPO));
    v.push((RE_HIGH, TEMPO));
    v.push((REST, TEMPO_SHORT));
    v.push((DO_HIGH, TEMPO_LONG));
    v.push((DO_HIGH, TEMPO));
    v.push((REST, TEMPO_LONG));
}

/// Start of the chorus: C E D C, G A C' C'.
pub open spec fn chorus_1() -> Seq<Note> {
    seq![
        (DO_HIGH, TEMPO), (MI_HIGH, TEMPO), (RE_HIGH, TEMPO), (DO_HIGH, TEMPO),
        (REST, TEMPO_SHORT), (SOL, TEMPO), (LA, TEMPO), (DO_VERY_HIGH, TEMPO_LONG),
        (DO_VERY_HIGH, TEMPO), (REST, TEMPO_SHORT),
    ]
}

fn push_chorus_1(v: &mut Vec<Note>)
    ensures
        final(v)@ == old(v)@ + chorus_1(),
{
    v.push((DO_HIGH, TEMPO));
    v.push((MI_HIGH, TEMPO));
    v.push((RE_HIGH, TEMPO));
    v.push((DO_HIGH, TEMPO));
    v.push((REST, TEMPO_SHORT));
    v.push((SOL, TEMPO));
    v.push((LA, TEMPO));
    v.push((DO_VERY_HIGH, TEMPO_LONG));
    v.push((DO_VERY_HIGH, TEMPO));
    v.push((REST, TEMPO_SHORT));
}

/// Chorus line: C' D' C' C', G A C', G A C'.
pub open spec fn chorus_2() -> Seq<Note> {
    seq![
        (DO_VERY_HIGH, TEMPO), (RE_VERY_HIGH, TEMPO), (DO_VERY_HIGH, TEMPO), (DO_VERY_HIGH, TEMPO),
        (REST, TEMPO_SHORT), (SOL, TEMPO), (LA, TEMPO), (DO_VERY_HIGH, TEMPO),
        (REST, TEMPO_SHORT), (SOL, TEMPO), (LA, TEMPO), (DO_VERY_HIGH, TEMPO),
        (REST, TEMPO_SHORT),
    ]
}

fn push_chorus_2(v: &mut Vec<Note>)
    ensures
        final(v)@ == old(v)@ + chorus_2(),
{
    v.push((DO_VERY_HIGH, TEMPO));
    v.push((RE_VERY_HIGH, TEMPO));
    v.push((DO_VERY_HIGH, TEMPO));
    v.push((DO_VERY_HIGH, TEMPO));
    v.push((REST, TEMPO_SHORT));
    v.push((SOL, TEMPO));
    v.push((LA, TEMPO));
    v.push((DO_VERY_HIGH, TEMPO));
    v.push((REST, TEMPO_SHORT));
    v.push((SOL, TEMPO));
    v.push((LA, TEMPO));
    v.push((DO_VERY_HIGH, TEMPO));
    v.push((REST, TEMPO_SHORT));
}

/// Chorus line: C' C' D' C', G A C', G A C'.
pub open spec fn chorus_3() -> Seq<Note> {
    seq![
        (DO_VERY_HIGH, TEMPO), (DO_VERY_HIGH, TEMPO), (RE_VERY_HIGH, TEMPO), (DO_VERY_HIGH, TEMPO),
        (REST, TEMPO_SHORT), (SOL, TEMPO), (LA, TEMPO), (DO_VERY_HIGH, TEMPO),
        (REST, TEMPO_SHORT), (SOL, TEMPO), (LA, TEMPO), (DO_VERY_HIGH, TEMPO),
        (REST, TEMPO_SHORT),
    ]
}

fn push_chorus_3(v: &mut Vec<Note>)
    ensures
        final(v)@ == old(v)@ + chorus_3(),
{
    v.push((DO_VERY_HIGH, TEMPO));
    v.push((DO_VERY_HIGH, TEMPO));
    v.push((RE_VERY_HIGH, TEMPO));
    v.push((DO_VERY_HIGH, TEMPO));
    v.push((REST, TEMPO_SHORT));
    v.push((SOL, TEMPO));
    v.push((LA, TEMPO));
    v.push((DO_VERY_HIGH, TEMPO));
    v.push((REST, TEMPO_SHORT));
    v.push((SOL, TEMPO));
    v.push((LA, TEMPO));
    v.push((DO_VERY_HIGH, TEMPO));
    v.push((REST, TEMPO_SHORT));
}

/// Bridge pattern.
pub open spec fn bridge() -> Seq<Note> {
    seq![
        (SOL, TEMPO), (SOL, TEMPO), (LA, TEMPO), (DO_VERY_HIGH, TEMPO_LONG),
        (REST, TEMPO_SHORT), (SOL, TEMPO_LONG), (REST, TEMPO_SHORT), (DO_VERY_HIGH, TEMPO_LONG),
        (REST, TEMPO),
    ]
}

fn push_bridge(v: &mut Vec<Note>)
    ensures
        final(v)@ == old(v)@ + bridge(),
{
    v.push((SOL, TEMPO));
    v.push((SOL, TEMPO));
    v.push((LA, TEMPO));
    v.push((DO_VERY_HIGH, TEMPO_LONG));
    v.push((REST, TEMPO_SHORT));
    v.push((SOL, TEMPO_LONG));
    v.push((REST, TEMPO_SHORT));
    v.push((DO_VERY_HIGH, TEMPO_LONG));
    v.push((REST, TEMPO));
}

/// The bridge pattern continued.
pub open spec fn bridge_continued() -> Seq<Note> {
    seq![
        (SOL, TEMPO), (LA, TEMPO), (MI_VERY_HIGH, TEMPO), (RE_VERY_HIGH, TEMPO),
        (DO_VERY_HIGH, TEMPO), (REST, TEMPO_SHORT), (SOL, TEMPO), (LA, TEMPO),
        (DO_VERY_HIGH, TEMPO), (REST, TEMPO_SHORT), (DO_VERY_HIGH, TEMPO), (RE_VERY_HIGH, TEMPO),
        (DO_VERY_HIGH, TEMPO), (DO_VERY_HIGH, TEMPO), (REST, TEMPO),
    ]
}

fn push_bridge_continued(v: &mut Vec<Note>)
    ensures
        final(v)@ == old(v)@ + bridge_continued(),
{
    v.push((SOL, TEMPO));
    v.push((LA, TEMPO));
    v.push((MI_VERY_HIGH, TEMPO));
    v.push((RE_VERY_HIGH, TEMPO));
    v.push((DO_VERY_HIGH, TEMPO));
    v.push((REST, TEMPO_SHORT));
    v.push((SOL, TEMPO));
    v.push((LA, TEMPO));
    v.push((DO_VERY_HIGH, TEMPO));
    v.push((REST, TEMPO_SHORT));
    v.push((DO_VERY_HIGH, TEMPO));
    v.push((RE_VERY_HIGH, TEMPO));
    v.push((DO_VERY_HIGH, TEMPO));
    v.push((DO_VERY_HIGH, TEMPO));
    v.push((REST, TEMPO));
}

/// Ending pattern, three times C' A A G G and a closing line.
pub open spec fn ending() -> Seq<Note> {
    seq![
        (DO_VERY_HIGH, TEMPO), (LA_HIGH, TEMPO), (LA_HIGH, TEMPO), (SOL_HIGH, TEMPO),
        (SOL_HIGH, TEMPO), (REST, TEMPO_SHORT), (DO_VERY_HIGH, TEMPO), (LA_HIGH, TEMPO),
        (LA_HIGH, TEMPO), (SOL_HIGH, TEMPO), (SOL_HIGH, TEMPO), (REST, TEMPO_SHORT),
        (DO_VERY_HIGH, TEMPO), (LA_HIGH, TEMPO), (LA_HIGH, TEMPO), (SOL_HIGH, TEMPO),
        (SOL_HIGH, TEMPO), (REST, TEMPO_SHORT), (MI_HIGH, TEMPO), (MI_HIGH, TEMPO),
        (SOL_HIGH, TEMPO), (LA_HIGH, TEMPO), (SOL_HIGH, TEMPO_LONG), (REST, TEMPO_LONG),
    ]
}

fn push_ending(v: &mut Vec<Note>)
    ensures
        final(v)@ == old(v)@ + ending(),
{
    v.push((DO_VERY_HIGH, TEMPO));
    v.push((LA_HIGH, TEMPO));
    v.push((LA_HIGH, TEMPO));
    v.push((SOL_HIGH, TEMPO));
    v.push((SOL_HIGH, TEMPO));
    v.push((REST, TEMPO_SHORT));
    v.push((DO_VERY_HIGH, TEMPO));
    v.push((LA_HIGH, TEMPO));
    v.push((LA_HIGH, TEMPO));
    v.push((SOL_HIGH, TEMPO));
    v.push((SOL_HIGH, TEMPO));
    v.push((REST, TEMPO_SHORT));
    v.push((DO_VERY_HIGH, TEMPO));
    v.push((LA_HIGH, TEMPO));
    v.push((LA_HIGH, TEMPO));
    v.push((SOL_HIGH, TEMPO));
    v.push((SOL_HIGH, TEMPO));
    v.push((REST, TEMPO_SHORT));
    v.push((MI_HIGH, TEMPO));
    v.push((MI_HIGH, TEMPO));
    v.push((SOL_HIGH, TEMPO));
    v.push((LA_HIGH, TEMPO));
    v.push((SOL_HIGH, TEMPO_LONG));
    v.push((REST, TEMPO_LONG));
}

/// The whole tune, phrase by phrase, as the cart plays it.
pub open spec fn nandemonaiya() -> Seq<Note> {
    phrase_1() +
    phrase_2() +
    phrase_3() +
    phrase_4() +
    phrase_3() +
    phrase_2() +
    phrase_7() +
    phrase_8() +
    phrase_9() +
    phrase_10() +
    phrase_11() +
    phrase_12() +
    chorus_1() +
    chorus_2() +
    chorus_3() +
    bridge() +
    bridge_continued() +
    ending()
}

/// Builds the tune played by the cart.
pub fn nandemonaiya_melody() -> (m: Vec<Note>)
    ensures
        m@ == nandemonaiya(),
{
    let mut v: Vec<Note> = Vec::new();
    push_phrase_1(&mut v);
    push_phrase_2(&mut v);
    push_phrase_3(&mut v);
    push_phrase_4(&mut v);
    push_phrase_3(&mut v);
    push_phrase_2(&mut v);
    push_phrase_7(&mut v);
    push_phrase_8(&mut v);
    push_phrase_9(&mut v);
    push_phrase_10(&mut v);
    push_phrase_11(&mut v);
    push_phrase_12(&mut v);
    push_chorus_1(&mut v);
    push_chorus_2(&mut v);
    push_chorus_3(&mut v);
    push_bridge(&mut v);
    push_bridge_continued(&mut v);
    push_ending(&mut v);
    v
}

/// Longest note a melody may hold, in frames: its length in milliseconds
/// (`frames * 1000 / FPS`) is computed in an `i32`.
pub const MAX_NOTE_FRAMES: i32 = 2147483;

/// Every note lasts at least one frame and at most `MAX_NOTE_FRAMES`.
pub open spec fn note_lengths_ok(m: Seq<Note>) -> bool {
    forall|i: int| 0 <= i < m.len() ==> 1 <= #[trigger] m[i].1 <= MAX_NOTE_FRAMES
}

/// A melody the player can play: its notes have playable lengths and its
/// position counter cannot overflow.
pub open spec fn valid_melody(m: Seq<Note>) -> bool {
    &&& m.len() < usize::MAX
    &&& note_lengths_ok(m)
}

/// The tune holds 290 notes, and every one of them can be played.
pub proof fn lemma_nandemonaiya_valid()
    ensures
        nandemonaiya().len() == 290,
        valid_melody(nandemonaiya()),
{
}

/// The tune, entry by entry, as (frequency in hertz, length in frames): the
/// built tune is exactly this score.
pub proof fn lemma_nandemonaiya_score()
    ensures
        nandemonaiya() == seq![
            (659u32, 10i32), (587u32, 10i32), (523u32, 10i32), (523u32, 30i32), (0u32, 30i32), (523u32, 30i32),
            (392u32, 6i32), (392u32, 6i32), (440u32, 6i32), (1047u32, 6i32), (988u32, 6i32), (880u32, 6i32),
            (0u32, 4i32), (523u32, 6i32), (587u32, 6i32), (659u32, 6i32), (0u32, 6i32), (659u32, 6i32),
            (587u32, 6i32), (523u32, 6i32), (523u32, 6i32), (0u32, 4i32), (523u32, 6i32), (392u32, 6i32),
            (659u32, 6i32), (587u32, 6i32), (0u32, 4i32), (523u32, 12i32), (523u32, 6i32), (0u32, 4i32),
            (523u32, 6i32), (587u32, 6i32), (0u32, 4i32), (523u32, 12i32), (523u32, 6i32), (0u32, 6i32),
            (659u32, 6i32), (587u32, 6i32), (523u32, 6i32), (523u32, 6i32), (0u32, 4i32), (523u32, 6i32),
            (392u32, 6i32), (392u32, 6i32), (440u32, 6i32), (1047u32, 6i32), (988u32, 6i32), (880u32, 6i32),
            (0u32, 4i32), (523u32, 6i32), (587u32, 6i32), (659u32, 6i32), (0u32, 6i32), (659u32, 6i32),
            (587u32, 6i32), (523u32, 6i32), (0u32, 4i32), (523u32, 6i32), (392u32, 6i32), (0u32, 4i32),
            (659u32, 6i32), (587u32, 6i32), (0u32, 4i32), (523u32, 12i32), (523u32, 6i32), (0u32, 4i32),
            (523u32, 6i32), (587u32, 6i32), (0u32, 4i32), (523u32, 12i32), (523u32, 6i32), (0u32, 12i32),
            (659u32, 6i32), (587u32, 6i32), (523u32, 6i32), (523u32, 6i32), (0u32, 4i32), (523u32, 6i32),
            (392u32, 6i32), (392u32, 6i32), (440u32, 6i32), (1047u32, 6i32), (988u32, 6i32), (880u32, 6i32),
            (0u32, 4i32), (523u32, 6i32), (587u32, 6i32), (659u32, 6i32), (0u32, 6i32), (659u32, 6i32),
            (587u32, 6i32), (523u32, 6i32), (523u32, 6i32), (0u32, 4i32), (523u32, 6i32), (392u32, 6i32),
            (659u32, 6i32), (587u32, 6i32), (0u32, 4i32), (523u32, 12i32), (523u32, 6i32), (0u32, 4i32),
            (523u32, 6i32), (587u32, 6i32), (0u32, 4i32), (523u32, 12i32), (523u32, 6i32), (0u32, 6i32),
            (659u32, 6i32), (587u32, 6i32), (523u32, 6i32), (523u32, 6i32), (0u32, 4i32), (523u32, 6i32),
            (392u32, 6i32), (392u32, 6i32), (440u32, 6i32), (1047u32, 6i32), (988u32, 6i32), (880u32, 6i32),
            (0u32, 4i32), (880u32, 12i32), (784u32, 6i32), (784u32, 6i32), (0u32, 6i32), (523u32, 6i32),
            (587u32, 6i32), (659u32, 6i32), (0u32, 4i32), (659u32, 6i32), (784u32, 6i32), (659u32, 6i32),
            (587u32, 6i32), (0u32, 4i32), (523u32, 12i32), (523u32, 6i32), (0u32, 4i32), (523u32, 6i32),
            (587u32, 6i32), (659u32, 6i32), (523u32, 6i32), (0u32, 6i32), (523u32, 6i32), (523u32, 6i32),
            (392u32, 6i32), (0u32, 4i32), (659u32, 6i32), (587u32, 6i32), (0u32, 4i32), (523u32, 12i32),
            (523u32, 6i32), (0u32, 4i32), (220u32, 6i32), (523u32, 6i32), (0u32, 4i32), (392u32, 12i32),
            (0u32, 6i32), (659u32, 6i32), (587u32, 6i32), (0u32, 4i32), (523u32, 6i32), (659u32, 6i32),
            (0u32, 4i32), (523u32, 6i32), (523u32, 6i32), (392u32, 6i32), (0u32, 4i32), (659u32, 6i32),
            (587u32, 6i32), (0u32, 4i32), (523u32, 12i32), (523u32, 6i32), (0u32, 4i32), (220u32, 6i32),
            (523u32, 6i32), (0u32, 6i32), (523u32, 6i32), (523u32, 6i32), (392u32, 6i32), (0u32, 4i32),
            (659u32, 6i32), (587u32, 6i32), (0u32, 4i32), (523u32, 12i32), (523u32, 6i32), (0u32, 4i32),
            (220u32, 6i32), (523u32, 6i32), (0u32, 6i32), (1047u32, 6i32), (988u32, 6i32), (880u32, 6i32),
            (0u32, 4i32), (784u32, 12i32), (784u32, 6i32), (0u32, 4i32), (523u32, 6i32), (523u32, 6i32),
            (392u32, 6i32), (0u32, 4i32), (659u32, 6i32), (587u32, 6i32), (0u32, 4i32), (523u32, 12i32),
            (523u32, 6i32), (0u32, 12i32), (523u32, 6i32), (659u32, 6i32), (587u32, 6i32), (523u32, 6i32),
            (0u32, 4i32), (392u32, 6i32), (440u32, 6i32), (1047u32, 12i32), (1047u32, 6i32), (0u32, 4i32),
            (1047u32, 6i32), (1175u32, 6i32), (1047u32, 6i32), (1047u32, 6i32), (0u32, 4i32), (392u32, 6i32),
            (440u32, 6i32), (1047u32, 6i32), (0u32, 4i32), (392u32, 6i32), (440u32, 6i32), (1047u32, 6i32),
            (0u32, 4i32), (1047u32, 6i32), (1047u32, 6i32), (1175u32, 6i32), (1047u32, 6i32), (0u32, 4i32),
            (392u32, 6i32), (440u32, 6i32), (1047u32, 6i32), (0u32, 4i32), (392u32, 6i32), (440u32, 6i32),
            (1047u32, 6i32), (0u32, 4i32), (392u32, 6i32), (392u32, 6i32), (440u32, 6i32), (1047u32, 12i32),
            (0u32, 4i32), (392u32, 12i32), (0u32, 4i32), (1047u32, 12i32), (0u32, 6i32), (392u32, 6i32),
            (440u32, 6i32), (1319u32, 6i32), (1175u32, 6i32), (1047u32, 6i32), (0u32, 4i32), (392u32, 6i32),
            (440u32, 6i32), (1047u32, 6i32), (0u32, 4i32), (1047u32, 6i32), (1175u32, 6i32), (1047u32, 6i32),
            (1047u32, 6i32), (0u32, 6i32), (1047u32, 6i32), (880u32, 6i32), (880u32, 6i32), (784u32, 6i32),
            (784u32, 6i32), (0u32, 4i32), (1047u32, 6i32), (880u32, 6i32), (880u32, 6i32), (784u32, 6i32),
            (784u32, 6i32), (0u32, 4i32), (1047u32, 6i32), (880u32, 6i32), (880u32, 6i32), (784u32, 6i32),
            (784u32, 6i32), (0u32, 4i32), (659u32, 6i32), (659u32, 6i32), (784u32, 6i32), (880u32, 6i32),
            (784u32, 12i32), (0u32, 12i32),
        ],
{
}

} // verus!
