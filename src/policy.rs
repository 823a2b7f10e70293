//! Random policies: speed, shade, glyph and volatility of a falling character.
//!
//! Each policy is a deterministic function of raw draws (`*_from`), and a
//! companion that takes its draws from the process-wide generator.

use vstd::prelude::*;

verus! {

/// Speeds are drawn from `0..MAX_SPEED` rows per step.
pub const MAX_SPEED: usize = 4;

/// Number of entries in the shade palette.
pub const PALETTE_LEN: usize = 5;

/// The blank glyph, drawn with probability one in three.
pub const BLANK: char = ' ';

/// Foreground shades, from dim to bright.
#[derive(Clone, Copy, Debug, PartialEq, Eq, Structural)]
pub enum Shade {
    DarkGrey,
    DarkGreen,
    Green,
    Grey,
    White,
}

/// The palette, in order.
pub open spec fn palette(i: int) -> Shade {
    if i == 0 {
        Shade::DarkGrey
    } else if i == 1 {
        Shade::DarkGreen
    } else if i == 2 {
        Shade::Green
    } else if i == 3 {
        Shade::Grey
    } else {
        Shade::White
    }
}

/// The glyph chosen from a blank draw and an index draw.
pub open spec fn char_choice(blank_draw: nat, index_draw: nat, corpus: Seq<char>) -> char
    recommends
        corpus.len() > 0,
{
    if blank_draw % 3 == 0 {
        BLANK
    } else {
        corpus[(index_draw % corpus.len()) as int]
    }
}

/// From a one-character corpus, a draw that is not blank always picks that
/// character, whatever the index draw.
pub proof fn single_char_corpus_picks_it(blank_draw: nat, index_draw: nat, corpus: Seq<char>)
    requires
        corpus.len() == 1,
        blank_draw % 3 != 0,
    ensures
        char_choice(blank_draw, index_draw, corpus) == corpus[0],
{
    assert(index_draw % 1 == 0);
}

/// Relies on rand::random: a value drawn from the thread-local generator.
/// Nothing is known of the value.
pub assume_specification<T>[ rand::random::<T> ]() -> (r: T)
    where
        rand::distributions::Standard: rand::distributions::Distribution<T>,
;

/// The palette entry at index `i`.
pub fn shade_at(i: usize) -> (r: Shade)
    requires
        i < PALETTE_LEN,
    ensures
        r == palette(i as int),
{
    if i == 0 {
        Shade::DarkGrey
    } else if i == 1 {
        Shade::DarkGreen
    } else if i == 2 {
        Shade::Green
    } else if i == 3 {
        Shade::Grey
    } else {
        Shade::White
    }
}

/// The speed chosen by a draw.
pub fn pick_speed_from(draw: usize) -> (r: usize)
    ensures
        r == draw % MAX_SPEED,
        r < MAX_SPEED,
{
    draw % MAX_SPEED
}

/// The shade chosen by a draw.
pub fn pick_color_from(draw: usize) -> (r: Shade)
    ensures
        r == palette((draw % PALETTE_LEN) as int),
{
    shade_at(draw % PALETTE_LEN)
}

/// The glyph chosen by a blank draw and an index draw: a blank when the
/// first is a multiple of three, else the corpus entry the second selects.
pub fn pick_char_from(blank_draw: usize, index_draw: usize, corpus: &Vec<char>) -> (r: char)
    requires
        corpus@.len() > 0,
    ensures
        r == char_choice(blank_draw as nat, index_draw as nat, corpus@),
{
    if blank_draw % 3 == 0 {
        BLANK
    } else {
        corpus[index_draw % corpus.len()]
    }
}

/// A uniformly drawn speed in `0..MAX_SPEED`.
pub fn pick_speed() -> (r: usize)
    ensures
        r < MAX_SPEED,
{
    pick_speed_from(rand::random::<usize>())
}

/// A uniformly drawn palette shade.
pub fn pick_color() -> (r: Shade)
    ensures
        exists|i: int| 0 <= i < PALETTE_LEN && r == palette(i),
{
    let draw: usize = rand::random::<usize>();
    let r = pick_color_from(draw);
    assert(r == palette((draw % PALETTE_LEN) as int));
    r
}

/// A blank with probability one in three, else a uniformly drawn corpus entry.
pub fn pick_char(corpus: &Vec<char>) -> (r: char)
    requires
        corpus@.len() > 0,
    ensures
        r == BLANK || corpus@.contains(r),
{
    let blank_draw: usize = rand::random::<usize>();
    let index_draw: usize = rand::random::<usize>();
    let r = pick_char_from(blank_draw, index_draw, corpus);
    assert(blank_draw % 3 != 0 ==> corpus@[(index_draw as nat % corpus@.len()) as int] == r);
    r
}

/// A volatility drawn uniformly: a fraction of `2^32`, so in `[0, 1)`.
pub fn pick_volatility() -> (r: u32)
    ensures
        (r as int) < 0x1_0000_0000,
{
    rand::random::<u32>()
}

} // verus!
