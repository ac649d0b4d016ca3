use vstd::prelude::*;

use rand::Rng;

verus! {

/// The colours a banner line may be drawn in.
#[derive(Clone, Copy, Debug, PartialEq, Eq, Structural)]
pub enum BannerColor {
    Red,
    Green,
    Blue,
    Yellow,
    Magenta,
    Cyan,
    White,
}

/// Number of colours in the banner palette.
pub const PALETTE_LEN: usize = 7;

/// The banner palette, in order.
pub open spec fn palette(i: nat) -> BannerColor {
    if i == 0 {
        BannerColor::Red
    } else if i == 1 {
        BannerColor::Green
    } else if i == 2 {
        BannerColor::Blue
    } else if i == 3 {
        BannerColor::Yellow
    } else if i == 4 {
        BannerColor::Magenta
    } else if i == 5 {
        BannerColor::Cyan
    } else {
        BannerColor::White
    }
}

/// Relies on rand's `thread_rng().gen_range(0..n)`: a value drawn from
/// `0..n`, which is non-empty.
#[verifier::external_body]
fn random_below(n: usize) -> (r: usize)
    requires
        n > 0,
    ensures
        r < n,
{
    rand::thread_rng().gen_range(0..n)
}

/// The palette colour at position `i`.
pub fn palette_color(i: usize) -> (r: BannerColor)
    requires
        i < PALETTE_LEN,
    ensures
        r == palette(i as nat),
{
    if i == 0 {
        BannerColor::Red
    } else if i == 1 {
        BannerColor::Green
    } else if i == 2 {
        BannerColor::Blue
    } else if i == 3 {
        BannerColor::Yellow
    } else if i == 4 {
        BannerColor::Magenta
    } else if i == 5 {
        BannerColor::Cyan
    } else {
        BannerColor::White
    }
}

/// The colours of the banner's lines for palette positions already drawn.
pub fn colors_for(draws: &Vec<usize>) -> (r: Vec<BannerColor>)
    requires
        forall|i: int| 0 <= i < draws@.len() ==> draws@[i] < PALETTE_LEN,
    ensures
        r@.len() == draws@.len(),
        forall|i: int| 0 <= i < r@.len() ==> r@[i] == palette(draws@[i] as nat),
{
    let mut out: Vec<BannerColor> = Vec::new();
    let mut i: usize = 0;
    while i < draws.len()
        invariant
            i <= draws@.len(),
            out@.len() == i,
            forall|j: int| 0 <= j < draws@.len() ==> draws@[j] < PALETTE_LEN,
            forall|j: int| 0 <= j < i ==> out@[j] == palette(draws@[j] as nat),
        decreases draws@.len() - i,
    {
        out.push(palette_color(draws[i]));
        i = i + 1;
    }
    out
}

/// A fresh colour for each of `lines` banner lines, each drawn at random from
/// the palette on every call.
pub fn banner_colors(lines: usize) -> (r: Vec<BannerColor>)
    ensures
        r@.len() == lines,
{
    let mut draws: Vec<usize> = Vec::new();
    let mut i: usize = 0;
    while i < lines
        invariant
            i <= lines,
            draws@.len() == i,
            forall|j: int| 0 <= j < i ==> draws@[j] < PALETTE_LEN,
        decreases lines - i,
    {
        draws.push(random_below(PALETTE_LEN));
        i = i + 1;
    }
    colors_for(&draws)
}

} // verus!
