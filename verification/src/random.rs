//! The window and the pixel that one round of random draws selects.
//!
//! The engine owns no generator. Whoever drives it hands in the draws of a
//! uniform source over `[0, 1)`, each as the numerator of a fraction of
//! `2^32`, so that every `u32` is a draw and none reaches one.

use vstd::prelude::*;
use crate::color::Pixel;

verus! {

/// Denominator of a draw: a draw `d` stands for the fraction `d / 2^32`.
pub const DRAW_SCALE: u64 = 0x1_0000_0000;

/// Exclusive upper end of a randomly drawn channel value.
pub const CHANNEL_RANGE: u32 = 255;

/// The eight draws that one random rectangle takes, in the order in which
/// they are taken from the source.
#[derive(Clone, Copy, Debug, PartialEq, Eq, Structural)]
pub struct RandomDraws {
    pub start_x: u32,
    pub start_y: u32,
    pub span_x: u32,
    pub span_y: u32,
    pub red: u32,
    pub green: u32,
    pub blue: u32,
    pub alpha: u32,
}

/// A window of pixels: the columns `start_x..end_x` of the rows
/// `start_y..end_y`.
#[derive(Clone, Copy, Debug, PartialEq, Eq, Structural)]
pub struct Window {
    pub start_x: u32,
    pub start_y: u32,
    pub end_x: u32,
    pub end_y: u32,
}

/// The draw `draw` stretched over `range`: the whole part of
/// `range * draw / 2^32`.
pub open spec fn scaled(range: u32, draw: u32) -> int {
    (range as int * draw as int) / (DRAW_SCALE as int)
}

/// The window that `draws` select on a canvas of `width` by `height`
/// pixels: a start inside the canvas, and an end between the start and the
/// canvas's edge.
pub open spec fn picked_window(width: u32, height: u32, draws: RandomDraws) -> Window {
    let start_x = scaled(width, draws.start_x);
    let start_y = scaled(height, draws.start_y);
    Window {
        start_x: start_x as u32,
        start_y: start_y as u32,
        end_x: (start_x + scaled((width - start_x) as u32, draws.span_x)) as u32,
        end_y: (start_y + scaled((height - start_y) as u32, draws.span_y)) as u32,
    }
}

/// The pixel that `draws` select: each channel, alpha too, stretched over
/// `CHANNEL_RANGE`.
pub open spec fn picked_pixel(draws: RandomDraws) -> Pixel {
    Pixel {
        blue: scaled(CHANNEL_RANGE, draws.blue) as u8,
        green: scaled(CHANNEL_RANGE, draws.green) as u8,
        red: scaled(CHANNEL_RANGE, draws.red) as u8,
        alpha: scaled(CHANNEL_RANGE, draws.alpha) as u8,
    }
}

/// A stretched draw stays below its range, and is zero over an empty range.
pub proof fn lemma_scaled_in_range(range: u32, draw: u32)
    ensures
        0 <= scaled(range, draw) <= range,
        range > 0 ==> scaled(range, draw) < range,
{
    let product = range as int * draw as int;
    assert(0 <= product && product <= range * 0x1_0000_0000 - range) by (nonlinear_arith)
        requires
            product == range as int * draw as int,
            0 <= draw <= 0xffff_ffff,
            0 <= range,
    ;
}

/// Whatever is drawn, the selected window lies within the canvas:
/// `0 <= start_x <= end_x <= width` and `0 <= start_y <= end_y <= height`,
/// with the starts strictly inside a canvas that has pixels.
pub proof fn lemma_picked_window_in_bounds(width: u32, height: u32, draws: RandomDraws)
    ensures
        0 <= picked_window(width, height, draws).start_x <= picked_window(
            width,
            height,
            draws,
        ).end_x <= width,
        0 <= picked_window(width, height, draws).start_y <= picked_window(
            width,
            height,
            draws,
        ).end_y <= height,
        width > 0 ==> picked_window(width, height, draws).start_x < width,
        height > 0 ==> picked_window(width, height, draws).start_y < height,
{
    lemma_scaled_in_range(width, draws.start_x);
    lemma_scaled_in_range(height, draws.start_y);
    let start_x = scaled(width, draws.start_x);
    let start_y = scaled(height, draws.start_y);
    lemma_scaled_in_range((width - start_x) as u32, draws.span_x);
    lemma_scaled_in_range((height - start_y) as u32, draws.span_y);
}

/// Stretches a draw over `range`.
pub fn rand_u32(range: u32, draw: u32) -> (r: u32)
    ensures
        r == scaled(range, draw),
        r <= range,
        range > 0 ==> r < range,
{
    proof {
        lemma_scaled_in_range(range, draw);
        assert(0 <= range as int * draw as int <= 0xffff_ffff * 0xffff_ffff) by (nonlinear_arith)
            requires
                0 <= range <= 0xffff_ffff,
                0 <= draw <= 0xffff_ffff,
        ;
    }
    let product: u64 = (range as u64) * (draw as u64);
    (product / DRAW_SCALE) as u32
}

/// Selects the window for one random rectangle on a canvas of `width` by
/// `height` pixels.
pub fn pick_window(width: u32, height: u32, draws: &RandomDraws) -> (w: Window)
    ensures
        w == picked_window(width, height, *draws),
        w.start_x <= w.end_x <= width,
        w.start_y <= w.end_y <= height,
{
    proof {
        lemma_picked_window_in_bounds(width, height, *draws);
    }
    let start_x: u32 = rand_u32(width, draws.start_x);
    let start_y: u32 = rand_u32(height, draws.start_y);
    let end_x: u32 = start_x + rand_u32(width - start_x, draws.span_x);
    let end_y: u32 = start_y + rand_u32(height - start_y, draws.span_y);
    Window { start_x, start_y, end_x, end_y }
}

/// Selects the pixel for one random rectangle.
pub fn pick_pixel(draws: &RandomDraws) -> (px: Pixel)
    ensures
        px == picked_pixel(*draws),
{
    let red: u32 = rand_u32(CHANNEL_RANGE, draws.red);
    let green: u32 = rand_u32(CHANNEL_RANGE, draws.green);
    let blue: u32 = rand_u32(CHANNEL_RANGE, draws.blue);
    let alpha: u32 = rand_u32(CHANNEL_RANGE, draws.alpha);
    Pixel { blue: blue as u8, green: green as u8, red: red as u8, alpha: alpha as u8 }
}

} // verus!
