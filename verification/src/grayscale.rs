//! Grayscale weighting schemes and the gray level of a pixel.
//!
//! A scheme weighs the three colour bytes of a pixel, in the order in which
//! they are stored. Weights are exact decimal fractions, held as parts per
//! `WEIGHT_SCALE`, and the weighted sum is rounded to the nearest integer,
//! halves upward. The arithmetic is exact: a sum such as
//! `0.587 * 36 + 0.114 * 12`, which is 22.5, gives 23, where binary floating
//! point, unable to hold these weights exactly, may land just below the half.

use vstd::prelude::*;

verus! {

/// Number of parts that make up a weight of one.
pub const WEIGHT_SCALE: u32 = 10_000_000;

/// Number of weighting schemes; a scheme index is valid below this.
pub const SCHEME_COUNT: usize = 6;

/// Weights of the first, second and third colour byte of a pixel, each in
/// parts per `WEIGHT_SCALE`.
#[derive(Clone, Copy, Debug, PartialEq, Eq, Structural)]
pub struct Weights {
    pub first: u32,
    pub second: u32,
    pub third: u32,
}

impl Weights {
    /// Sum of the three weights.
    pub open spec fn total(self) -> int {
        self.first + self.second + self.third
    }

    /// The weights share out exactly one.
    pub open spec fn is_partition(self) -> bool {
        self.total() == WEIGHT_SCALE
    }

    /// The weighted sum of three colour bytes, in parts per `WEIGHT_SCALE`.
    pub open spec fn weighted_sum(self, c0: u8, c1: u8, c2: u8) -> int {
        self.first * c0 + self.second * c1 + self.third * c2
    }

    /// The weighted sum rounded to the nearest integer, a sum that ends in
    /// one half going up.
    pub open spec fn rounded_sum(self, c0: u8, c1: u8, c2: u8) -> int {
        (self.weighted_sum(c0, c1, c2) + WEIGHT_SCALE / 2) / (WEIGHT_SCALE as int)
    }

    /// The gray level of three colour bytes: their rounded weighted sum, held
    /// at 255 where weights that sum to more than one take it beyond a byte.
    pub open spec fn gray_level(self, c0: u8, c1: u8, c2: u8) -> u8 {
        if self.rounded_sum(c0, c1, c2) > 255 {
            255u8
        } else {
            self.rounded_sum(c0, c1, c2) as u8
        }
    }

    /// Computes the gray level of three colour bytes.
    pub fn gray(&self, c0: u8, c1: u8, c2: u8) -> (g: u8)
        ensures
            g == self.gray_level(c0, c1, c2),
    {
        proof {
            lemma_weighted_sum_bound(*self, c0, c1, c2);
        }
        let first: u64 = (self.first as u64) * (c0 as u64);
        let second: u64 = (self.second as u64) * (c1 as u64);
        let third: u64 = (self.third as u64) * (c2 as u64);
        let sum: u64 = first + second + third;
        let level: u64 = (sum + (WEIGHT_SCALE / 2) as u64) / (WEIGHT_SCALE as u64);
        if level > 255 {
            255
        } else {
            level as u8
        }
    }
}

/// The weights of scheme `scheme`:
///
/// | index | scheme                  | first     | second    | third     |
/// |-------|-------------------------|-----------|-----------|-----------|
/// | 0     | ITU-R BT.601 (JPEG)     | 0.299     | 0.587     | 0.114     |
/// | 1     | ITU-R BT.709            | 0.2126    | 0.7152    | 0.0722    |
/// | 2     | average                 | 0.3333333 | 0.3333334 | 0.3333333 |
/// | 3     | first channel only      | 1         | 0         | 0         |
/// | 4     | second channel only     | 0         | 1         | 0         |
/// | 5     | third channel only      | 0         | 0         | 1         |
pub open spec fn scheme_weights(scheme: int) -> Weights {
    if scheme == 0 {
        Weights { first: 2_990_000, second: 5_870_000, third: 1_140_000 }
    } else if scheme == 1 {
        Weights { first: 2_126_000, second: 7_152_000, third: 722_000 }
    } else if scheme == 2 {
        Weights { first: 3_333_333, second: 3_333_334, third: 3_333_333 }
    } else if scheme == 3 {
        Weights { first: 10_000_000, second: 0, third: 0 }
    } else if scheme == 4 {
        Weights { first: 0, second: 10_000_000, third: 0 }
    } else {
        Weights { first: 0, second: 0, third: 10_000_000 }
    }
}

/// Whether `scheme` is an index into the table of schemes.
pub open spec fn valid_scheme(scheme: int) -> bool {
    0 <= scheme < SCHEME_COUNT
}

/// Looks a scheme up in the table; `None` for an index outside of it.
pub fn weights_of(scheme: usize) -> (w: Option<Weights>)
    ensures
        valid_scheme(scheme as int) ==> w == Some(scheme_weights(scheme as int)),
        !valid_scheme(scheme as int) ==> w is None,
{
    if scheme == 0 {
        Some(Weights { first: 2_990_000, second: 5_870_000, third: 1_140_000 })
    } else if scheme == 1 {
        Some(Weights { first: 2_126_000, second: 7_152_000, third: 722_000 })
    } else if scheme == 2 {
        Some(Weights { first: 3_333_333, second: 3_333_334, third: 3_333_333 })
    } else if scheme == 3 {
        Some(Weights { first: 10_000_000, second: 0, third: 0 })
    } else if scheme == 4 {
        Some(Weights { first: 0, second: 10_000_000, third: 0 })
    } else if scheme == 5 {
        Some(Weights { first: 0, second: 0, third: 10_000_000 })
    } else {
        None
    }
}

/// The gray image of `input`: in every pixel the three colour bytes are the
/// gray level of the pixel's three colour bytes in `input`, and alpha is
/// opaque.
pub open spec fn gray_image(input: Seq<u8>, w: Weights) -> Seq<u8> {
    Seq::new(
        input.len(),
        |i: int|
            if i % 4 == 3 {
                0xffu8
            } else {
                w.gray_level(input[i - i % 4], input[i - i % 4 + 1], input[i - i % 4 + 2])
            },
    )
}

/// A weighted sum of bytes is at most 255 times the sum of the weights.
pub proof fn lemma_weighted_sum_bound(w: Weights, c0: u8, c1: u8, c2: u8)
    ensures
        0 <= w.weighted_sum(c0, c1, c2) <= 255 * w.total(),
        0 <= w.first * c0 <= 255 * w.first,
        0 <= w.second * c1 <= 255 * w.second,
        0 <= w.third * c2 <= 255 * w.third,
{
    assert(0 <= w.first * c0 <= 255 * w.first) by (nonlinear_arith)
        requires
            0 <= c0 <= 255,
            0 <= w.first,
    ;
    assert(0 <= w.second * c1 <= 255 * w.second) by (nonlinear_arith)
        requires
            0 <= c1 <= 255,
            0 <= w.second,
    ;
    assert(0 <= w.third * c2 <= 255 * w.third) by (nonlinear_arith)
        requires
            0 <= c2 <= 255,
            0 <= w.third,
    ;
}

/// Weights that sum to at most one never reach beyond a byte: the gray level
/// is the rounded weighted sum itself.
pub proof fn lemma_gray_level_unclamped(w: Weights, c0: u8, c1: u8, c2: u8)
    requires
        w.total() <= WEIGHT_SCALE,
    ensures
        w.gray_level(c0, c1, c2) == w.rounded_sum(c0, c1, c2),
{
    lemma_weighted_sum_bound(w, c0, c1, c2);
}

/// The rounded sum is the integer nearest to the weighted sum: it lies within
/// one half of it, and where two integers are equally near it is the larger.
pub proof fn lemma_rounded_sum_is_nearest(w: Weights, c0: u8, c1: u8, c2: u8)
    ensures
        2 * w.rounded_sum(c0, c1, c2) * WEIGHT_SCALE - WEIGHT_SCALE <= 2 * w.weighted_sum(
            c0,
            c1,
            c2,
        ) < 2 * w.rounded_sum(c0, c1, c2) * WEIGHT_SCALE + WEIGHT_SCALE,
{
}

/// Every scheme of the table shares out exactly one between the channels.
pub proof fn lemma_schemes_are_partitions(scheme: int)
    ensures
        scheme_weights(scheme).is_partition(),
{
}

/// A pixel whose three colour bytes are equal keeps that value as its gray
/// level, under any weights that share out exactly one.
pub proof fn lemma_gray_of_gray(w: Weights, v: u8)
    requires
        w.is_partition(),
    ensures
        w.gray_level(v, v, v) == v,
{
    assert(w.weighted_sum(v, v, v) == 10_000_000 * v) by (nonlinear_arith)
        requires
            w.weighted_sum(v, v, v) == w.first * v + w.second * v + w.third * v,
            w.first + w.second + w.third == 10_000_000,
    ;
}

/// Turning a gray image gray once more changes nothing, whatever weights
/// made it gray, as long as the second weights share out exactly one.
pub proof fn lemma_gray_image_idempotent(input: Seq<u8>, w1: Weights, w2: Weights)
    requires
        w2.is_partition(),
        input.len() % 4 == 0,
    ensures
        gray_image(gray_image(input, w1), w2) == gray_image(input, w1),
{
    let once = gray_image(input, w1);
    let twice = gray_image(once, w2);
    assert forall|i: int| 0 <= i < input.len() implies twice[i] == once[i] by {
        let base = i - i % 4;
        if i % 4 != 3 {
            let g = w1.gray_level(input[base], input[base + 1], input[base + 2]);
            assert(once[base] == g);
            assert(once[base + 1] == g);
            assert(once[base + 2] == g);
            lemma_gray_of_gray(w2, g);
        }
    }
    assert(twice =~= once);
}

} // verus!
