//! The canvas: two raster buffers of one fixed size, and the operations that
//! draw into the output buffer or derive it from the input buffer.

use vstd::prelude::*;
use crate::canvas::{valid_dimensions, Canvas};
use crate::color::Pixel;
use crate::error::CanvasError;
use crate::grayscale::{gray_image, valid_scheme, weights_of, Weights};
use crate::random::{pick_pixel, pick_window, RandomDraws};
use crate::raster::{
    blank, buffer_len, flooded, in_window, lemma_coords_of_offset, lemma_offset_in_range,
    lemma_offset_of_coords, painted,
};

verus! {

/// A canvas of fixed size with an input and an output buffer, each holding
/// `width * height` pixels of four bytes, row by row.
pub struct Universe {
    width: u32,
    height: u32,
    input_buffer: Vec<u8>,
    output_buffer: Vec<u8>,
}

impl View for Universe {
    type V = Canvas;

    closed spec fn view(&self) -> Canvas {
        Canvas {
            width: self.width as nat,
            height: self.height as nat,
            input: self.input_buffer@,
            output: self.output_buffer@,
        }
    }
}

/// Overwrites every pixel of the window of columns `x0..x1` and rows
/// `y0..y1` with `px`.
fn paint(
    buf: &mut Vec<u8>,
    width: usize,
    height: usize,
    x0: usize,
    y0: usize,
    x1: usize,
    y1: usize,
    px: Pixel,
)
    requires
        old(buf)@.len() == buffer_len(width as int, height as int),
        x0 <= x1 <= width,
        y0 <= y1 <= height,
    ensures
        final(buf)@ == painted(
            old(buf)@,
            width as int,
            x0 as int,
            y0 as int,
            x1 as int,
            y1 as int,
            px,
        ),
{
    let ghost before = buf@;
    let ghost w = width as int;
    let mut y: usize = y0;
    assert(buf@ =~= painted(before, w, x0 as int, y0 as int, x1 as int, y0 as int, px));
    while y < y1
        invariant
            y0 <= y <= y1 <= height,
            x0 <= x1 <= width,
            w == width,
            before.len() == buffer_len(w, height as int),
            buf@ == painted(before, w, x0 as int, y0 as int, x1 as int, y as int, px),
        decreases y1 - y,
    {
        let mut x: usize = x0;
        while x < x1
            invariant
                y0 <= y < y1 <= height,
                x0 <= x <= x1 <= width,
                w == width,
                before.len() == buffer_len(w, height as int),
                buf@.len() == before.len(),
                forall|i: int|
                    0 <= i < buf@.len() ==> buf@[i] == (if in_window(
                        w,
                        x0 as int,
                        y0 as int,
                        x1 as int,
                        y as int,
                        i,
                    ) || in_window(w, x0 as int, y as int, x as int, y + 1, i) {
                        px.byte(i % 4)
                    } else {
                        before[i]
                    }),
            decreases x1 - x,
        {
            proof {
                lemma_offset_in_range(w, height as int, x as int, y as int);
                assert(buf@.len() == buf.len());
            }
            let pos: usize = (y * width + x) * 4;
            buf.set(pos, px.blue);
            buf.set(pos + 1, px.green);
            buf.set(pos + 2, px.red);
            buf.set(pos + 3, px.alpha);
            proof {
                assert forall|i: int| 0 <= i < buf@.len() implies buf@[i] == (if in_window(
                    w,
                    x0 as int,
                    y0 as int,
                    x1 as int,
                    y as int,
                    i,
                ) || in_window(w, x0 as int, y as int, x + 1, y + 1, i) {
                    px.byte(i % 4)
                } else {
                    before[i]
                }) by {
                    lemma_offset_of_coords(w, i);
                    if pos <= i < pos + 4 {
                        lemma_coords_of_offset(w, x as int, y as int, i - pos);
                    }
                }
            }
            x += 1;
        }
        assert(buf@ =~= painted(before, w, x0 as int, y0 as int, x1 as int, y + 1, px));
        y += 1;
    }
}

/// Overwrites every pixel with `px`.
fn flood(buf: &mut Vec<u8>, px: Pixel)
    requires
        old(buf)@.len() % 4 == 0,
    ensures
        final(buf)@ == flooded(old(buf)@.len(), px),
{
    let len: usize = buf.len();
    let mut pos: usize = 0;
    while pos < len
        invariant
            pos <= len,
            pos % 4 == 0,
            len % 4 == 0,
            buf@.len() == len,
            forall|i: int| 0 <= i < pos ==> buf@[i] == px.byte(i % 4),
        decreases len - pos,
    {
        buf.set(pos, px.blue);
        buf.set(pos + 1, px.green);
        buf.set(pos + 2, px.red);
        buf.set(pos + 3, px.alpha);
        pos += 4;
    }
    assert(buf@ =~= flooded(len as nat, px));
}

/// Writes the gray image of `input` under the weights `w` into `output`.
fn shade(input: &Vec<u8>, output: &mut Vec<u8>, w: Weights)
    requires
        input@.len() % 4 == 0,
        old(output)@.len() == input@.len(),
    ensures
        final(output)@ == gray_image(input@, w),
{
    let len: usize = input.len();
    let mut pos: usize = 0;
    while pos < len
        invariant
            pos <= len,
            pos % 4 == 0,
            len % 4 == 0,
            input@.len() == len,
            output@.len() == len,
            forall|i: int| 0 <= i < pos ==> output@[i] == gray_image(input@, w)[i],
        decreases len - pos,
    {
        let level: u8 = w.gray(input[pos], input[pos + 1], input[pos + 2]);
        output.set(pos, level);
        output.set(pos + 1, level);
        output.set(pos + 2, level);
        output.set(pos + 3, 0xff);
        pos += 4;
    }
    assert(output@ =~= gray_image(input@, w));
}

impl Universe {
    /// The invariant of a canvas; see [`Canvas::wf`].
    pub open spec fn wf(&self) -> bool {
        self@.wf()
    }

    /// Makes a canvas of `width` by `height` pixels, both buffers zero
    /// throughout, or turns the dimensions down.
    pub fn new(width: u32, height: u32) -> (made: Result<Universe, CanvasError>)
        ensures
            valid_dimensions(width, height) ==> made is Ok && made->Ok_0.wf() && made->Ok_0@
                == Canvas::created(width, height),
            !valid_dimensions(width, height) ==> made == Err::<Universe, CanvasError>(
                CanvasError::InvalidDimensions,
            ),
    {
        if width == 0 || height == 0 {
            return Err(CanvasError::InvalidDimensions);
        }
        assert(0 < width * height <= 0xffff_ffff * 0xffff_ffff) by (nonlinear_arith)
            requires
                0 < width <= 0xffff_ffff,
                0 < height <= 0xffff_ffff,
        ;
        let pixels: u64 = (width as u64) * (height as u64);
        if pixels > (isize::MAX as u64) / 4 {
            return Err(CanvasError::InvalidDimensions);
        }
        let len: usize = (pixels * 4) as usize;
        let input_buffer: Vec<u8> = vec![0u8; len];
        let output_buffer: Vec<u8> = vec![0u8; len];
        assert(input_buffer@ =~= blank(len as nat));
        assert(output_buffer@ =~= blank(len as nat));
        Ok(Universe { width, height, input_buffer, output_buffer })
    }

    /// Number of columns.
    pub fn width(&self) -> (w: u32)
        ensures
            w == self@.width,
    {
        self.width
    }

    /// Number of rows.
    pub fn height(&self) -> (h: u32)
        ensures
            h == self@.height,
    {
        self.height
    }

    /// The bytes of the input buffer, to read.
    pub fn input_buffer(&self) -> (bytes: &[u8])
        ensures
            bytes@ == self@.input,
    {
        self.input_buffer.as_slice()
    }

    /// The bytes of the output buffer, to read.
    pub fn output_buffer(&self) -> (bytes: &[u8])
        ensures
            bytes@ == self@.output,
    {
        self.output_buffer.as_slice()
    }

    /// Copies a frame into the input buffer. A frame of another length than
    /// the buffer is turned down.
    pub fn load_input(&mut self, frame: &[u8]) -> (done: Result<(), CanvasError>)
        requires
            old(self).wf(),
        ensures
            final(self).wf(),
            frame@.len() == old(self)@.input.len() ==> done is Ok && final(self)@
                == old(self)@.with_input(frame@),
            frame@.len() != old(self)@.input.len() ==> done == Err::<(), CanvasError>(
                CanvasError::InputSizeMismatch,
            ) && final(self)@ == old(self)@,
    {
        let len: usize = self.input_buffer.len();
        if frame.len() != len {
            return Err(CanvasError::InputSizeMismatch);
        }
        let mut pos: usize = 0;
        while pos < len
            invariant
                pos <= len,
                frame@.len() == len,
                self.input_buffer@.len() == len,
                self.width == old(self).width,
                self.height == old(self).height,
                self.output_buffer@ == old(self).output_buffer@,
                forall|i: int| 0 <= i < pos ==> self.input_buffer@[i] == frame@[i],
            decreases len - pos,
        {
            self.input_buffer.set(pos, frame[pos]);
            pos += 1;
        }
        assert(self.input_buffer@ =~= frame@);
        Ok(())
    }

    /// Fills the whole output buffer with `color`, packed as `0x00RRGGBB`:
    /// every pixel becomes blue, green, red, opaque alpha, in that order.
    pub fn fillbox(&mut self, color: u32)
        requires
            old(self).wf(),
        ensures
            final(self).wf(),
            final(self)@ == old(self)@.fill_box(color),
    {
        let px: Pixel = Pixel::from_color(color);
        flood(&mut self.output_buffer, px);
    }

    /// Fills the rectangle of `width` by `height` pixels whose top-left pixel
    /// is `(startx, starty)` with `color`, packed as `0x00RRGGBB`. A rectangle
    /// that reaches beyond the canvas is turned down and nothing is written.
    pub fn fillrect(
        &mut self,
        startx: u32,
        starty: u32,
        width: u32,
        height: u32,
        color: u32,
    ) -> (done: Result<(), CanvasError>)
        requires
            old(self).wf(),
        ensures
            final(self).wf(),
            old(self)@.rect_fits(startx, starty, width, height) ==> done is Ok && final(self)@
                == old(self)@.fill_rect(startx, starty, width, height, color),
            !old(self)@.rect_fits(startx, starty, width, height) ==> done == Err::<(), CanvasError>(
                CanvasError::OutOfBounds,
            ) && final(self)@ == old(self)@,
    {
        let endx: u64 = startx as u64 + width as u64;
        let endy: u64 = starty as u64 + height as u64;
        if endx > self.width as u64 || endy > self.height as u64 {
            return Err(CanvasError::OutOfBounds);
        }
        let px: Pixel = Pixel::from_color(color);
        let canvas_width: usize = self.width as usize;
        let canvas_height: usize = self.height as usize;
        paint(
            &mut self.output_buffer,
            canvas_width,
            canvas_height,
            startx as usize,
            starty as usize,
            endx as usize,
            endy as usize,
            px,
        );
        Ok(())
    }

    /// Fills the whole output buffer with `color`, as a rectangle that
    /// spans the canvas.
    pub fn clear(&mut self, color: u32)
        requires
            old(self).wf(),
        ensures
            final(self).wf(),
            final(self)@ == old(self)@.clear(color),
    {
        let width: u32 = self.width;
        let height: u32 = self.height;
        let _ = self.fillrect(0, 0, width, height, color);
    }

    /// Paints the window and the pixel that `draws` select. The window always
    /// lies within the canvas, so this never fails.
    pub fn fillrandomrect(&mut self, draws: &RandomDraws)
        requires
            old(self).wf(),
        ensures
            final(self).wf(),
            final(self)@ == old(self)@.fill_random_rect(*draws),
    {
        let window = pick_window(self.width, self.height, draws);
        let px: Pixel = pick_pixel(draws);
        let canvas_width: usize = self.width as usize;
        let canvas_height: usize = self.height as usize;
        paint(
            &mut self.output_buffer,
            canvas_width,
            canvas_height,
            window.start_x as usize,
            window.start_y as usize,
            window.end_x as usize,
            window.end_y as usize,
            px,
        );
    }

    /// Turns the input buffer gray under the first scheme of the table and
    /// writes the result to the output buffer.
    pub fn to_grayscale0(&mut self)
        requires
            old(self).wf(),
        ensures
            final(self).wf(),
            final(self)@ == old(self)@.to_grayscale(0),
    {
        let _ = self.to_grayscale(0);
    }

    /// Turns the input buffer gray under scheme `t` and writes the result to
    /// the output buffer: the three colour bytes of every pixel become its
    /// gray level, alpha becomes opaque. A scheme outside the table is turned
    /// down and nothing is written.
    pub fn to_grayscale(&mut self, t: usize) -> (done: Result<(), CanvasError>)
        requires
            old(self).wf(),
        ensures
            final(self).wf(),
            valid_scheme(t as int) ==> done is Ok && final(self)@
                == old(self)@.to_grayscale(t as int),
            !valid_scheme(t as int) ==> done == Err::<(), CanvasError>(
                CanvasError::InvalidScheme,
            ) && final(self)@ == old(self)@,
    {
        match weights_of(t) {
            None => Err(CanvasError::InvalidScheme),
            Some(w) => {
                shade(&self.input_buffer, &mut self.output_buffer, w);
                Ok(())
            },
        }
    }
}

} // verus!
