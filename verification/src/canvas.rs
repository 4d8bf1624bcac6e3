//! The canvas as plain mathematics: what it holds, what each operation makes
//! of it, and what follows for single pixels.

use vstd::prelude::*;
use crate::color::{blue_of, green_of, red_of, Pixel, OPAQUE};
use crate::grayscale::{
    gray_image, lemma_gray_image_idempotent, lemma_schemes_are_partitions, scheme_weights,
    valid_scheme,
};
use crate::random::{lemma_picked_window_in_bounds, picked_pixel, picked_window, RandomDraws};
use crate::raster::{
    blank, buffer_len, flooded, lemma_offset_in_range, lemma_painted_empty_window,
    lemma_painted_pixel, lemma_painted_whole_is_flooded, painted, pixel_offset,
};

verus! {

/// What a canvas holds: its size in pixels and the bytes of its two buffers.
pub struct Canvas {
    pub width: nat,
    pub height: nat,
    pub input: Seq<u8>,
    pub output: Seq<u8>,
}

/// Whether a canvas of `width` by `height` pixels can be made: it has at
/// least one column and one row, and each of its buffers can be addressed.
pub open spec fn valid_dimensions(width: u32, height: u32) -> bool {
    &&& width > 0
    &&& height > 0
    &&& buffer_len(width as int, height as int) <= isize::MAX
}

impl Canvas {
    /// Length in bytes of each of the two buffers.
    pub open spec fn byte_len(self) -> int {
        buffer_len(self.width as int, self.height as int)
    }

    /// The invariant of a canvas: it has pixels, and both buffers hold
    /// exactly four bytes for each of them.
    pub open spec fn wf(self) -> bool {
        &&& 0 < self.width <= u32::MAX
        &&& 0 < self.height <= u32::MAX
        &&& self.byte_len() <= isize::MAX
        &&& self.input.len() == self.byte_len()
        &&& self.output.len() == self.byte_len()
    }

    /// Whether `(x, y)` is a pixel of the canvas.
    pub open spec fn has_pixel(self, x: int, y: int) -> bool {
        &&& 0 <= x < self.width
        &&& 0 <= y < self.height
    }

    /// Offset of the first byte of pixel `(x, y)` in either buffer.
    pub open spec fn offset(self, x: int, y: int) -> int {
        pixel_offset(self.width as int, x, y)
    }

    /// A fresh canvas: both buffers zero throughout.
    pub open spec fn created(width: u32, height: u32) -> Canvas {
        Canvas {
            width: width as nat,
            height: height as nat,
            input: blank(buffer_len(width as int, height as int) as nat),
            output: blank(buffer_len(width as int, height as int) as nat),
        }
    }

    /// This canvas with `input` as its input buffer.
    pub open spec fn with_input(self, input: Seq<u8>) -> Canvas {
        Canvas { input, ..self }
    }

    /// This canvas with `output` as its output buffer.
    pub open spec fn with_output(self, output: Seq<u8>) -> Canvas {
        Canvas { output, ..self }
    }

    /// Whether the rectangle of `width` by `height` pixels whose top-left
    /// pixel is `(start_x, start_y)` lies within the canvas.
    pub open spec fn rect_fits(self, start_x: u32, start_y: u32, width: u32, height: u32) -> bool {
        &&& start_x + width <= self.width
        &&& start_y + height <= self.height
    }

    /// Whether pixel `(x, y)` belongs to the rectangle of `width` by `height`
    /// pixels whose top-left pixel is `(start_x, start_y)`.
    pub open spec fn rect_has(
        start_x: u32,
        start_y: u32,
        width: u32,
        height: u32,
        x: int,
        y: int,
    ) -> bool {
        &&& start_x <= x < start_x + width
        &&& start_y <= y < start_y + height
    }

    /// This canvas after the whole output buffer was filled with the opaque
    /// pixel of `color`.
    pub open spec fn fill_box(self, color: u32) -> Canvas {
        self.with_output(flooded(self.output.len(), Pixel::opaque(color)))
    }

    /// This canvas after the rectangle of `width` by `height` pixels at
    /// `(start_x, start_y)` of the output buffer was filled with the opaque
    /// pixel of `color`.
    pub open spec fn fill_rect(
        self,
        start_x: u32,
        start_y: u32,
        width: u32,
        height: u32,
        color: u32,
    ) -> Canvas {
        self.with_output(
            painted(
                self.output,
                self.width as int,
                start_x as int,
                start_y as int,
                start_x + width,
                start_y + height,
                Pixel::opaque(color),
            ),
        )
    }

    /// This canvas after the whole output buffer was cleared to `color`: a
    /// rectangle fill that spans the canvas.
    pub open spec fn clear(self, color: u32) -> Canvas {
        self.fill_rect(0, 0, self.width as u32, self.height as u32, color)
    }

    /// This canvas after the window and the pixel that `draws` select were
    /// painted into the output buffer.
    pub open spec fn fill_random_rect(self, draws: RandomDraws) -> Canvas {
        let window = picked_window(self.width as u32, self.height as u32, draws);
        self.with_output(
            painted(
                self.output,
                self.width as int,
                window.start_x as int,
                window.start_y as int,
                window.end_x as int,
                window.end_y as int,
                picked_pixel(draws),
            ),
        )
    }

    /// This canvas after the output buffer became the gray image of the
    /// input buffer under scheme `scheme`.
    pub open spec fn to_grayscale(self, scheme: int) -> Canvas {
        self.with_output(gray_image(self.input, scheme_weights(scheme)))
    }

    /// A fresh canvas of valid dimensions is well formed; each of its buffers
    /// is `4 * width * height` bytes long and zero in every byte.
    pub proof fn lemma_created_is_blank(width: u32, height: u32)
        requires
            valid_dimensions(width, height),
        ensures
            Canvas::created(width, height).wf(),
            Canvas::created(width, height).input.len() == 4 * width * height,
            Canvas::created(width, height).output.len() == 4 * width * height,
            forall|i: int|
                0 <= i < 4 * width * height ==> Canvas::created(width, height).input[i] == 0
                    && Canvas::created(width, height).output[i] == 0,
    {
        assert(4 * width * height == buffer_len(width as int, height as int))
            by (nonlinear_arith);
    }

    /// Every operation keeps a canvas well formed, with the size and the
    /// input buffer it had.
    pub proof fn lemma_operations_keep_shape(
        self,
        color: u32,
        start_x: u32,
        start_y: u32,
        width: u32,
        height: u32,
        draws: RandomDraws,
        scheme: int,
    )
        requires
            self.wf(),
        ensures
            self.fill_box(color).wf(),
            self.fill_rect(start_x, start_y, width, height, color).wf(),
            self.clear(color).wf(),
            self.fill_random_rect(draws).wf(),
            self.to_grayscale(scheme).wf(),
            self.fill_box(color).input == self.input,
            self.fill_rect(start_x, start_y, width, height, color).input == self.input,
            self.clear(color).input == self.input,
            self.fill_random_rect(draws).input == self.input,
            self.to_grayscale(scheme).input == self.input,
    {
    }

    /// Every pixel lies wholly inside both buffers.
    pub proof fn lemma_pixel_in_buffers(self, x: int, y: int)
        requires
            self.wf(),
            self.has_pixel(x, y),
        ensures
            0 <= self.offset(x, y),
            self.offset(x, y) + 4 <= self.input.len(),
            self.offset(x, y) + 4 <= self.output.len(),
    {
        lemma_offset_in_range(self.width as int, self.height as int, x, y);
    }

    /// After a uniform fill every pixel reads blue, green, red, opaque alpha
    /// of the colour, in that order.
    pub proof fn lemma_fill_box_pixel(self, color: u32, x: int, y: int)
        requires
            self.wf(),
            self.has_pixel(x, y),
        ensures
            self.fill_box(color).output[self.offset(x, y)] == blue_of(color),
            self.fill_box(color).output[self.offset(x, y) + 1] == green_of(color),
            self.fill_box(color).output[self.offset(x, y) + 2] == red_of(color),
            self.fill_box(color).output[self.offset(x, y) + 3] == OPAQUE,
    {
        self.lemma_pixel_in_buffers(x, y);
    }

    /// After a rectangle fill a pixel of the rectangle reads blue, green,
    /// red, opaque alpha of the colour, in that order.
    pub proof fn lemma_fill_rect_pixel_inside(
        self,
        start_x: u32,
        start_y: u32,
        width: u32,
        height: u32,
        color: u32,
        x: int,
        y: int,
    )
        requires
            self.wf(),
            self.has_pixel(x, y),
            Canvas::rect_has(start_x, start_y, width, height, x, y),
        ensures
            self.fill_rect(start_x, start_y, width, height, color).output[self.offset(x, y)]
                == blue_of(color),
            self.fill_rect(start_x, start_y, width, height, color).output[self.offset(x, y) + 1]
                == green_of(color),
            self.fill_rect(start_x, start_y, width, height, color).output[self.offset(x, y) + 2]
                == red_of(color),
            self.fill_rect(start_x, start_y, width, height, color).output[self.offset(x, y) + 3]
                == OPAQUE,
    {
        let px = Pixel::opaque(color);
        let w = self.width as int;
        let h = self.height as int;
        let sx = start_x as int;
        let sy = start_y as int;
        lemma_painted_pixel(self.output, w, h, sx, sy, sx + width, sy + height, px, x, y, 0);
        lemma_painted_pixel(self.output, w, h, sx, sy, sx + width, sy + height, px, x, y, 1);
        lemma_painted_pixel(self.output, w, h, sx, sy, sx + width, sy + height, px, x, y, 2);
        lemma_painted_pixel(self.output, w, h, sx, sy, sx + width, sy + height, px, x, y, 3);
    }

    /// After a rectangle fill every byte of a pixel outside the rectangle
    /// reads as it did before.
    pub proof fn lemma_fill_rect_pixel_outside(
        self,
        start_x: u32,
        start_y: u32,
        width: u32,
        height: u32,
        color: u32,
        x: int,
        y: int,
        k: int,
    )
        requires
            self.wf(),
            self.has_pixel(x, y),
            !Canvas::rect_has(start_x, start_y, width, height, x, y),
            0 <= k < 4,
        ensures
            self.fill_rect(start_x, start_y, width, height, color).output[self.offset(x, y) + k]
                == self.output[self.offset(x, y) + k],
    {
        lemma_painted_pixel(
            self.output,
            self.width as int,
            self.height as int,
            start_x as int,
            start_y as int,
            start_x + width,
            start_y + height,
            Pixel::opaque(color),
            x,
            y,
            k,
        );
    }

    /// A rectangle without columns or without rows leaves the canvas as it
    /// is.
    pub proof fn lemma_fill_rect_of_nothing(
        self,
        start_x: u32,
        start_y: u32,
        width: u32,
        height: u32,
        color: u32,
    )
        requires
            width == 0 || height == 0,
        ensures
            self.fill_rect(start_x, start_y, width, height, color) == self,
    {
        lemma_painted_empty_window(
            self.output,
            self.width as int,
            start_x as int,
            start_y as int,
            start_x + width,
            start_y + height,
            Pixel::opaque(color),
        );
    }

    /// Clearing a canvas to a colour is the fill of the rectangle that
    /// starts at the top-left pixel and spans the canvas, and that rectangle
    /// lies within the canvas.
    pub proof fn lemma_clear_is_fill_rect(self, color: u32)
        requires
            self.wf(),
        ensures
            self.rect_fits(0, 0, self.width as u32, self.height as u32),
            self.clear(color) == self.fill_rect(
                0,
                0,
                self.width as u32,
                self.height as u32,
                color,
            ),
    {
    }

    /// Clearing a canvas to a colour is the uniform fill with that colour.
    pub proof fn lemma_clear_is_fill_box(self, color: u32)
        requires
            self.wf(),
        ensures
            self.clear(color) == self.fill_box(color),
    {
        lemma_painted_whole_is_flooded(
            self.output,
            self.width as int,
            self.height as int,
            Pixel::opaque(color),
        );
    }

    /// The window of a random rectangle lies within the canvas, whatever was
    /// drawn.
    pub proof fn lemma_random_rect_in_bounds(self, draws: RandomDraws)
        requires
            self.wf(),
        ensures
            ({
                let window = picked_window(self.width as u32, self.height as u32, draws);
                &&& 0 <= window.start_x <= window.end_x <= self.width
                &&& 0 <= window.start_y <= window.end_y <= self.height
            }),
    {
        lemma_picked_window_in_bounds(self.width as u32, self.height as u32, draws);
    }

    /// After the grayscale transform every pixel of the output buffer holds
    /// the gray level of the same pixel of the input buffer in its three
    /// colour bytes, and opaque alpha.
    pub proof fn lemma_to_grayscale_pixel(self, scheme: int, x: int, y: int)
        requires
            self.wf(),
            self.has_pixel(x, y),
        ensures
            ({
                let at = self.offset(x, y);
                let level = scheme_weights(scheme).gray_level(
                    self.input[at],
                    self.input[at + 1],
                    self.input[at + 2],
                );
                let after = self.to_grayscale(scheme).output;
                &&& after[at] == level
                &&& after[at + 1] == level
                &&& after[at + 2] == level
                &&& after[at + 3] == OPAQUE
            }),
    {
        self.lemma_pixel_in_buffers(x, y);
    }

    /// Once the output of a grayscale transform has been copied into the
    /// input buffer, a second transform, under any scheme of the table,
    /// leaves the output as it is.
    pub proof fn lemma_to_grayscale_idempotent(self, first: int, second: int)
        requires
            self.wf(),
            valid_scheme(second),
        ensures
            ({
                let gray = self.to_grayscale(first);
                gray.with_input(gray.output).to_grayscale(second).output == gray.output
            }),
    {
        lemma_schemes_are_partitions(second);
        lemma_gray_image_idempotent(self.input, scheme_weights(first), scheme_weights(second));
    }
}

} // verus!
