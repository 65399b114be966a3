//! The drawing surface the simulation reads and writes: a rectangular grid of
//! colored pixels, y growing downward. Collision probes read it through
//! `is_empty_or_color`, where every out-of-canvas coordinate counts as empty;
//! rendering writes it through `filled_rect`, which clips to the canvas.

use vstd::prelude::*;

use crate::color::Color;

verus! {

/// A pixel grid stored row-major: the pixel at column `x` of row `y` sits at
/// index `y * width + x`.
pub struct PixelCanvas {
    pub width: u32,
    pub height: u32,
    pub pixels: Vec<Color>,
}

impl PixelCanvas {
    /// The grid holds exactly one color per pixel, and the whole grid fits in
    /// a single allocation.
    pub open spec fn wf(self) -> bool {
        &&& self.pixels@.len() == self.width as int * self.height as int
        &&& self.width as int * self.height as int <= usize::MAX as int
    }

    pub open spec fn spec_pixel(self, x: int, y: int) -> Color
        recommends
            self.wf(),
            0 <= x < self.width as int,
            0 <= y < self.height as int,
    {
        self.pixels@[y * self.width as int + x]
    }

    /// What a probe at `(x, y)` sees: out-of-canvas reads are empty, and an
    /// in-canvas pixel passes when it holds exactly the color `c`.
    pub open spec fn spec_is_empty_or_color(self, x: int, y: int, c: Color) -> bool {
        if 0 <= x < self.width as int && 0 <= y < self.height as int {
            self.spec_pixel(x, y) == c
        } else {
            true
        }
    }

    /// A cell blocks a falling piece when it lies on the canvas and holds
    /// something other than the background color.
    pub open spec fn occupied(self, x: int, y: int) -> bool {
        !self.spec_is_empty_or_color(x, y, Color::spec_background())
    }

    /// A fresh canvas of the given size with every pixel set to background.
    pub fn new(width: u32, height: u32) -> (c: PixelCanvas)
        requires
            width as int * height as int <= usize::MAX as int,
        ensures
            c.wf(),
            c.width == width,
            c.height == height,
            forall|x: int, y: int|
                0 <= x < width as int && 0 <= y < height as int ==> c.spec_pixel(x, y)
                    == Color::spec_background(),
    {
        let n: usize = (width as usize) * (height as usize);
        let mut pixels: Vec<Color> = Vec::new();
        let mut i: usize = 0;
        while i < n
            invariant
                i <= n,
                pixels@.len() == i as int,
                forall|j: int| 0 <= j < i as int ==> pixels@[j] == Color::spec_background(),
            decreases n - i,
        {
            pixels.push(Color::background());
            i = i + 1;
        }
        let c = PixelCanvas { width, height, pixels };
        proof {
            assert forall|x: int, y: int|
                0 <= x < width as int && 0 <= y < height as int implies c.spec_pixel(x, y)
                == Color::spec_background() by {
                assert(0 <= y * width as int + x < width as int * height as int)
                    by (nonlinear_arith)
                    requires
                        0 <= x,
                        x < width as int,
                        0 <= y,
                        y < height as int,
                ;
            }
        }
        c
    }

    pub fn width(&self) -> (w: u32)
        ensures
            w == self.width,
    {
        self.width
    }

    pub fn height(&self) -> (h: u32)
        ensures
            h == self.height,
    {
        self.height
    }

    /// Read one in-canvas pixel.
    pub fn get(&self, x: u32, y: u32) -> (c: Color)
        requires
            self.wf(),
            x < self.width,
            y < self.height,
        ensures
            c == self.spec_pixel(x as int, y as int),
    {
        proof {
            assert((y as int) * (self.width as int) + (x as int) < (self.width as int) * (
            self.height as int)) by (nonlinear_arith)
                requires
                    0 <= x as int,
                    (x as int) < (self.width as int),
                    0 <= y as int,
                    (y as int) < (self.height as int),
            ;
        }
        let idx: usize = (y as usize) * (self.width as usize) + (x as usize);
        self.pixels[idx]
    }

    /// The collision probe: true when `(x, y)` lies off the canvas or holds
    /// exactly the color `color`.
    pub fn is_empty_or_color(&self, x: i64, y: i64, color: &Color) -> (r: bool)
        requires
            self.wf(),
        ensures
            r == self.spec_is_empty_or_color(x as int, y as int, *color),
    {
        if x < 0 || y < 0 || x >= self.width as i64 || y >= self.height as i64 {
            true
        } else {
            let c = self.get(x as u32, y as u32);
            c == *color
        }
    }

    /// Set one pixel, ignoring out-of-canvas coordinates.
    fn set_pixel(&mut self, x: i64, y: i64, color: &Color)
        requires
            old(self).wf(),
        ensures
            final(self).wf(),
            final(self).width == old(self).width,
            final(self).height == old(self).height,
            forall|px: int, py: int|
                0 <= px < final(self).width as int && 0 <= py < final(self).height as int
                    ==> final(self).spec_pixel(px, py) == (if px == x as int && py == y as int {
                    *color
                } else {
                    old(self).spec_pixel(px, py)
                }),
    {
        if x >= 0 && y >= 0 && x < self.width as i64 && y < self.height as i64 {
            proof {
                assert((y as int) * (self.width as int) + (x as int) < (self.width as int) * (
                self.height as int)) by (nonlinear_arith)
                    requires
                        0 <= x as int,
                        (x as int) < (self.width as int),
                        0 <= y as int,
                        (y as int) < (self.height as int),
                ;
            }
            let idx: usize = (y as usize) * (self.width as usize) + (x as usize);
            self.pixels.set(idx, *color);
            proof {
                assert forall|px: int, py: int|
                    0 <= px < self.width as int && 0 <= py < self.height as int && !(px == x as int
                        && py == y as int) implies self.spec_pixel(px, py) == old(self).spec_pixel(
                    px,
                    py,
                ) by {
                    assert(0 <= py * self.width as int + px < self.width as int
                        * self.height as int) by (nonlinear_arith)
                        requires
                            0 <= px < self.width as int,
                            0 <= py < self.height as int,
                    ;
                    assert(py * self.width as int + px != (y as int) * (self.width as int) + (
                    x as int)) by (nonlinear_arith)
                        requires
                            0 <= px < self.width as int,
                            0 <= py < self.height as int,
                            0 <= x as int,
                            (x as int) < (self.width as int),
                            0 <= y as int,
                            (y as int) < (self.height as int),
                            !(px == x as int && py == y as int),
                    ;
                }
            }
        }
    }

    /// Draw an axis-aligned filled rectangle with its top-left corner at
    /// `(sx, sy)`, clipped to the canvas.
    pub fn filled_rect(&mut self, sx: i64, sy: i64, width: u32, height: u32, color: &Color)
        requires
            old(self).wf(),
            sx + width as int <= i64::MAX as int,
            sy + height as int <= i64::MAX as int,
        ensures
            final(self).wf(),
            final(self).width == old(self).width,
            final(self).height == old(self).height,
            forall|px: int, py: int|
                0 <= px < final(self).width as int && 0 <= py < final(self).height as int
                    ==> final(self).spec_pixel(px, py) == (if sx as int <= px < sx as int + width as int
                    && sy as int <= py < sy as int + height as int {
                    *color
                } else {
                    old(self).spec_pixel(px, py)
                }),
    {
        let mut dy: u32 = 0;
        while dy < height
            invariant
                dy <= height,
                self.wf(),
                self.width == old(self).width,
                self.height == old(self).height,
                sx + width as int <= i64::MAX as int,
                sy + height as int <= i64::MAX as int,
                forall|px: int, py: int|
                    0 <= px < self.width as int && 0 <= py < self.height as int
                        ==> self.spec_pixel(px, py) == (if sx as int <= px < sx as int
                        + width as int && sy as int <= py < sy as int + dy as int {
                        *color
                    } else {
                        old(self).spec_pixel(px, py)
                    }),
            decreases height - dy,
        {
            let py: i64 = sy + dy as i64;
            let mut dx: u32 = 0;
            while dx < width
                invariant
                    dx <= width,
                    dy < height,
                    py == sy + dy as i64,
                    self.wf(),
                    self.width == old(self).width,
                    self.height == old(self).height,
                    sx + width as int <= i64::MAX as int,
                    sy + height as int <= i64::MAX as int,
                    forall|qx: int, qy: int|
                        0 <= qx < self.width as int && 0 <= qy < self.height as int
                            ==> self.spec_pixel(qx, qy) == (if (sx as int <= qx < sx as int
                            + width as int && sy as int <= qy < sy as int + dy as int) || (qy
                            == py as int && sx as int <= qx < sx as int + dx as int) {
                            *color
                        } else {
                            old(self).spec_pixel(qx, qy)
                        }),
                decreases width - dx,
            {
                let px: i64 = sx + dx as i64;
                self.set_pixel(px, py, color);
                dx = dx + 1;
            }
            dy = dy + 1;
        }
    }

    /// Fill the whole canvas with one color.
    pub fn clear(&mut self, color: &Color)
        requires
            old(self).wf(),
        ensures
            final(self).wf(),
            final(self).width == old(self).width,
            final(self).height == old(self).height,
            forall|px: int, py: int|
                0 <= px < final(self).width as int && 0 <= py < final(self).height as int
                    ==> final(self).spec_pixel(px, py) == *color,
    {
        self.filled_rect(0, 0, self.width, self.height, color);
    }
}

} // verus!
