//! The pixel buffer the renderer writes into: a width x height grid of
//! colors with bounds-checked access.

use vstd::prelude::*;

use crate::tuple::Color;
use crate::tuple::Point;
use crate::UNIT;

verus! {

/// A rejected pixel coordinate, with the bounds it violated.
#[derive(Clone, Copy, Debug, PartialEq, Eq, Structural)]
pub struct CanvasError {
    pub x: usize,
    pub y: usize,
    pub width: usize,
    pub height: usize,
}

pub struct Canvas {
    pub width: usize,
    pub height: usize,
    pub pixels: Vec<Color>,
    pub center_point: Point,
}

pub open spec fn canvas_ok(c: Canvas) -> bool {
    c.pixels@.len() == c.width * c.height && c.width <= 100_000 && c.height <= 100_000 && c.width
        * c.height <= usize::MAX
}

impl Canvas {
    /// A canvas of the given size, every pixel black. The size bound is
    /// what keeps pixel coordinates inside the fixed-point range.
    pub fn new(width: usize, height: usize) -> (c: Canvas)
        requires
            width <= 100_000,
            height <= 100_000,
            width * height <= usize::MAX,
        ensures
            c.width == width,
            c.height == height,
            c.pixels@.len() == width * height,
            forall|k: int|
                0 <= k < c.pixels@.len() ==> #[trigger] c.pixels@[k] == (Color {
                    r: 0i64,
                    g: 0i64,
                    b: 0i64,
                }),
            c.center_point == (Point {
                x: (width * 5_000_000) as i64,
                y: (height * 5_000_000) as i64,
                z: 0i64,
            }),
            canvas_ok(c),
    {
        let total: usize = width * height;
        let mut pixels: Vec<Color> = Vec::new();
        let mut k: usize = 0;
        while k < total
            invariant
                0 <= k <= total,
                pixels@.len() == k,
                forall|j: int|
                    0 <= j < k ==> #[trigger] pixels@[j] == (Color { r: 0i64, g: 0i64, b: 0i64 }),
            decreases total - k,
        {
            pixels.push(Color { r: 0, g: 0, b: 0 });
            k = k + 1;
        }
        let half_unit: i64 = UNIT / 2;
        let center: Point = Point {
            x: (width as i64) * half_unit,
            y: (height as i64) * half_unit,
            z: 0,
        };
        Canvas { width, height, pixels, center_point: center }
    }

    /// The row-major index of a pixel, or the offending coordinates.
    pub fn index_at(&self, x: usize, y: usize) -> (r: Result<usize, CanvasError>)
        requires
            canvas_ok(*self),
        ensures
            match r {
                Ok(i) => x < self.width && y < self.height && i == y * self.width + x,
                Err(e) => (x >= self.width || y >= self.height) && e == (CanvasError {
                    x,
                    y,
                    width: self.width,
                    height: self.height,
                }),
            },
    {
        if x >= self.width || y >= self.height {
            return Err(CanvasError { x, y, width: self.width, height: self.height });
        }
        proof {
            assert(y * self.width + x < self.width * self.height) by (nonlinear_arith)
                requires
                    x < self.width,
                    y < self.height,
            ;
        }
        Ok(y * self.width + x)
    }

    /// Write one pixel; out-of-bounds coordinates are reported, and the
    /// canvas is then untouched.
    pub fn write_pixel(&mut self, x: usize, y: usize, color: Color) -> (r: Result<
        (),
        CanvasError,
    >)
        requires
            canvas_ok(*old(self)),
        ensures
            canvas_ok(*final(self)),
            final(self).width == old(self).width,
            final(self).height == old(self).height,
            final(self).center_point == old(self).center_point,
            match r {
                Ok(()) => x < old(self).width && y < old(self).height && final(self).pixels@
                    == old(self).pixels@.update((y * old(self).width + x) as int, color),
                Err(e) => (x >= old(self).width || y >= old(self).height) && final(self).pixels@
                    == old(self).pixels@ && e == (CanvasError {
                    x,
                    y,
                    width: old(self).width,
                    height: old(self).height,
                }),
            },
    {
        let index: usize = match self.index_at(x, y) {
            Ok(i) => i,
            Err(e) => {
                return Err(e);
            },
        };
        proof {
            assert(index < self.pixels@.len()) by (nonlinear_arith)
                requires
                    index == y * self.width + x,
                    x < self.width,
                    y < self.height,
                    self.pixels@.len() == self.width * self.height,
            ;
        }
        self.pixels.set(index, color);
        Ok(())
    }

    /// Read one pixel, or the offending coordinates.
    pub fn pixel_at(&self, x: usize, y: usize) -> (r: Result<Color, CanvasError>)
        requires
            canvas_ok(*self),
        ensures
            match r {
                Ok(c) => x < self.width && y < self.height && c == self.pixels@[(y * self.width
                    + x) as int],
                Err(e) => (x >= self.width || y >= self.height) && e == (CanvasError {
                    x,
                    y,
                    width: self.width,
                    height: self.height,
                }),
            },
    {
        let index: usize = match self.index_at(x, y) {
            Ok(i) => i,
            Err(e) => {
                return Err(e);
            },
        };
        proof {
            assert(index < self.pixels@.len()) by (nonlinear_arith)
                requires
                    index == y * self.width + x,
                    x < self.width,
                    y < self.height,
                    self.pixels@.len() == self.width * self.height,
            ;
        }
        Ok(self.pixels[index])
    }

    /// Rasterize a filled white circle. Every written pixel lies inside
    /// the disk; coordinates that leave the canvas are reported.
    pub fn draw_circle(&mut self, x: usize, y: usize, radius: u32) -> (r: Result<(), CanvasError>)
        requires
            canvas_ok(*old(self)),
            x + radius <= 1_000_000,
            y + radius <= 1_000_000,
        ensures
            canvas_ok(*final(self)),
            final(self).width == old(self).width,
            final(self).height == old(self).height,
            final(self).center_point == old(self).center_point,
            final(self).pixels@.len() == old(self).pixels@.len(),
            forall|k: int|
                0 <= k < final(self).pixels@.len() ==> final(self).pixels@[k] == old(
                    self,
                ).pixels@[k] || final(self).pixels@[k] == (Color { r: UNIT, g: UNIT, b: UNIT }),
    {
        let lo_x: usize = if x >= radius as usize {
            x - radius as usize
        } else {
            0
        };
        let lo_y: usize = if y >= radius as usize {
            y - radius as usize
        } else {
            0
        };
        let hi_x: usize = x + radius as usize;
        let hi_y: usize = y + radius as usize;
        let mut i: usize = lo_x;
        while i < hi_x
            invariant
                canvas_ok(*self),
                self.width == old(self).width,
                self.height == old(self).height,
                self.center_point == old(self).center_point,
                self.pixels@.len() == old(self).pixels@.len(),
                x <= 1_000_000,
                y <= 1_000_000,
                radius <= 1_000_000,
                hi_x == x + radius,
                hi_y == y + radius,
                forall|k: int|
                    0 <= k < self.pixels@.len() ==> self.pixels@[k] == old(self).pixels@[k]
                        || self.pixels@[k] == (Color { r: UNIT, g: UNIT, b: UNIT }),
            decreases hi_x - i,
        {
            let mut j: usize = lo_y;
            while j < hi_y
                invariant
                    canvas_ok(*self),
                    self.width == old(self).width,
                    self.height == old(self).height,
                    self.center_point == old(self).center_point,
                    self.pixels@.len() == old(self).pixels@.len(),
                    i < hi_x,
                    x <= 1_000_000,
                    y <= 1_000_000,
                    radius <= 1_000_000,
                    hi_x == x + radius,
                    hi_y == y + radius,
                    forall|k: int|
                        0 <= k < self.pixels@.len() ==> self.pixels@[k] == old(self).pixels@[k]
                            || self.pixels@[k] == (Color { r: UNIT, g: UNIT, b: UNIT }),
                decreases hi_y - j,
            {
                let di: i64 = (i as i64) - (x as i64);
                let dj: i64 = (j as i64) - (y as i64);
                proof {
                    assert(di * di <= 4_000_000_000_000int && dj * dj <= 4_000_000_000_000int
                        && di * di >= 0 && dj * dj >= 0 && (radius as i64) * (radius as i64)
                        <= 4_000_000_000_000int) by (nonlinear_arith)
                        requires
                            -2_000_000 <= di <= 2_000_000,
                            -2_000_000 <= dj <= 2_000_000,
                            0 <= radius <= 2_000_000,
                    ;
                }
                if di * di + dj * dj <= (radius as i64) * (radius as i64) {
                    let ghost prev = self.pixels@;
                    let outcome = self.write_pixel(i, j, Color { r: UNIT, g: UNIT, b: UNIT });
                    proof {
                        assert forall|k: int| 0 <= k < self.pixels@.len() implies self.pixels@[k]
                            == old(self).pixels@[k] || self.pixels@[k] == (Color {
                            r: UNIT,
                            g: UNIT,
                            b: UNIT,
                        }) by {
                            if self.pixels@ != prev {
                                let w = old(self).width;
                                let h = old(self).height;
                                assert(j * w + i < prev.len()) by (nonlinear_arith)
                                    requires
                                        i < w,
                                        j < h,
                                        prev.len() == w * h,
                                ;
                                assert(self.pixels@ == prev.update(
                                    (j * old(self).width + i) as int,
                                    Color { r: UNIT, g: UNIT, b: UNIT },
                                ));
                            }
                        }
                    }
                    match outcome {
                        Err(_) => {
                            return Err(CanvasError {
                                x: i,
                                y: j,
                                width: self.width,
                                height: self.height,
                            });
                        },
                        Ok(_) => {},
                    }
                }
                j = j + 1;
            }
            i = i + 1;
        }
        Ok(())
    }
}

} // verus!
