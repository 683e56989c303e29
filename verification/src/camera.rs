//! The pinhole camera and the renderer driver: per-pixel rays, optional
//! jittered sampling, and the scanline loop that fills the canvas.
//!
//! With one sample per pixel the jitter is pinned at the pixel center, so
//! the rendered image is a pure function of the camera and the world; the
//! contracts state that pixel function exactly.

use vstd::prelude::*;

use crate::canvas::canvas_ok;
use crate::canvas::Canvas;
use crate::fx::add_spec;
use crate::fx::div_spec;
use crate::fx::fx_add;
use crate::fx::fx_div;
use crate::fx::fx_mul;
use crate::fx::fx_ok;
use crate::fx::fx_sub;
use crate::fx::mul_spec;
use crate::fx::sub_spec;
use crate::matrix::apply_point_spec;
use crate::matrix::transform_ok;
use crate::matrix::Transform;
use crate::ray::Ray;
use crate::tuple::color_ok;
use crate::tuple::color_plus_spec;
use crate::tuple::color_times_spec;
use crate::tuple::normalize_spec;
use crate::tuple::point_minus_spec;
use crate::tuple::point_ok;
use crate::tuple::vec_ok;
use crate::tuple::Color;
use crate::tuple::Point;
use crate::tuple::Vector;
use crate::world::color_at_spec;
use crate::world::world_ok;
use crate::world::World;
use crate::UNIT;

verus! {

/// Reflection budget handed to the integrator for every primary ray.
pub const MAX_REFLECTION_RECURSION_DEPTH: i32 = 5;

/// Default number of jittered samples per pixel.
pub const SAMPLES_PER_PIXEL: usize = 10;

pub struct Camera {
    pub hsize: usize,
    pub vsize: usize,
    /// tan(fov / 2), the half extent of the view plane at distance 1.
    pub half_view: i64,
    pub transform: Transform,
    pub pixel_size: i64,
    pub half_width: i64,
    pub half_height: i64,
    pub samples_pre_pixel: usize,
}

pub open spec fn camera_ok(c: Camera) -> bool {
    1 <= c.hsize <= 20_000 && 1 <= c.vsize <= 20_000 && fx_ok(c.half_view as int) && transform_ok(
        c.transform,
    ) && fx_ok(c.pixel_size as int) && fx_ok(c.half_width as int) && fx_ok(c.half_height as int)
        && 1 <= c.samples_pre_pixel <= 10_000
}

/// The half extents of the view plane: the half view along the longer
/// canvas edge, shrunk by the aspect ratio along the shorter one.
pub open spec fn half_width_spec(hsize: int, vsize: int, half_view: int) -> int {
    if hsize >= vsize {
        half_view
    } else {
        div_spec(mul_spec(half_view, hsize * (UNIT as int)), vsize * (UNIT as int))
    }
}

pub open spec fn half_height_spec(hsize: int, vsize: int, half_view: int) -> int {
    if hsize >= vsize {
        div_spec(mul_spec(half_view, vsize * (UNIT as int)), hsize * (UNIT as int))
    } else {
        half_view
    }
}

/// The world-space width of one pixel.
pub open spec fn pixel_size_spec(hsize: int, vsize: int, half_view: int) -> int {
    div_spec(
        add_spec(half_width_spec(hsize, vsize, half_view), half_width_spec(hsize, vsize, half_view)),
        hsize * (UNIT as int),
    )
}

/// The camera ray for a pixel, with explicit jitter offsets within the
/// pixel (both UNIT/2 at the pixel center).
pub open spec fn ray_for_pixel_spec(c: Camera, px: int, py: int, jx: int, jy: int) -> Ray {
    let xoffset = mul_spec(px * (UNIT as int) + jx, c.pixel_size as int);
    let yoffset = mul_spec(py * (UNIT as int) + jy, c.pixel_size as int);
    let world_x = sub_spec(c.half_width as int, xoffset);
    let world_y = sub_spec(c.half_height as int, yoffset);
    let pixel = apply_point_spec(
        c.transform.inverse,
        Point { x: world_x as i64, y: world_y as i64, z: (-UNIT) as i64 },
    );
    let origin = apply_point_spec(c.transform.inverse, Point { x: 0i64, y: 0i64, z: 0i64 });
    let direction = normalize_spec(point_minus_spec(pixel, origin));
    Ray { origin, direction }
}

/// Scaling a summed color down by the sample count, channels clamped to
/// [0, 1].
pub open spec fn rescale_spec(c: Camera, color: Color) -> Color {
    let scale = div_spec(UNIT as int, c.samples_pre_pixel * (UNIT as int));
    let scaled = color_times_spec(color, scale);
    Color {
        r: crate::shape::clamp01_spec(scaled.r as int) as i64,
        g: crate::shape::clamp01_spec(scaled.g as int) as i64,
        b: crate::shape::clamp01_spec(scaled.b as int) as i64,
    }
}

/// The color of one pixel when sampling is pinned at the pixel center:
/// what a one-sample render writes at (px, py).
pub open spec fn pixel_spec(c: Camera, w: World, px: int, py: int) -> Color {
    rescale_spec(
        c,
        color_plus_spec(
            Color { r: 0i64, g: 0i64, b: 0i64 },
            color_at_spec(
                w,
                ray_for_pixel_spec(c, px, py, (UNIT as int) / 2, (UNIT as int) / 2),
                MAX_REFLECTION_RECURSION_DEPTH as int,
            ),
        ),
    )
}

/// Relies on rand's random_range over an inclusive integer range: the
/// result always lies within the requested bounds, and nothing more is
/// assumed of it.
#[verifier::external_body]
fn sample_in(bound: i64) -> (r: i64)
    requires
        bound >= 0,
    ensures
        0 <= r <= bound,
{
    rand::random_range(0..=bound)
}

impl Camera {
    pub fn new(hsize: usize, vsize: usize, half_view: i64) -> (c: Camera)
        requires
            1 <= hsize <= 20_000,
            1 <= vsize <= 20_000,
            fx_ok(half_view as int),
        ensures
            c.hsize == hsize,
            c.vsize == vsize,
            c.half_view == half_view,
            c.transform == (Transform {
                direct: crate::matrix::identity_spec(),
                inverse: crate::matrix::identity_spec(),
            }),
            c.half_width == half_width_spec(hsize as int, vsize as int, half_view as int),
            c.half_height == half_height_spec(hsize as int, vsize as int, half_view as int),
            c.pixel_size == pixel_size_spec(hsize as int, vsize as int, half_view as int),
            c.samples_pre_pixel == SAMPLES_PER_PIXEL,
            camera_ok(c),
    {
        let hu: i64 = (hsize as i64) * UNIT;
        let vu: i64 = (vsize as i64) * UNIT;
        let half_width: i64;
        let half_height: i64;
        if hsize >= vsize {
            half_width = half_view;
            half_height = fx_div(fx_mul(half_view, vu), hu);
        } else {
            half_width = fx_div(fx_mul(half_view, hu), vu);
            half_height = half_view;
        }
        let pixel_size: i64 = fx_div(fx_add(half_width, half_width), hu);
        Camera {
            hsize,
            vsize,
            half_view,
            transform: Transform::identity(),
            pixel_size,
            half_width,
            half_height,
            samples_pre_pixel: SAMPLES_PER_PIXEL,
        }
    }

    /// Point the camera: store the view transform pair.
    pub fn set_transform(&mut self, from: Point, to: Point, up: Vector)
        requires
            point_ok(from),
            point_ok(to),
            vec_ok(up),
        ensures
            *final(self) == (Camera {
                transform: final(self).transform,
                ..*old(self)
            }),
            final(self).transform.direct == crate::matrix::view_transform_spec(from, to, up),
            transform_ok(final(self).transform),
    {
        self.transform = Transform::view(from, to, up);
    }

    /// The camera ray for a pixel with explicit jitter offsets.
    pub fn ray_for_pixel_at(&self, px: usize, py: usize, jx: i64, jy: i64) -> (r: Ray)
        requires
            camera_ok(*self),
            px < self.hsize,
            py < self.vsize,
            0 <= jx <= UNIT,
            0 <= jy <= UNIT,
        ensures
            r == ray_for_pixel_spec(*self, px as int, py as int, jx as int, jy as int),
            crate::ray::ray_ok(r),
    {
        let pxu: i64 = (px as i64) * UNIT + jx;
        let pyu: i64 = (py as i64) * UNIT + jy;
        let xoffset: i64 = fx_mul(pxu, self.pixel_size);
        let yoffset: i64 = fx_mul(pyu, self.pixel_size);
        let world_x: i64 = fx_sub(self.half_width, xoffset);
        let world_y: i64 = fx_sub(self.half_height, yoffset);
        let inv = &self.transform.inverse;
        let pixel: Point = inv.times_point(&Point { x: world_x, y: world_y, z: -UNIT });
        let origin: Point = inv.times_point(&Point { x: 0, y: 0, z: 0 });
        let direction: Vector = pixel.minus(&origin).normalize();
        Ray { origin, direction }
    }

    /// The camera ray for a pixel. With one sample per pixel the jitter is
    /// the pixel center; otherwise both offsets are uniform draws from
    /// [0, 1/2], and the ray is the pinned ray of whatever was drawn.
    pub fn ray_for_pixel(&self, px: usize, py: usize) -> (r: Ray)
        requires
            camera_ok(*self),
            px < self.hsize,
            py < self.vsize,
        ensures
            self.samples_pre_pixel == 1 ==> r == ray_for_pixel_spec(
                *self,
                px as int,
                py as int,
                (UNIT as int) / 2,
                (UNIT as int) / 2,
            ),
            exists|jx: int, jy: int|
                0 <= jx <= UNIT / 2 && 0 <= jy <= UNIT / 2 && r == ray_for_pixel_spec(
                    *self,
                    px as int,
                    py as int,
                    jx,
                    jy,
                ),
            crate::ray::ray_ok(r),
    {
        if self.samples_pre_pixel == 1 {
            let half: i64 = UNIT / 2;
            let r: Ray = self.ray_for_pixel_at(px, py, half, half);
            proof {
                assert(0 <= UNIT / 2 <= UNIT / 2 && r == ray_for_pixel_spec(
                    *self,
                    px as int,
                    py as int,
                    (UNIT as int) / 2,
                    (UNIT as int) / 2,
                ));
            }
            r
        } else {
            let jx: i64 = sample_in(UNIT / 2);
            let jy: i64 = sample_in(UNIT / 2);
            let r: Ray = self.ray_for_pixel_at(px, py, jx, jy);
            proof {
                assert(0 <= jx as int <= UNIT / 2 && 0 <= jy as int <= UNIT / 2 && r
                    == ray_for_pixel_spec(*self, px as int, py as int, jx as int, jy as int));
            }
            r
        }
    }

    /// Average the summed samples and clamp every channel into [0, 1].
    pub fn rescale_color_range(&self, color: Color) -> (c: Color)
        requires
            camera_ok(*self),
            color_ok(color),
        ensures
            c == rescale_spec(*self, color),
            0 <= c.r <= UNIT,
            0 <= c.g <= UNIT,
            0 <= c.b <= UNIT,
    {
        let denom: i64 = (self.samples_pre_pixel as i64) * UNIT;
        let scale: i64 = fx_div(UNIT, denom);
        let scaled: Color = color.times(scale);
        Color {
            r: clamp01(scaled.r),
            g: clamp01(scaled.g),
            b: clamp01(scaled.b),
        }
    }

    /// One scanline of the image: the sampled, rescaled color of every
    /// pixel in row py.
    pub fn render_scanline(&self, world: &World, py: usize) -> (line: Vec<Color>)
        requires
            camera_ok(*self),
            world_ok(*world),
            py < self.vsize,
        ensures
            line@.len() == self.hsize,
            forall|x: int|
                0 <= x < line@.len() ==> 0 <= #[trigger] line@[x].r <= UNIT && 0 <= line@[x].g
                    <= UNIT && 0 <= line@[x].b <= UNIT,
            self.samples_pre_pixel == 1 ==> forall|x: int|
                0 <= x < line@.len() ==> #[trigger] line@[x] == pixel_spec(
                    *self,
                    *world,
                    x,
                    py as int,
                ),
    {
        let mut line: Vec<Color> = Vec::new();
        let mut x: usize = 0;
        while x < self.hsize
            invariant
                0 <= x <= self.hsize,
                camera_ok(*self),
                world_ok(*world),
                py < self.vsize,
                line@.len() == x,
                forall|k: int|
                    0 <= k < line@.len() ==> 0 <= #[trigger] line@[k].r <= UNIT && 0 <= line@[k].g
                        <= UNIT && 0 <= line@[k].b <= UNIT,
                self.samples_pre_pixel == 1 ==> forall|k: int|
                    0 <= k < line@.len() ==> #[trigger] line@[k] == pixel_spec(
                        *self,
                        *world,
                        k,
                        py as int,
                    ),
            decreases self.hsize - x,
        {
            let mut color: Color = Color { r: 0, g: 0, b: 0 };
            let mut s: usize = 0;
            let ghost first_pass = color_plus_spec(
                Color { r: 0i64, g: 0i64, b: 0i64 },
                color_at_spec(
                    *world,
                    ray_for_pixel_spec(
                        *self,
                        x as int,
                        py as int,
                        (UNIT as int) / 2,
                        (UNIT as int) / 2,
                    ),
                    MAX_REFLECTION_RECURSION_DEPTH as int,
                ),
            );
            while s < self.samples_pre_pixel
                invariant
                    0 <= s <= self.samples_pre_pixel,
                    camera_ok(*self),
                    world_ok(*world),
                    x < self.hsize,
                    py < self.vsize,
                    color_ok(color),
                    first_pass == color_plus_spec(
                        Color { r: 0i64, g: 0i64, b: 0i64 },
                        color_at_spec(
                            *world,
                            ray_for_pixel_spec(
                                *self,
                                x as int,
                                py as int,
                                (UNIT as int) / 2,
                                (UNIT as int) / 2,
                            ),
                            MAX_REFLECTION_RECURSION_DEPTH as int,
                        ),
                    ),
                    (self.samples_pre_pixel == 1 && s == 1) ==> color == first_pass,
                    s == 0 ==> color == (Color { r: 0i64, g: 0i64, b: 0i64 }),
                decreases self.samples_pre_pixel - s,
            {
                let ray: Ray = self.ray_for_pixel(x, py);
                let sample: Color = world.color_at(&ray, MAX_REFLECTION_RECURSION_DEPTH);
                color = color.plus(&sample);
                s = s + 1;
            }
            line.push(self.rescale_color_range(color));
            x = x + 1;
        }
        line
    }

    /// Render the whole image, scanline by scanline.
    #[verifier::rlimit(100)]
    pub fn render(&self, world: &World) -> (canvas: Canvas)
        requires
            camera_ok(*self),
            world_ok(*world),
            self.hsize * self.vsize <= usize::MAX,
        ensures
            canvas.width == self.hsize,
            canvas.height == self.vsize,
            canvas_ok(canvas),
            self.samples_pre_pixel == 1 ==> forall|x: int, y: int|
                0 <= x < self.hsize && 0 <= y < self.vsize ==> canvas.pixels@[y * self.hsize + x]
                    == pixel_spec(*self, *world, x, y),
    {
        let mut canvas: Canvas = Canvas::new(self.hsize, self.vsize);
        let mut y: usize = 0;
        while y < self.vsize
            invariant
                0 <= y <= self.vsize,
                camera_ok(*self),
                world_ok(*world),
                canvas.width == self.hsize,
                canvas.height == self.vsize,
                canvas_ok(canvas),
                self.samples_pre_pixel == 1 ==> forall|px: int, py: int|
                    0 <= px < self.hsize && 0 <= py < y ==> canvas.pixels@[py * self.hsize + px]
                        == pixel_spec(*self, *world, px, py),
            decreases self.vsize - y,
        {
            let line: Vec<Color> = self.render_scanline(world, y);
            let mut x: usize = 0;
            while x < self.hsize
                invariant
                    0 <= x <= self.hsize,
                    camera_ok(*self),
                    world_ok(*world),
                    y < self.vsize,
                    line@.len() == self.hsize,
                    canvas.width == self.hsize,
                    canvas.height == self.vsize,
                    canvas_ok(canvas),
                    self.samples_pre_pixel == 1 ==> forall|k: int|
                        0 <= k < line@.len() ==> #[trigger] line@[k] == pixel_spec(
                            *self,
                            *world,
                            k,
                            y as int,
                        ),
                    self.samples_pre_pixel == 1 ==> forall|px: int, py: int|
                        0 <= px < self.hsize && 0 <= py < y ==> canvas.pixels@[py * self.hsize
                            + px] == pixel_spec(*self, *world, px, py),
                    self.samples_pre_pixel == 1 ==> forall|px: int|
                        0 <= px < x ==> canvas.pixels@[y * self.hsize + px] == pixel_spec(
                            *self,
                            *world,
                            px,
                            y as int,
                        ),
                decreases self.hsize - x,
            {
                let ghost prev = canvas.pixels@;
                let res = canvas.write_pixel(x, y, line[x]);
                proof {
                    assert(res is Ok);
                    let w = self.hsize as int;
                    let idx = (y as int) * w + (x as int);
                    assert(canvas.pixels@ == prev.update(idx, line@[x as int]));
                    lemma_pixel_index_range(w, self.vsize as int, x as int, y as int);
                    if self.samples_pre_pixel == 1 {
                        assert forall|px: int, py: int|
                            0 <= px < w && 0 <= py < y implies canvas.pixels@[py * w + px]
                            == pixel_spec(*self, *world, px, py) by {
                            lemma_pixel_index_range(w, self.vsize as int, px, py);
                            assert(py * w + px != idx) by (nonlinear_arith)
                                requires
                                    0 <= px < w,
                                    0 <= (x as int) < w,
                                    idx == (y as int) * w + (x as int),
                                    0 <= py < y,
                            ;
                            assert(canvas.pixels@[py * w + px] == prev[py * w + px]);
                        }
                        assert forall|px: int| 0 <= px < x implies canvas.pixels@[(y as int) * w
                            + px] == pixel_spec(*self, *world, px, y as int) by {
                            lemma_pixel_index_range(w, self.vsize as int, px, y as int);
                            assert(canvas.pixels@[(y as int) * w + px] == prev[(y as int) * w
                                + px]);
                        }
                        assert(canvas.pixels@[idx] == line@[x as int]);
                    }
                }
                x = x + 1;
            }
            proof {
                if self.samples_pre_pixel == 1 {
                    let w = self.hsize as int;
                    assert forall|px: int, py: int|
                        0 <= px < w && 0 <= py < y + 1 implies canvas.pixels@[py * w + px]
                        == pixel_spec(*self, *world, px, py) by {
                        if py == y {
                            assert(canvas.pixels@[(y as int) * w + px] == pixel_spec(
                                *self,
                                *world,
                                px,
                                y as int,
                            ));
                        }
                    }
                }
            }
            y = y + 1;
        }
        canvas
    }
}

fn clamp01(x: i64) -> (r: i64)
    ensures
        r == crate::shape::clamp01_spec(x as int),
        0 <= r <= UNIT,
{
    if x < 0 {
        0
    } else if x > UNIT {
        UNIT
    } else {
        x
    }
}

/// A row-major pixel index stays inside the buffer.
proof fn lemma_pixel_index_range(w: int, h: int, px: int, py: int)
    requires
        0 <= px < w,
        0 <= py < h,
    ensures
        0 <= py * w + px < w * h,
{
    assert(0 <= py * w + px < w * h) by (nonlinear_arith)
        requires
            0 <= px < w,
            0 <= py < h,
    ;
}

impl Default for Camera {
    /// A 120 x 160 camera with a 90 degree field of view: the half view is
    /// tan(45 degrees), exactly 1.
    fn default() -> (c: Camera)
        ensures
            c.hsize == 120,
            c.vsize == 160,
            c.half_view == UNIT,
            camera_ok(c),
    {
        Camera::new(120, 160, UNIT)
    }
}

} // verus!
