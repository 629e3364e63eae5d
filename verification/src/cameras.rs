//! The camera: per-pixel ray generation and the render loop.

use crate::colors::Color;
use crate::fixed::{
    fx_add, fx_add_s, fx_div, fx_div_s, fx_mul, fx_mul_s, fx_ok, fx_sub, fx_sub_s, FX_ONE,
};
use crate::graphics::{lemma_pixel_index, lemma_pixel_index_distinct, Canvas};
use crate::matrices::{inv4_s, mv4_s, singular4_s, Matrix4x4};
use crate::rays::{Ray, R4};
use crate::scene::{scene_wf, trace_s, Scene};
use crate::transforms::look_at_s;
use crate::trig::tan_s;
use crate::trig;
use crate::vectors::{v4_normalize_s, v4_sub_s, Vector, V4};
use vstd::prelude::*;

verus! {

/// The tangent of half the field of view: the half-extent of the image
/// plane one unit in front of the camera.
pub open spec fn camera_half_view_s(field_of_view: int) -> int {
    tan_s(fx_div_s(field_of_view, 2 * (FX_ONE as int)))
}

/// The width-to-height ratio of the image.
pub open spec fn camera_aspect_s(width: u32, height: u32) -> int {
    fx_div_s(width * (FX_ONE as int), height * (FX_ONE as int))
}

/// Half the world-space width of the image plane.
pub open spec fn camera_half_width_s(width: u32, height: u32, field_of_view: int) -> int {
    if camera_aspect_s(width, height) >= FX_ONE as int {
        camera_half_view_s(field_of_view)
    } else {
        fx_mul_s(camera_half_view_s(field_of_view), camera_aspect_s(width, height))
    }
}

/// Half the world-space height of the image plane.
pub open spec fn camera_half_height_s(width: u32, height: u32, field_of_view: int) -> int {
    if camera_aspect_s(width, height) >= FX_ONE as int {
        fx_div_s(camera_half_view_s(field_of_view), camera_aspect_s(width, height))
    } else {
        camera_half_view_s(field_of_view)
    }
}

/// The world-space side of one pixel.
pub open spec fn camera_pixel_size_s(width: u32, height: u32, field_of_view: int) -> int {
    fx_div_s(
        fx_mul_s(camera_half_width_s(width, height, field_of_view), 2 * (FX_ONE as int)),
        width * (FX_ONE as int),
    )
}

/// The ray through the centre of a pixel: a point on the image plane one
/// unit in front of the camera and the camera origin, both taken to
/// world space by the inverse view transform.
#[verifier::opaque]
pub open spec fn ray_for_pixel_s(c: Camera, x: int, y: int) -> R4 {
    let x_offset = fx_mul_s(fx_add_s(x * (FX_ONE as int), 50_000_000), c.pixel_size as int);
    let y_offset = fx_mul_s(fx_add_s(y * (FX_ONE as int), 50_000_000), c.pixel_size as int);
    let world_x = fx_sub_s(c.half_width as int, x_offset);
    let world_y = fx_sub_s(c.half_height as int, y_offset);
    let inverse = inv4_s(c.transform@);
    let pixel = mv4_s(inverse, V4 { x: world_x, y: world_y, z: -(FX_ONE as int), w: FX_ONE as int });
    let origin = mv4_s(inverse, V4 { x: 0, y: 0, z: 0, w: FX_ONE as int });
    let direction = v4_normalize_s(v4_sub_s(pixel, origin));
    R4 { origin, direction }
}

/// A camera for orientating a view transform.
#[derive(Debug)]
pub struct Camera {
    pub width: u32,
    pub height: u32,
    pub half_width: i128,
    pub half_height: i128,
    pub field_of_view: i128,
    pub pixel_size: i128,
    pub transform: Matrix4x4,
}

impl Camera {
    /// The derived fields and the view transform are well formed.
    pub open spec fn wf(&self) -> bool {
        fx_ok(self.half_width as int) && fx_ok(self.half_height as int)
            && fx_ok(self.field_of_view as int) && fx_ok(self.pixel_size as int)
            && self.transform.wf()
    }

    /// Creates a new camera with the given dimensions and vertical field
    /// of view in radians, looking at the conventional default position.
    pub fn new(width: u32, height: u32, field_of_view: i128) -> (r: Self)
        requires
            fx_ok(field_of_view as int),
        ensures
            r.wf(),
            r.width == width,
            r.height == height,
            r.field_of_view == field_of_view,
            r.half_width as int == camera_half_width_s(width, height, field_of_view as int),
            r.half_height as int == camera_half_height_s(width, height, field_of_view as int),
            r.pixel_size as int == camera_pixel_size_s(width, height, field_of_view as int),
            r.transform@ == look_at_s(
                V4 { x: 0, y: 150_000_000, z: -500_000_000, w: FX_ONE as int },
                V4 { x: 0, y: FX_ONE as int, z: 0, w: FX_ONE as int },
                V4 { x: 0, y: FX_ONE as int, z: 0, w: 0 },
            ),
    {
        let half_view = trig::tan(fx_div(field_of_view, 2 * FX_ONE));
        let w_fx = (width as i128) * FX_ONE;
        let h_fx = (height as i128) * FX_ONE;
        let aspect = fx_div(w_fx, h_fx);

        let half_width: i128;
        let half_height: i128;

        if aspect >= FX_ONE {
            half_width = half_view;
            half_height = fx_div(half_width, aspect);
        } else {
            half_width = fx_mul(half_view, aspect);
            half_height = half_view;
        }

        let from = Vector { x: 0, y: 150_000_000, z: -500_000_000, w: FX_ONE };
        let to = Vector { x: 0, y: FX_ONE, z: 0, w: FX_ONE };
        let up = Vector { x: 0, y: FX_ONE, z: 0, w: 0 };

        Self {
            width,
            height,
            half_width,
            half_height,
            field_of_view,
            pixel_size: fx_div(fx_mul(half_width, 2 * FX_ONE), w_fx),
            transform: Matrix4x4::look_at(from, to, up),
        }
    }

    /// Creates a ray for the given pixel (x, y) on the camera. The
    /// contract pins origin and direction exactly; the direction is the
    /// fixed-point normalization of the pixel-to-origin difference, so
    /// under a view transform extreme enough to collapse that
    /// difference below the arithmetic's resolution it saturates
    /// instead of having unit length.
    #[verifier::rlimit(100)]
    pub fn ray_for_pixel(&self, x: usize, y: usize) -> (r: Ray)
        requires
            self.wf(),
            x < self.width,
            y < self.height,
            !singular4_s(self.transform@),
        ensures
            r@ == ray_for_pixel_s(*self, x as int, y as int),
            r.wf(),
    {
        proof {
            reveal(ray_for_pixel_s);
        }
        let x_offset = fx_mul(fx_add((x as i128) * FX_ONE, 50_000_000), self.pixel_size);
        let y_offset = fx_mul(fx_add((y as i128) * FX_ONE, 50_000_000), self.pixel_size);

        let world_x = fx_sub(self.half_width, x_offset);
        let world_y = fx_sub(self.half_height, y_offset);

        let inverse = match self.transform.invert() {
            Ok(inverse) => inverse,
            Err(_) => {
                proof {
                    assert(false);
                }
                Matrix4x4::identity()
            },
        };

        let pixel = inverse.mul_vec(Vector { x: world_x, y: world_y, z: -FX_ONE, w: FX_ONE });
        let origin = inverse.mul_vec(Vector { x: 0, y: 0, z: 0, w: FX_ONE });
        let direction = pixel.sub(origin).normalize();

        Ray::new(origin, direction)
    }

    /// Renders an image of the given scene through the lens of the
    /// camera: one traced ray per pixel.
    #[verifier::rlimit(100)]
    pub fn render(&self, scene: &Scene) -> (r: Canvas)
        requires
            self.wf(),
            scene_wf(*scene),
            !singular4_s(self.transform@),
            self.width as int * self.height as int <= usize::MAX as int,
        ensures
            r.wf(),
            r.width == self.width,
            r.height == self.height,
            forall|xx: int, yy: int|
                0 <= xx < self.width && 0 <= yy < self.height ==> (#[trigger] r@[xx + yy
                    * self.width as int])@ == trace_s(*scene, ray_for_pixel_s(*self, xx, yy), 0),
    {
        let mut canvas = Canvas::new(self.width, self.height);

        let mut y: usize = 0;
        while y < self.height as usize
            invariant
                self.wf(),
                scene_wf(*scene),
                !singular4_s(self.transform@),
                canvas.wf(),
                canvas.width == self.width,
                canvas.height == self.height,
                y <= self.height,
                forall|xx: int, yy: int|
                    0 <= xx < self.width && 0 <= yy < y ==> (#[trigger] canvas@[xx + yy
                        * self.width as int])@ == trace_s(*scene, ray_for_pixel_s(*self, xx, yy), 0),
            decreases self.height - y,
        {
            let mut x: usize = 0;
            while x < self.width as usize
                invariant
                    self.wf(),
                    scene_wf(*scene),
                    !singular4_s(self.transform@),
                    canvas.wf(),
                    canvas.width == self.width,
                    canvas.height == self.height,
                    y < self.height,
                    x <= self.width,
                    forall|xx: int, yy: int|
                        0 <= xx < self.width && 0 <= yy < y ==> (#[trigger] canvas@[xx + yy
                            * self.width as int])@ == trace_s(
                            *scene,
                            ray_for_pixel_s(*self, xx, yy),
                            0,
                        ),
                    forall|xx: int|
                        0 <= xx < x ==> (#[trigger] canvas@[xx + y as int * self.width as int])@
                            == trace_s(*scene, ray_for_pixel_s(*self, xx, y as int), 0),
                decreases self.width - x,
            {
                let ray = self.ray_for_pixel(x, y);
                let color = scene.trace(ray);

                let ghost pre = canvas@;
                canvas.set_pixel(x, y, color);
                proof {
                    let w = self.width as int;
                    let idx = x as int + y as int * w;
                    lemma_pixel_index(x as int, y as int, w, self.height as int);
                    assert(canvas@ == pre.update(idx, color));
                    assert forall|xx: int, yy: int|
                        0 <= xx < self.width && 0 <= yy < y implies (#[trigger] canvas@[xx + yy
                            * w])@ == trace_s(*scene, ray_for_pixel_s(*self, xx, yy), 0) by {
                        let j = xx + yy * w;
                        lemma_pixel_index(xx, yy, w, self.height as int);
                        lemma_pixel_index_distinct(xx, yy, x as int, y as int, w);
                        assert(canvas@[j] == pre[j]);
                        assert(pre[j]@ == trace_s(*scene, ray_for_pixel_s(*self, xx, yy), 0));
                    }
                    assert forall|xx: int|
                        0 <= xx <= x implies (#[trigger] canvas@[xx + y as int * w])@ == trace_s(
                            *scene,
                            ray_for_pixel_s(*self, xx, y as int),
                            0,
                        ) by {
                        let j = xx + y as int * w;
                        lemma_pixel_index(xx, y as int, w, self.height as int);
                        if xx < x {
                            lemma_pixel_index_distinct(xx, y as int, x as int, y as int, w);
                            assert(canvas@[j] == pre[j]);
                            assert(pre[j]@ == trace_s(*scene, ray_for_pixel_s(*self, xx, y as int), 0));
                        } else {
                            assert(canvas@[j] == color);
                        }
                    }
                }
                x = x + 1;
            }
            y = y + 1;
        }
        canvas
    }
}

} // verus!
