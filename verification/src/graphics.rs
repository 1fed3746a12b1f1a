//! An in-memory 8-bit grayscale framebuffer with drawing primitives.
//!
//! The framebuffer stores one byte per pixel in row-major order; display
//! operations consume its data. Exact contracts cover the pixel accessors,
//! clearing, rectangle filling and scrolling; the line and circle rasterizers
//! carry a frame property: they only ever write the requested value, and only
//! inside the buffer.

use crate::error::Error;
use crate::types::Area;
use vstd::prelude::*;

verus! {

/// Row-major pixel indices are injective: two in-range coordinate pairs with
/// the same index are the same pair.
proof fn lemma_pix_index_injective(w: int, x1: int, y1: int, x2: int, y2: int)
    requires
        0 <= x1 < w,
        0 <= x2 < w,
        y1 >= 0,
        y2 >= 0,
        y1 * w + x1 == y2 * w + x2,
    ensures
        x1 == x2 && y1 == y2,
{
    assert(x1 == x2 && y1 == y2) by (nonlinear_arith)
        requires
            0 <= x1 < w,
            0 <= x2 < w,
            y1 >= 0,
            y2 >= 0,
            y1 * w + x1 == y2 * w + x2,
    ;
}

/// Row-major pixel indices of in-range coordinates are in range.
proof fn lemma_pix_index_bounds(w: int, h: int, x: int, y: int)
    requires
        0 <= x < w,
        0 <= y < h,
    ensures
        0 <= y * w + x < w * h,
{
    assert(0 <= y * w + x < w * h) by (nonlinear_arith)
        requires
            0 <= x < w,
            0 <= y < h,
    ;
}

/// An in-memory framebuffer: 8 bits per pixel, row-major, zero is black.
#[derive(Debug, Clone)]
pub struct Framebuffer {
    /// Width in pixels.
    pub width: u16,
    /// Height in pixels.
    pub height: u16,
    /// Pixel bytes, row-major, one per pixel.
    pub data: Vec<u8>,
}

impl Framebuffer {
    /// Well-formed: the buffer holds exactly one byte per pixel.
    pub open spec fn wf(&self) -> bool {
        self.data@.len() == self.width * self.height
    }

    /// The pixel at column `x` of row `y`.
    pub open spec fn spec_pix(&self, x: int, y: int) -> u8 {
        self.data@[y * self.width + x]
    }

    /// True when `(x, y)` lies inside the buffer.
    pub open spec fn spec_in_bounds(&self, x: int, y: int) -> bool {
        0 <= x < self.width && 0 <= y < self.height
    }

    /// Both buffers have the same dimensions.
    pub open spec fn spec_same_dims(self, other: Framebuffer) -> bool {
        self.width == other.width && self.height == other.height
    }

    /// The buffer has exactly the dimensions of the area.
    pub open spec fn spec_same_area(self, area: Area) -> bool {
        self.width == area.width && self.height == area.height
    }

    /// Every pixel of `post` equals the pixel of `pre`, or `value`: nothing
    /// but `value` was ever written.
    pub open spec fn spec_only_writes(pre: Framebuffer, post: Framebuffer, value: u8) -> bool {
        forall|x: int, y: int|
            pre.spec_in_bounds(x, y) ==> #[trigger] post.spec_pix(x, y) == pre.spec_pix(x, y)
                || post.spec_pix(x, y) == value
    }

    /// Creates a framebuffer of the given dimensions with every pixel zero.
    pub fn new(width: u16, height: u16) -> (r: Framebuffer)
        ensures
            r.wf(),
            r.width == width,
            r.height == height,
            forall|x: int, y: int| r.spec_in_bounds(x, y) ==> #[trigger] r.spec_pix(x, y) == 0,
    {
        proof {
            assert(width * height <= 0xFFFFu16 * 0xFFFFu16) by (nonlinear_arith)
                requires
                    width <= 0xFFFF,
                    height <= 0xFFFF,
            ;
        }
        let size: usize = width as usize * height as usize;
        let mut data: Vec<u8> = Vec::new();
        let mut i: usize = 0;
        while i < size
            invariant
                i <= size,
                data@.len() == i,
                forall|k: int| 0 <= k < i ==> data@[k] == 0u8,
            decreases size - i,
        {
            data.push(0);
            i += 1;
        }
        let r = Framebuffer { width, height, data };
        proof {
            assert forall|x: int, y: int| r.spec_in_bounds(x, y)
                implies #[trigger] r.spec_pix(x, y) == 0 by {
                lemma_pix_index_bounds(width as int, height as int, x, y);
            }
        }
        r
    }

    /// Returns the framebuffer width.
    pub fn width(&self) -> (r: u16)
        ensures
            r == self.width,
    {
        self.width
    }

    /// Returns the framebuffer height.
    pub fn height(&self) -> (r: u16)
        ensures
            r == self.height,
    {
        self.height
    }

    /// Borrows the pixel bytes, row-major.
    pub fn data(&self) -> (r: &[u8])
        ensures
            r@ == self.data@,
    {
        self.data.as_slice()
    }

    /// Borrows the pixel bytes mutably, row-major.
    pub fn data_mut(&mut self) -> (r: &mut [u8])
        ensures
            r@ == old(self).data@,
            final (self).data@ == final (r)@,
            final (self).width == old(self).width,
            final (self).height == old(self).height,
    {
        self.data.as_mut_slice()
    }

    /// Writes one pixel; the coordinates must be in bounds.
    fn put(&mut self, x: u16, y: u16, value: u8) -> (r: ())
        requires
            old(self).wf(),
            x < old(self).width,
            y < old(self).height,
        ensures
            final (self).wf(),
            final (self).spec_same_dims(*old(self)),
            final (self).spec_pix(x as int, y as int) == value,
            forall|px: int, py: int|
                old(self).spec_in_bounds(px, py) && (px != x || py != y)
                    ==> #[trigger] final (self).spec_pix(px, py) == old(self).spec_pix(px, py),
    {
        proof {
            lemma_pix_index_bounds(
                self.width as int,
                self.height as int,
                x as int,
                y as int,
            );
            assert(y as int * self.width as int + x as int <= 0xFFFEu16 * 0xFFFFu16 + 0xFFFE)
                by (nonlinear_arith)
                requires
                    x < self.width <= 0xFFFF,
                    y < self.height <= 0xFFFF,
            ;
        }
        let index: usize = y as usize * self.width as usize + x as usize;
        self.data[index] = value;
        proof {
            assert forall|px: int, py: int|
                old(self).spec_in_bounds(px, py) && (px != x || py != y)
                    implies #[trigger] final (self).spec_pix(px, py) == old(self).spec_pix(
                px,
                py,
            ) by {
                lemma_pix_index_bounds(self.width as int, self.height as int, px, py);
                if py * self.width + px == y as int * self.width + x as int {
                    lemma_pix_index_injective(
                        self.width as int,
                        px,
                        py,
                        x as int,
                        y as int,
                    );
                }
            }
        }
    }

    /// Reads one pixel; the coordinates must be in bounds.
    fn pix(&self, x: u16, y: u16) -> (r: u8)
        requires
            self.wf(),
            x < self.width,
            y < self.height,
        ensures
            r == self.spec_pix(x as int, y as int),
    {
        proof {
            lemma_pix_index_bounds(
                self.width as int,
                self.height as int,
                x as int,
                y as int,
            );
            assert(y as int * self.width as int + x as int <= 0xFFFEu16 * 0xFFFFu16 + 0xFFFE)
                by (nonlinear_arith)
                requires
                    x < self.width <= 0xFFFF,
                    y < self.height <= 0xFFFF,
            ;
        }
        let index: usize = y as usize * self.width as usize + x as usize;
        self.data[index]
    }

    /// Sets every pixel to `value`.
    pub fn clear(&mut self, value: u8)
        requires
            old(self).wf(),
        ensures
            final (self).wf(),
            final (self).spec_same_dims(*old(self)),
            forall|x: int, y: int|
                old(self).spec_in_bounds(x, y) ==> #[trigger] final (self).spec_pix(x, y)
                    == value,
    {
        let n = self.data.len();
        let mut i: usize = 0;
        while i < n
            invariant
                i <= n,
                n == self.data@.len(),
                self.width == old(self).width,
                self.height == old(self).height,
                forall|k: int| 0 <= k < i ==> self.data@[k] == value,
            decreases n - i,
        {
            self.data[i] = value;
            i += 1;
        }
        proof {
            assert forall|x: int, y: int| old(self).spec_in_bounds(x, y)
                implies #[trigger] final (self).spec_pix(x, y) == value by {
                lemma_pix_index_bounds(self.width as int, self.height as int, x, y);
            }
        }
    }

    /// Sets one pixel, or fails with an invalid-area error naming the pixel
    /// when the coordinates lie outside the buffer.
    pub fn set_pixel(&mut self, x: u16, y: u16, value: u8) -> (r: Result<(), Error>)
        requires
            old(self).wf(),
        ensures
            final (self).wf(),
            final (self).spec_same_dims(*old(self)),
            x < old(self).width && y < old(self).height ==> {
                &&& r is Ok
                &&& final (self).spec_pix(x as int, y as int) == value
                &&& forall|px: int, py: int|
                    old(self).spec_in_bounds(px, py) && (px != x || py != y)
                        ==> #[trigger] final (self).spec_pix(px, py) == old(self).spec_pix(px, py)
            },
            !(x < old(self).width && y < old(self).height) ==> r == Err::<(), Error>(
                Error::InvalidArea(Area { x, y, width: 1, height: 1 }),
            ) && *final (self) == *old(self),
    {
        if x >= self.width || y >= self.height {
            return Err(Error::InvalidArea(Area::new(x, y, 1, 1)));
        }
        self.put(x, y, value);
        Ok(())
    }

    /// Reads one pixel, or fails with an invalid-area error naming the pixel
    /// when the coordinates lie outside the buffer.
    pub fn get_pixel(&self, x: u16, y: u16) -> (r: Result<u8, Error>)
        requires
            self.wf(),
        ensures
            x < self.width && y < self.height ==> r == Ok::<u8, Error>(
                self.spec_pix(x as int, y as int),
            ),
            !(x < self.width && y < self.height) ==> r == Err::<u8, Error>(
                Error::InvalidArea(Area { x, y, width: 1, height: 1 }),
            ),
    {
        if x >= self.width || y >= self.height {
            return Err(Error::InvalidArea(Area::new(x, y, 1, 1)));
        }
        Ok(self.pix(x, y))
    }

    /// Draws a line from `(x0, y0)` to `(x1, y1)`, clipped to the buffer.
    ///
    /// Only `value` is ever written, and only inside the buffer; both
    /// endpoints get the value when they lie inside the buffer.
    pub fn draw_line(&mut self, x0: u16, y0: u16, x1: u16, y1: u16, value: u8)
        requires
            old(self).wf(),
        ensures
            final (self).wf(),
            final (self).spec_same_dims(*old(self)),
            Framebuffer::spec_only_writes(*old(self), *final (self), value),
            old(self).spec_in_bounds(x0 as int, y0 as int) ==> final (self).spec_pix(
                x0 as int,
                y0 as int,
            ) == value,
            old(self).spec_in_bounds(x1 as int, y1 as int) ==> final (self).spec_pix(
                x1 as int,
                y1 as int,
            ) == value,
    {
        self.put_clipped(x0 as i64, y0 as i64, value);
        self.put_clipped(x1 as i64, y1 as i64, value);

        let w32 = self.width as i32;
        let h32 = self.height as i32;
        let mut cx: i32 = x0 as i32;
        let mut cy: i32 = y0 as i32;
        let ex: i32 = x1 as i32;
        let ey: i32 = y1 as i32;

        let dx: i32 = if ex >= cx {
            ex - cx
        } else {
            cx - ex
        };
        let dy: i32 = if ey >= cy {
            cy - ey
        } else {
            ey - cy
        };
        let sx: i32 = if cx < ex {
            1
        } else {
            -1
        };
        let sy: i32 = if cy < ey {
            1
        } else {
            -1
        };
        let mut err: i32 = dx + dy;

        let mut fuel: u32 = dx as u32 + (0 - dy) as u32 + 1;
        let ghost fuel0 = fuel as int;
        let ghost cx0 = cx as int;
        let ghost cy0 = cy as int;
        while fuel > 0
            invariant
                self.wf(),
                self.spec_same_dims(*old(self)),
                Framebuffer::spec_only_writes(*old(self), *self, value),
                old(self).spec_in_bounds(x0 as int, y0 as int) ==> self.spec_pix(
                    x0 as int,
                    y0 as int,
                ) == value,
                old(self).spec_in_bounds(x1 as int, y1 as int) ==> self.spec_pix(
                    x1 as int,
                    y1 as int,
                ) == value,
                w32 == old(self).width as i32,
                h32 == old(self).height as i32,
                0 <= dx <= 0xFFFF,
                -0xFFFF <= dy <= 0,
                2 * dy <= err <= 2 * dx,
                0 <= cx0 <= 0xFFFF,
                0 <= cy0 <= 0xFFFF,
                sx == 1 || sx == -1,
                sy == 1 || sy == -1,
                fuel <= fuel0 <= 0x20000,
                cx0 - (fuel0 - fuel) <= cx <= cx0 + (fuel0 - fuel),
                cy0 - (fuel0 - fuel) <= cy <= cy0 + (fuel0 - fuel),
            decreases fuel,
        {
            if cx >= 0 && cx < w32 && cy >= 0 && cy < h32 {
                self.put(cx as u16, cy as u16, value);
            }
            if cx == ex && cy == ey {
                return ;
            }
            let e2: i32 = 2 * err;
            if e2 >= dy {
                err = err + dy;
                cx = cx + sx;
            }
            if e2 <= dx {
                err = err + dx;
                cy = cy + sy;
            }
            fuel -= 1;
        }
    }

    /// Draws a rectangle with top-left corner `(x, y)`, clipped to the
    /// buffer: solid when `filled`, the outline otherwise.
    ///
    /// Only `value` is ever written, and only inside the buffer. A filled
    /// rectangle covers every buffer pixel of the rectangle and touches
    /// nothing outside it; an outline touches nothing outside the rectangle
    /// whenever the rectangle has positive spans and lies inside the buffer
    /// (a clipped or degenerate outline still writes only edge rows and
    /// columns of the buffer).
    pub fn draw_rect(&mut self, x: u16, y: u16, width: u16, height: u16, value: u8, filled: bool)
        requires
            old(self).wf(),
        ensures
            final (self).wf(),
            final (self).spec_same_dims(*old(self)),
            Framebuffer::spec_only_writes(*old(self), *final (self), value),
            filled ==> forall|px: int, py: int|
                old(self).spec_in_bounds(px, py) && x <= px < x + width && y <= py < y + height
                    ==> #[trigger] final (self).spec_pix(px, py) == value,
            filled ==> forall|px: int, py: int|
                old(self).spec_in_bounds(px, py) && !(x <= px < x + width && y <= py < y
                    + height) ==> #[trigger] final (self).spec_pix(px, py) == old(self).spec_pix(
                    px,
                    py,
                ),
            (!filled && width > 0 && height > 0 && x + width <= old(self).width && y + height
                <= old(self).height) ==> forall|px: int, py: int|
                old(self).spec_in_bounds(px, py) && !(x <= px < x + width && y <= py < y
                    + height) ==> #[trigger] final (self).spec_pix(px, py) == old(self).spec_pix(
                    px,
                    py,
                ),
    {
        if filled {
            let y_end: u16 = if y as u32 + height as u32 > self.height as u32 {
                self.height
            } else {
                y + height
            };
            let x_end: u16 = if x as u32 + width as u32 > self.width as u32 {
                self.width
            } else {
                x + width
            };
            let mut py: u16 = y;
            while py < y_end
                invariant
                    self.wf(),
                    self.spec_same_dims(*old(self)),
                    y <= py <= y_end || py == y,
                    y_end <= self.height,
                    y_end == vstd::math::min(y as int + height as int, self.height as int),
                    x_end <= self.width,
                    x_end == vstd::math::min(x as int + width as int, self.width as int),
                    Framebuffer::spec_only_writes(*old(self), *self, value),
                    forall|a: int, b: int|
                        old(self).spec_in_bounds(a, b) && x <= a < x_end && y <= b < py
                            ==> #[trigger] self.spec_pix(a, b) == value,
                    forall|a: int, b: int|
                        old(self).spec_in_bounds(a, b) && !(x <= a < x_end && y <= b < py)
                            ==> #[trigger] self.spec_pix(a, b) == old(self).spec_pix(a, b),
                decreases y_end - py,
            {
                let mut px: u16 = x;
                while px < x_end
                    invariant
                        self.wf(),
                        self.spec_same_dims(*old(self)),
                        y <= py < y_end,
                        y_end <= self.height,
                        x_end <= self.width,
                        x <= px <= x_end || px == x,
                        Framebuffer::spec_only_writes(*old(self), *self, value),
                        forall|a: int, b: int|
                            old(self).spec_in_bounds(a, b) && x <= a < x_end && y <= b < py
                                ==> #[trigger] self.spec_pix(a, b) == value,
                        forall|a: int|
                            x <= a < px ==> #[trigger] self.spec_pix(a, py as int) == value,
                        forall|a: int, b: int|
                            old(self).spec_in_bounds(a, b) && !(x <= a < x_end && y <= b < py)
                                && !(x <= a < px && b == py) ==> #[trigger] self.spec_pix(a, b)
                                == old(self).spec_pix(a, b),
                    decreases x_end - px,
                {
                    self.put(px, py, value);
                    px += 1;
                }
                py += 1;
            }
        } else {
            let x_end: u16 = if x as u32 + width as u32 > self.width as u32 {
                self.width
            } else {
                x + width
            };
            let y_end: u16 = if y as u32 + height as u32 > self.height as u32 {
                self.height
            } else {
                y + height
            };
            let mut px: u16 = x;
            while px < x_end
                invariant
                    self.wf(),
                    self.spec_same_dims(*old(self)),
                    x_end <= self.width,
                    x_end == vstd::math::min(x as int + width as int, self.width as int),
                    x <= px,
                    Framebuffer::spec_only_writes(*old(self), *self, value),
                    (width > 0 && height > 0 && x + width <= self.width && y + height
                        <= self.height) ==> forall|a: int, b: int|
                        old(self).spec_in_bounds(a, b) && !(x <= a < x + width && y <= b < y
                            + height) ==> #[trigger] self.spec_pix(a, b) == old(self).spec_pix(
                            a,
                            b,
                        ),
                decreases x_end - px,
            {
                if y < self.height {
                    self.put(px, y, value);
                }
                if height > 0 && self.height > 0 {
                    let bottom: u16 = if y as u32 + height as u32 - 1 > self.height as u32 - 1 {
                        self.height - 1
                    } else {
                        y + height - 1
                    };
                    self.put(px, bottom, value);
                    proof {
                        if x + width <= self.width && y + height <= self.height {
                            assert(y <= bottom < y + height);
                        }
                    }
                }
                proof {
                    if width > 0 && height > 0 && x + width <= self.width && y + height
                        <= self.height {
                        assert forall|a: int, b: int|
                            old(self).spec_in_bounds(a, b) && !(x <= a < x + width && y <= b < y
                                + height) implies #[trigger] self.spec_pix(a, b) == old(
                            self,
                        ).spec_pix(a, b) by {}
                    }
                }
                px += 1;
            }
            let mut py: u16 = y;
            while py < y_end
                invariant
                    self.wf(),
                    self.spec_same_dims(*old(self)),
                    y_end <= self.height,
                    y_end == vstd::math::min(y as int + height as int, self.height as int),
                    y <= py,
                    Framebuffer::spec_only_writes(*old(self), *self, value),
                    (width > 0 && height > 0 && x + width <= self.width && y + height
                        <= self.height) ==> forall|a: int, b: int|
                        old(self).spec_in_bounds(a, b) && !(x <= a < x + width && y <= b < y
                            + height) ==> #[trigger] self.spec_pix(a, b) == old(self).spec_pix(
                            a,
                            b,
                        ),
                decreases y_end - py,
            {
                if x < self.width {
                    self.put(x, py, value);
                }
                if width > 0 && self.width > 0 {
                    let right: u16 = if x as u32 + width as u32 - 1 > self.width as u32 - 1 {
                        self.width - 1
                    } else {
                        x + width - 1
                    };
                    self.put(right, py, value);
                    proof {
                        if x + width <= self.width && y + height <= self.height {
                            assert(x <= right < x + width);
                        }
                    }
                }
                proof {
                    if width > 0 && height > 0 && x + width <= self.width && y + height
                        <= self.height {
                        assert forall|a: int, b: int|
                            old(self).spec_in_bounds(a, b) && !(x <= a < x + width && y <= b < y
                                + height) implies #[trigger] self.spec_pix(a, b) == old(
                            self,
                        ).spec_pix(a, b) by {}
                    }
                }
                py += 1;
            }
        }
    }

    /// Draws a circle of the given radius centered at `(cx, cy)`, clipped to
    /// the buffer: solid when `filled`, the outline otherwise.
    ///
    /// Only `value` is ever written, and only inside the buffer. A circle of
    /// radius zero is exactly its center pixel: that pixel gets the value
    /// when it lies inside the buffer and everything else is untouched.
    pub fn draw_circle(&mut self, cx: u16, cy: u16, radius: u16, value: u8, filled: bool)
        requires
            old(self).wf(),
        ensures
            final (self).wf(),
            final (self).spec_same_dims(*old(self)),
            Framebuffer::spec_only_writes(*old(self), *final (self), value),
            radius == 0 && old(self).spec_in_bounds(cx as int, cy as int)
                ==> final (self).spec_pix(cx as int, cy as int) == value,
            radius == 0 ==> forall|px: int, py: int|
                old(self).spec_in_bounds(px, py) && (px != cx || py != cy)
                    ==> #[trigger] final (self).spec_pix(px, py) == old(self).spec_pix(px, py),
    {
        if radius == 0 {
            if cx < self.width && cy < self.height {
                self.put(cx, cy, value);
            }
            return ;
        }

        let cxi = cx as i64;
        let cyi = cy as i64;
        let r = radius as i64;

        let mut x: i64 = 0;
        let mut y: i64 = r;
        let mut d: i64 = 3 - 2 * r;

        while x <= y
            invariant
                self.wf(),
                self.spec_same_dims(*old(self)),
                Framebuffer::spec_only_writes(*old(self), *self, value),
                0 <= cxi <= 0xFFFF,
                0 <= cyi <= 0xFFFF,
                1 <= r <= 0xFFFF,
                0 <= x <= r + 1,
                -1 <= y <= r,
                -3 - 2 * r - x * (4 * r + 20) <= d <= 3 + x * (4 * r + 20),
            decreases r + 1 - x,
        {
            if filled {
                self.fill_span(cxi - x, cxi + x, cyi + y, value);
                self.fill_span(cxi - x, cxi + x, cyi - y, value);
                self.fill_span(cxi - y, cxi + y, cyi + x, value);
                self.fill_span(cxi - y, cxi + y, cyi - x, value);
            } else {
                self.plot_circle_points(cxi, cyi, x, y, value);
            }

            proof {
                assert((r + 1) * (4 * r + 20) <= 0x10000 * 0x60000) by (nonlinear_arith)
                    requires
                        1 <= r <= 0xFFFF,
                ;
                assert(x * (4 * r + 20) <= (r + 1) * (4 * r + 20) && 0 <= x * (4 * r + 20))
                    by (nonlinear_arith)
                    requires
                        0 <= x <= r + 1,
                        1 <= r,
                ;
                assert((x + 1) * (4 * r + 20) == x * (4 * r + 20) + (4 * r + 20))
                    by (nonlinear_arith);
            }
            if d < 0 {
                d = d + 4 * x + 6;
            } else {
                d = d + 4 * (x - y) + 10;
                y = y - 1;
            }
            x = x + 1;
        }
    }

    /// Writes the horizontal span from `x0` to `x1` on row `y`, clipped to
    /// the buffer.
    fn fill_span(&mut self, x0: i64, x1: i64, y: i64, value: u8)
        requires
            old(self).wf(),
            -0x80000 <= x0 <= x1 <= 0x80000,
            -0x80000 <= y <= 0x80000,
        ensures
            final (self).wf(),
            final (self).spec_same_dims(*old(self)),
            Framebuffer::spec_only_writes(*old(self), *final (self), value),
    {
        if y < 0 || y >= self.height as i64 {
            return ;
        }
        if self.width == 0 {
            return ;
        }
        let xs: i64 = if x0 < 0 {
            0
        } else if x0 > self.width as i64 - 1 {
            self.width as i64 - 1
        } else {
            x0
        };
        let xe: i64 = if x1 < 0 {
            0
        } else if x1 > self.width as i64 - 1 {
            self.width as i64 - 1
        } else {
            x1
        };
        let mut px: i64 = xs;
        while px <= xe
            invariant
                self.wf(),
                self.spec_same_dims(*old(self)),
                Framebuffer::spec_only_writes(*old(self), *self, value),
                0 <= xs,
                xe < self.width,
                xs <= px,
                px <= xe + 1,
                0 <= y < self.height,
            decreases xe + 1 - px,
        {
            self.put(px as u16, y as u16, value);
            px = px + 1;
        }
    }

    /// Writes the eight symmetric points of one circle octant step, clipped
    /// to the buffer.
    fn plot_circle_points(&mut self, cx: i64, cy: i64, x: i64, y: i64, value: u8)
        requires
            old(self).wf(),
            -0x80000 <= cx <= 0x80000,
            -0x80000 <= cy <= 0x80000,
            -1 <= x <= 0x10000,
            -1 <= y <= 0x10000,
        ensures
            final (self).wf(),
            final (self).spec_same_dims(*old(self)),
            Framebuffer::spec_only_writes(*old(self), *final (self), value),
    {
        self.put_clipped(cx + x, cy + y, value);
        self.put_clipped(cx - x, cy + y, value);
        self.put_clipped(cx + x, cy - y, value);
        self.put_clipped(cx - x, cy - y, value);
        self.put_clipped(cx + y, cy + x, value);
        self.put_clipped(cx - y, cy + x, value);
        self.put_clipped(cx + y, cy - x, value);
        self.put_clipped(cx - y, cy - x, value);
    }

    /// Writes one pixel when it lies inside the buffer, and nothing
    /// otherwise.
    fn put_clipped(&mut self, x: i64, y: i64, value: u8)
        requires
            old(self).wf(),
        ensures
            final (self).wf(),
            final (self).spec_same_dims(*old(self)),
            Framebuffer::spec_only_writes(*old(self), *final (self), value),
            old(self).spec_in_bounds(x as int, y as int) ==> final (self).spec_pix(
                x as int,
                y as int,
            ) == value,
    {
        if x >= 0 && x < self.width as i64 && y >= 0 && y < self.height as i64 {
            self.put(x as u16, y as u16, value);
        }
    }

    /// Fills a rectangular area, or fails with an invalid-area error when it
    /// reaches outside the buffer.
    ///
    /// On success every pixel of the area holds `value` and every other pixel
    /// is untouched.
    pub fn fill_area(&mut self, area: &Area, value: u8) -> (r: Result<(), Error>)
        requires
            old(self).wf(),
        ensures
            final (self).wf(),
            final (self).spec_same_dims(*old(self)),
            area.x + area.width <= old(self).width && area.y + area.height <= old(self).height
                ==> r is Ok,
            !(area.x + area.width <= old(self).width && area.y + area.height <= old(self).height)
                ==> r == Err::<(), Error>(Error::InvalidArea(*area)) && *final (self) == *old(self),
            r is Ok ==> {
                &&& forall|px: int, py: int|
                    area.x <= px < area.x + area.width && area.y <= py < area.y + area.height
                        ==> #[trigger] final (self).spec_pix(px, py) == value
                &&& forall|px: int, py: int|
                    old(self).spec_in_bounds(px, py) && !(area.x <= px < area.x + area.width
                        && area.y <= py < area.y + area.height) ==> #[trigger] final (self).spec_pix(px, py) == old(self).spec_pix(px, py)
            },
    {
        if area.x as u32 + area.width as u32 > self.width as u32 || area.y as u32
            + area.height as u32 > self.height as u32 {
            return Err(Error::InvalidArea(*area));
        }

        let mut py: u16 = area.y;
        while py < area.y + area.height
            invariant
                self.wf(),
                self.spec_same_dims(*old(self)),
                area.x + area.width <= self.width,
                area.y + area.height <= self.height,
                area.y <= py <= area.y + area.height,
                forall|a: int, b: int|
                    area.x <= a < area.x + area.width && area.y <= b < py
                        ==> #[trigger] self.spec_pix(a, b) == value,
                forall|a: int, b: int|
                    old(self).spec_in_bounds(a, b) && !(area.x <= a < area.x + area.width
                        && area.y <= b < py) ==> #[trigger] self.spec_pix(a, b) == old(self).spec_pix(a, b),
            decreases area.y + area.height - py,
        {
            let mut px: u16 = area.x;
            while px < area.x + area.width
                invariant
                    self.wf(),
                    self.spec_same_dims(*old(self)),
                    area.x + area.width <= self.width,
                    area.y + area.height <= self.height,
                    area.y <= py < area.y + area.height,
                    area.x <= px <= area.x + area.width,
                    forall|a: int, b: int|
                        area.x <= a < area.x + area.width && area.y <= b < py
                            ==> #[trigger] self.spec_pix(a, b) == value,
                    forall|a: int| area.x <= a < px ==> #[trigger] self.spec_pix(a, py as int)
                        == value,
                    forall|a: int, b: int|
                        old(self).spec_in_bounds(a, b) && !(area.x <= a < area.x + area.width
                            && area.y <= b < py) && !(area.x <= a < px && b == py) ==> #[trigger] self.spec_pix(
                            a,
                            b,
                        ) == old(self).spec_pix(a, b),
                decreases area.x + area.width - px,
            {
                self.put(px, py, value);
                px += 1;
            }
            py += 1;
        }
        Ok(())
    }

    /// Fills a rectangle given by corner and spans, clipped to the buffer.
    ///
    /// Every buffer pixel of the rectangle holds `value` afterwards; every
    /// other pixel is untouched.
    pub fn fill_rect(&mut self, x: u16, y: u16, w: u16, h: u16, value: u8)
        requires
            old(self).wf(),
        ensures
            final (self).wf(),
            final (self).spec_same_dims(*old(self)),
            forall|px: int, py: int|
                old(self).spec_in_bounds(px, py) && x <= px < x + w && y <= py < y + h
                    ==> #[trigger] final (self).spec_pix(px, py) == value,
            forall|px: int, py: int|
                old(self).spec_in_bounds(px, py) && !(x <= px < x + w && y <= py < y + h)
                    ==> #[trigger] final (self).spec_pix(px, py) == old(self).spec_pix(px, py),
    {
        let x_end: u16 = if x as u32 + w as u32 > self.width as u32 {
            self.width
        } else {
            x + w
        };
        let y_end: u16 = if y as u32 + h as u32 > self.height as u32 {
            self.height
        } else {
            y + h
        };
        let xs: u16 = if x > self.width {
            self.width
        } else {
            x
        };
        let ys: u16 = if y > self.height {
            self.height
        } else {
            y
        };

        let mut py: u16 = ys;
        while py < y_end
            invariant
                self.wf(),
                self.spec_same_dims(*old(self)),
                x_end <= self.width,
                y_end <= self.height,
                x_end == vstd::math::min(x as int + w as int, self.width as int),
                y_end == vstd::math::min(y as int + h as int, self.height as int),
                xs == vstd::math::min(x as int, self.width as int),
                ys == vstd::math::min(y as int, self.height as int),
                ys <= py <= y_end || py == ys,
                forall|a: int, b: int|
                    xs <= a < x_end && ys <= b < py ==> #[trigger] self.spec_pix(a, b) == value,
                forall|a: int, b: int|
                    old(self).spec_in_bounds(a, b) && !(xs <= a < x_end && ys <= b < py)
                        ==> #[trigger] self.spec_pix(a, b) == old(self).spec_pix(a, b),
            decreases y_end - py,
        {
            let mut px: u16 = xs;
            while px < x_end
                invariant
                    self.wf(),
                    self.spec_same_dims(*old(self)),
                    x_end <= self.width,
                    y_end <= self.height,
                    ys <= py < y_end,
                    xs <= px <= x_end || px == xs,
                    forall|a: int, b: int|
                        xs <= a < x_end && ys <= b < py ==> #[trigger] self.spec_pix(a, b)
                            == value,
                    forall|a: int| xs <= a < px ==> #[trigger] self.spec_pix(a, py as int)
                        == value,
                    forall|a: int, b: int|
                        old(self).spec_in_bounds(a, b) && !(xs <= a < x_end && ys <= b < py) && !(
                        xs <= a < px && b == py) ==> #[trigger] self.spec_pix(a, b) == old(self).spec_pix(a, b),
                decreases x_end - px,
            {
                self.put(px, py, value);
                px += 1;
            }
            py += 1;
        }
    }

    /// Scrolls a rectangular region up by `pixel_rows` rows: rows inside the
    /// region take the contents `pixel_rows` below them, the freed bottom
    /// rows take `fill`, and everything outside the region is untouched. The
    /// region must lie inside the buffer.
    pub fn scroll_region_up(&mut self, x: u16, y: u16, w: u16, h: u16, pixel_rows: usize, fill: u8)
        requires
            old(self).wf(),
            x + w <= old(self).width,
            y + h <= old(self).height,
        ensures
            final (self).wf(),
            final (self).spec_same_dims(*old(self)),
            forall|px: int, py: int|
                x <= px < x + w && y <= py < y + h - pixel_rows ==> #[trigger] final (self).spec_pix(px, py) == old(self).spec_pix(px, py + pixel_rows),
            forall|px: int, py: int|
                x <= px < x + w && vstd::math::max(y as int, y + h - pixel_rows) <= py < y + h
                    ==> #[trigger] final (self).spec_pix(px, py) == fill,
            forall|px: int, py: int|
                old(self).spec_in_bounds(px, py) && !(x <= px < x + w && y <= py < y + h)
                    ==> #[trigger] final (self).spec_pix(px, py) == old(self).spec_pix(px, py),
    {
        if pixel_rows >= h as usize {
            self.fill_rect(x, y, w, h, fill);
            return ;
        }
        let k: u16 = pixel_rows as u16;

        let mut py: u16 = y;
        while py < y + h - k
            invariant
                self.wf(),
                self.spec_same_dims(*old(self)),
                x + w <= self.width,
                y + h <= self.height,
                k < h,
                k == pixel_rows,
                y <= py <= y + h - k,
                forall|a: int, b: int|
                    x <= a < x + w && y <= b < py ==> #[trigger] self.spec_pix(a, b) == old(self).spec_pix(a, b + k),
                forall|a: int, b: int|
                    old(self).spec_in_bounds(a, b) && !(x <= a < x + w && y <= b < py)
                        ==> #[trigger] self.spec_pix(a, b) == old(self).spec_pix(a, b),
            decreases y + h - k - py,
        {
            let mut px: u16 = x;
            while px < x + w
                invariant
                    self.wf(),
                    self.spec_same_dims(*old(self)),
                    x + w <= self.width,
                    y + h <= self.height,
                    k < h,
                    y <= py < y + h - k,
                    x <= px <= x + w,
                    forall|a: int, b: int|
                        x <= a < x + w && y <= b < py ==> #[trigger] self.spec_pix(a, b) == old(self).spec_pix(a, b + k),
                    forall|a: int| x <= a < px ==> #[trigger] self.spec_pix(a, py as int) == old(self).spec_pix(a, py + k),
                    forall|a: int, b: int|
                        old(self).spec_in_bounds(a, b) && !(x <= a < x + w && y <= b < py) && !(x
                            <= a < px && b == py) ==> #[trigger] self.spec_pix(a, b) == old(self).spec_pix(a, b),
                decreases x + w - px,
            {
                let v = self.pix(px, py + k);
                proof {
                    assert(self.spec_pix(px as int, py + k) == old(self).spec_pix(
                        px as int,
                        py + k,
                    ));
                }
                self.put(px, py, v);
                px += 1;
            }
            py += 1;
        }

        let mut fy: u16 = y + h - k;
        while fy < y + h
            invariant
                self.wf(),
                self.spec_same_dims(*old(self)),
                x + w <= self.width,
                y + h <= self.height,
                k < h,
                k == pixel_rows,
                y + h - k <= fy <= y + h,
                forall|a: int, b: int|
                    x <= a < x + w && y <= b < y + h - k ==> #[trigger] self.spec_pix(a, b) == old(self).spec_pix(a, b + k),
                forall|a: int, b: int|
                    x <= a < x + w && y + h - k <= b < fy ==> #[trigger] self.spec_pix(a, b)
                        == fill,
                forall|a: int, b: int|
                    old(self).spec_in_bounds(a, b) && !(x <= a < x + w && y <= b < fy)
                        ==> #[trigger] self.spec_pix(a, b) == old(self).spec_pix(a, b),
            decreases y + h - fy,
        {
            let mut px: u16 = x;
            while px < x + w
                invariant
                    self.wf(),
                    self.spec_same_dims(*old(self)),
                    x + w <= self.width,
                    y + h <= self.height,
                    k < h,
                    y + h - k <= fy < y + h,
                    x <= px <= x + w,
                    forall|a: int, b: int|
                        x <= a < x + w && y <= b < y + h - k ==> #[trigger] self.spec_pix(a, b)
                            == old(self).spec_pix(a, b + k),
                    forall|a: int, b: int|
                        x <= a < x + w && y + h - k <= b < fy ==> #[trigger] self.spec_pix(a, b)
                            == fill,
                    forall|a: int| x <= a < px ==> #[trigger] self.spec_pix(a, fy as int) == fill,
                    forall|a: int, b: int|
                        old(self).spec_in_bounds(a, b) && !(x <= a < x + w && y <= b < fy) && !(x
                            <= a < px && b == fy) ==> #[trigger] self.spec_pix(a, b) == old(self).spec_pix(a, b),
                decreases x + w - px,
            {
                self.put(px, fy, fill);
                px += 1;
            }
            fy += 1;
        }
    }

    /// Scrolls the whole buffer up by `pixel_rows` rows: each row takes the
    /// contents `pixel_rows` below it and the freed bottom rows take `fill`.
    pub fn scroll_up(&mut self, pixel_rows: usize, fill: u8)
        requires
            old(self).wf(),
        ensures
            final (self).wf(),
            final (self).spec_same_dims(*old(self)),
            forall|px: int, py: int|
                0 <= px < old(self).width && 0 <= py < old(self).height - pixel_rows
                    ==> #[trigger] final (self).spec_pix(px, py) == old(self).spec_pix(
                    px,
                    py + pixel_rows,
                ),
            forall|px: int, py: int|
                0 <= px < old(self).width && vstd::math::max(
                    0,
                    old(self).height - pixel_rows,
                ) <= py < old(self).height ==> #[trigger] final (self).spec_pix(px, py) == fill,
    {
        let w = self.width;
        let h = self.height;
        self.scroll_region_up(0, 0, w, h, pixel_rows, fill);
    }
}

} // verus!
