//! The per-frame canvas: a pixel buffer cleared to a dark background, filled
//! rectangles composited into it, recorded text runs, the pointer position
//! registered this frame, and a draw-call counter for diagnostics.
//!
//! Text rasterization needs a font engine, so a text run is recorded here as
//! a command (string, anchor, color, size) with its layout fixed; the
//! presentation layer rasterizes the recorded runs when the frame is shown.

use vstd::prelude::*;
use vstd::pervasive::VecAdditionalExecFns;
use crate::geometry::{rects_overlap, Color, Location2, Location4};

verus! {

/// Logical window width: the launcher window is created with this fixed size,
/// and the widget visibility guard checks against it.
pub const WIDTH: i32 = 854;

/// Logical window height.
pub const HEIGHT: i32 = 480;

/// The color every canvas is cleared to when it is created.
pub open spec fn background() -> Color {
    Color { a: 255, r: 25, g: 25, b: 25 }
}

/// One recorded text run, waiting to be rasterized when the frame is shown.
pub struct TextCmd {
    pub text: String,
    pub location: Location2,
    pub color: Color,
    /// Point size in tenths of a point, so the launcher's 12.5-point button
    /// labels stay integral.
    pub size_tenths: u32,
}

/// Whether the rectangle covers the pixel at `(px, py)`.
pub open spec fn covers(r: Location4, px: int, py: int) -> bool {
    r.x <= px < r.x + r.w && r.y <= py < r.y + r.h
}

/// The pixel at column `px` of row `py` in a row-major buffer of the given
/// width.
pub open spec fn pixel(s: Seq<Color>, width: int, px: int, py: int) -> Color {
    s[py * width + px]
}

/// Source-over compositing of one channel against an opaque destination:
/// the source weighted by its alpha, the destination by the remainder.
pub open spec fn blend_channel(dst: u8, src: u8, alpha: u8) -> int {
    (src * alpha + dst * (255 - alpha)) / 255
}

/// Source-over compositing of a color onto an opaque destination pixel; the
/// result is again opaque.
pub open spec fn blend(dst: Color, src: Color) -> Color {
    Color {
        a: 255,
        r: blend_channel(dst.r, src.r, src.a) as u8,
        g: blend_channel(dst.g, src.g, src.a) as u8,
        b: blend_channel(dst.b, src.b, src.a) as u8,
    }
}

/// The draw-call counter after one more draw call: it increases by one and
/// saturates rather than wrap, staying monotone.
pub open spec fn next_count(c: i32) -> i32 {
    if c < 0x7fff_ffff {
        (c + 1) as i32
    } else {
        c
    }
}

/// The canvas for one displayed frame.
pub struct Drawing {
    /// Pixel-buffer width: the window's width when the frame began.
    pub width: usize,
    /// Pixel-buffer height.
    pub height: usize,
    /// Row-major pixel buffer, `width * height` entries.
    pub buffer: Vec<Color>,
    /// Logical window width the visibility guard checks against.
    pub window_w: i32,
    /// Logical window height.
    pub window_h: i32,
    /// Draw calls made on this canvas; diagnostics only.
    pub count: i32,
    /// Last registered pointer x position.
    pub mouse_x: i32,
    /// Last registered pointer y position.
    pub mouse_y: i32,
    /// Text runs recorded this frame, in draw order.
    pub texts: Vec<TextCmd>,
}

/// A pixel's row-major index lies within a `width * height` buffer.
proof fn lemma_pixel_index_in_range(width: int, height: int, px: int, py: int)
    requires
        0 <= px < width,
        0 <= py < height,
    ensures
        0 <= py * width + px < width * height,
{
    assert(0 <= py * width + px < width * height) by (nonlinear_arith)
        requires
            0 <= px < width,
            0 <= py < height,
    ;
}

proof fn lemma_pixel_index_unique(width: int, px1: int, py1: int, px2: int, py2: int)
    requires
        0 <= px1 < width,
        0 <= px2 < width,
        py1 * width + px1 == py2 * width + px2,
    ensures
        px1 == px2,
        py1 == py2,
{
    assert(px1 == px2 && py1 == py2) by (nonlinear_arith)
        requires
            0 <= px1 < width,
            0 <= px2 < width,
            py1 * width + px1 == py2 * width + px2,
    ;
}

/// One compositing step on a channel, executably.
fn blend_channel_exec(dst: u8, src: u8, alpha: u8) -> (out: u8)
    ensures
        out == blend_channel(dst, src, alpha),
{
    let s: u32 = src as u32;
    let a: u32 = alpha as u32;
    let d: u32 = dst as u32;
    assert(s * a + d * (255 - a) <= 255 * 255) by (nonlinear_arith)
        requires
            s <= 255,
            a <= 255,
            d <= 255,
    ;
    let num: u32 = s * a + d * (255 - a);
    let out: u32 = num / 255;
    assert(num / 255 <= 255);
    out as u8
}

/// Source-over compositing of a color onto an opaque pixel, executably.
fn blend_pixel(dst: Color, src: Color) -> (out: Color)
    ensures
        out == blend(dst, src),
{
    Color {
        a: 255,
        r: blend_channel_exec(dst.r, src.r, src.a),
        g: blend_channel_exec(dst.g, src.g, src.a),
        b: blend_channel_exec(dst.b, src.b, src.a),
    }
}

impl Drawing {
    /// A canvas is well-formed when its buffer really is `width * height`
    /// pixels, its dimensions are within the coordinate range, and its
    /// logical window bounds are the fixed window size.
    pub open spec fn wf(&self) -> bool {
        &&& self.buffer@.len() == self.width * self.height
        &&& self.width * self.height <= usize::MAX
        &&& self.width <= 0x7fff_ffff
        &&& self.height <= 0x7fff_ffff
        &&& self.window_w == WIDTH
        &&& self.window_h == HEIGHT
    }

    /// The parts of the canvas that no drawing primitive changes: dimensions,
    /// window bounds, and the registered pointer position.
    pub open spec fn same_frame_state(&self, other: &Drawing) -> bool {
        &&& self.width == other.width
        &&& self.height == other.height
        &&& self.window_w == other.window_w
        &&& self.window_h == other.window_h
        &&& self.mouse_x == other.mouse_x
        &&& self.mouse_y == other.mouse_y
    }

    /// A fresh canvas for one frame: the buffer is cleared to the background
    /// color, the draw-call counter and pointer position are reset.
    pub fn new(width: usize, height: usize) -> (d: Drawing)
        requires
            width <= 0x7fff_ffff,
            height <= 0x7fff_ffff,
            width * height <= usize::MAX,
        ensures
            d.wf(),
            d.width == width,
            d.height == height,
            d.count == 0,
            d.mouse_x == 0,
            d.mouse_y == 0,
            d.texts@.len() == 0,
            forall|i: int| 0 <= i < d.buffer@.len() ==> d.buffer@[i] == background(),
    {
        let n: usize = width * height;
        let mut buffer: Vec<Color> = Vec::new();
        let mut i: usize = 0;
        while i < n
            invariant
                i <= n,
                buffer@.len() == i,
                forall|j: int| 0 <= j < i ==> buffer@[j] == background(),
            decreases n - i,
        {
            buffer.push(Color::new(255, 25, 25, 25));
            i = i + 1;
        }
        Drawing {
            width,
            height,
            buffer,
            window_w: WIDTH,
            window_h: HEIGHT,
            count: 0,
            mouse_x: 0,
            mouse_y: 0,
            texts: Vec::new(),
        }
    }

    /// Records the pointer position for this frame. No validation: positions
    /// outside the buffer are accepted and simply hit nothing on screen.
    pub fn process_mouse(&mut self, x: i32, y: i32)
        ensures
            *final(self) == (Drawing { mouse_x: x, mouse_y: y, ..*old(self) }),
    {
        self.mouse_x = x;
        self.mouse_y = y;
    }

    /// The rectangle-overlap test on raw coordinates, exactly as the
    /// widgets use it for hit-testing.
    pub fn check_click(
        &self,
        x1: i32,
        y1: i32,
        w1: i32,
        h1: i32,
        x2: i32,
        y2: i32,
        w2: i32,
        h2: i32,
    ) -> (hit: bool)
        ensures
            hit == rects_overlap(
                Location4 { x: x1, y: y1, w: w1, h: h1 },
                Location4 { x: x2, y: y2, w: w2, h: h2 },
            ),
    {
        crate::geometry::rects_overlap_exec(
            Location4::new(x1, y1, w1, h1),
            Location4::new(x2, y2, w2, h2),
        )
    }

    /// Fills the rectangle with the color, compositing it over the pixels the
    /// rectangle covers; everything outside the buffer is clipped away, and a
    /// rectangle with non-positive extent covers nothing. One draw call.
    pub fn draw_square(&mut self, location: Location4, color: Color)
        requires
            old(self).wf(),
        ensures
            final(self).wf(),
            final(self).same_frame_state(old(self)),
            final(self).texts@ == old(self).texts@,
            final(self).count == next_count(old(self).count),
            final(self).buffer@.len() == old(self).buffer@.len(),
            forall|px: int, py: int|
                0 <= px < final(self).width && 0 <= py < final(self).height ==> #[trigger] pixel(
                    final(self).buffer@,
                    final(self).width as int,
                    px,
                    py,
                ) == if covers(location, px, py) {
                    blend(pixel(old(self).buffer@, final(self).width as int, px, py), color)
                } else {
                    pixel(old(self).buffer@, final(self).width as int, px, py)
                },
    {
        let ghost orig = *self;
        let w: usize = self.width;
        let wi: i64 = self.width as i64;
        let hi: i64 = self.height as i64;
        let lx: i64 = location.x as i64;
        let ly: i64 = location.y as i64;
        let ex: i64 = lx + location.w as i64;
        let ey: i64 = ly + location.h as i64;
        let x0: i64 = if lx < 0 { 0 } else if lx > wi { wi } else { lx };
        let y0: i64 = if ly < 0 { 0 } else if ly > hi { hi } else { ly };
        let x1: i64 = if ex < x0 { x0 } else if ex > wi { wi } else { ex };
        let y1: i64 = if ey < y0 { y0 } else if ey > hi { hi } else { ey };
        let x0u: usize = x0 as usize;
        let x1u: usize = x1 as usize;
        let y1u: usize = y1 as usize;
        let mut y: usize = y0 as usize;
        while y < y1u
            invariant
                orig.wf(),
                self.wf(),
                self.width == orig.width,
                self.height == orig.height,
                self.window_w == orig.window_w,
                self.window_h == orig.window_h,
                self.mouse_x == orig.mouse_x,
                self.mouse_y == orig.mouse_y,
                self.count == orig.count,
                self.texts@ == orig.texts@,
                self.buffer@.len() == orig.buffer@.len(),
                w == orig.width,
                x0 == if location.x < 0 { 0int } else if location.x > orig.width { orig.width as int } else { location.x as int },
                x0 <= x1 <= orig.width,
                y0 as int == if location.y < 0 { 0int } else if location.y > orig.height { orig.height as int } else { location.y as int },
                y0 <= y <= y1u,
                y1u <= orig.height,
                x0u == x0,
                x1u == x1,
                y1u == y1,
                forall|px: int| 0 <= px < orig.width ==> (covers_x(location, px) == (x0 <= px < x1)),
                forall|py: int| 0 <= py < orig.height ==> (covers_y(location, py) == (y0 <= py < y1)),
                forall|px: int, py: int|
                    0 <= px < orig.width && 0 <= py < orig.height ==> #[trigger] pixel(
                        self.buffer@,
                        orig.width as int,
                        px,
                        py,
                    ) == if covers(location, px, py) && py < y {
                        blend(pixel(orig.buffer@, orig.width as int, px, py), color)
                    } else {
                        pixel(orig.buffer@, orig.width as int, px, py)
                    },
            decreases y1u - y,
        {
            proof {
                assert forall|px: int, py: int|
                    0 <= px < orig.width && 0 <= py < orig.height implies #[trigger] pixel(
                        self.buffer@,
                        orig.width as int,
                        px,
                        py,
                    ) == if covers(location, px, py) && (py < y || (py == y && px < x0)) {
                        blend(pixel(orig.buffer@, orig.width as int, px, py), color)
                    } else {
                        pixel(orig.buffer@, orig.width as int, px, py)
                    } by {
                    if covers(location, px, py) {
                        assert(covers_x(location, px));
                        assert(covers_y(location, py));
                    }
                }
            }
            let mut x: usize = x0u;
            while x < x1u
                invariant
                    orig.wf(),
                    self.wf(),
                    self.width == orig.width,
                    self.height == orig.height,
                    self.window_w == orig.window_w,
                    self.window_h == orig.window_h,
                    self.mouse_x == orig.mouse_x,
                    self.mouse_y == orig.mouse_y,
                    self.count == orig.count,
                    self.texts@ == orig.texts@,
                    self.buffer@.len() == orig.buffer@.len(),
                    w == orig.width,
                    x0 <= x1 <= orig.width,
                    x0 <= x <= x1u,
                    y0 <= y < y1u,
                    y1u <= orig.height,
                    x0u == x0,
                    x1u == x1,
                    y1u == y1,
                    forall|px: int| 0 <= px < orig.width ==> (covers_x(location, px) == (x0 <= px < x1)),
                    forall|py: int| 0 <= py < orig.height ==> (covers_y(location, py) == (y0 <= py < y1)),
                    forall|px: int, py: int|
                        0 <= px < orig.width && 0 <= py < orig.height ==> #[trigger] pixel(
                            self.buffer@,
                            orig.width as int,
                            px,
                            py,
                        ) == if covers(location, px, py) && (py < y || (py == y && px < x)) {
                            blend(pixel(orig.buffer@, orig.width as int, px, py), color)
                        } else {
                            pixel(orig.buffer@, orig.width as int, px, py)
                        },
                decreases x1u - x,
            {
                assert(y * w + x < w * orig.height) by (nonlinear_arith)
                    requires
                        y < orig.height,
                        x < w,
                        w == orig.width,
                        0 <= x,
                        0 <= y,
                ;
                let idx: usize = y * w + x;
                let ghost prev = self.buffer@;
                let dst: Color = self.buffer[idx];
                assert(dst == pixel(prev, orig.width as int, x as int, y as int));
                let c: Color = blend_pixel(dst, color);
                self.buffer.set(idx, c);
                proof {
                    assert(covers_x(location, x as int));
                    assert(covers_y(location, y as int));
                    assert(covers(location, x as int, y as int));
                    assert forall|px: int, py: int|
                        0 <= px < orig.width && 0 <= py < orig.height implies #[trigger] pixel(
                            self.buffer@,
                            orig.width as int,
                            px,
                            py,
                        ) == if covers(location, px, py) && (py < y || (py == y && px < x + 1)) {
                            blend(pixel(orig.buffer@, orig.width as int, px, py), color)
                        } else {
                            pixel(orig.buffer@, orig.width as int, px, py)
                        } by {
                        lemma_pixel_index_in_range(orig.width as int, orig.height as int, px, py);
                        assert(pixel(prev, orig.width as int, px, py) == if covers(
                            location,
                            px,
                            py,
                        ) && (py < y || (py == y && px < x)) {
                            blend(pixel(orig.buffer@, orig.width as int, px, py), color)
                        } else {
                            pixel(orig.buffer@, orig.width as int, px, py)
                        });
                        if py * (orig.width as int) + px == idx as int {
                            lemma_pixel_index_unique(
                                orig.width as int,
                                px,
                                py,
                                x as int,
                                y as int,
                            );
                        } else {
                            assert(pixel(self.buffer@, orig.width as int, px, py) == pixel(
                                prev,
                                orig.width as int,
                                px,
                                py,
                            ));
                        }
                        if covers(location, px, py) {
                            assert(covers_x(location, px));
                            assert(covers_y(location, py));
                        }
                    }
                }
                x = x + 1;
            }
            proof {
                assert forall|px: int, py: int|
                    0 <= px < orig.width && 0 <= py < orig.height implies #[trigger] pixel(
                        self.buffer@,
                        orig.width as int,
                        px,
                        py,
                    ) == if covers(location, px, py) && py < y + 1 {
                        blend(pixel(orig.buffer@, orig.width as int, px, py), color)
                    } else {
                        pixel(orig.buffer@, orig.width as int, px, py)
                    } by {
                    if covers(location, px, py) {
                        assert(covers_x(location, px));
                        assert(covers_y(location, py));
                    }
                }
            }
            y = y + 1;
        }
        proof {
            assert forall|px: int, py: int|
                0 <= px < orig.width && 0 <= py < orig.height implies #[trigger] pixel(
                    self.buffer@,
                    orig.width as int,
                    px,
                    py,
                ) == if covers(location, px, py) {
                    blend(pixel(orig.buffer@, orig.width as int, px, py), color)
                } else {
                    pixel(orig.buffer@, orig.width as int, px, py)
                } by {
                if covers(location, px, py) {
                    assert(covers_x(location, px));
                    assert(covers_y(location, py));
                }
            }
        }
        self.count = if self.count < 0x7fff_ffff {
            self.count + 1
        } else {
            self.count
        };
    }

    /// Records a text run at the given anchor in the given color and size.
    /// The run is not wrapped or clipped: a long label simply overflows its
    /// widget when rasterized. One draw call.
    pub fn draw_text(&mut self, text: &str, location: Location2, color: Color, size_tenths: u32)
        requires
            old(self).wf(),
        ensures
            final(self).wf(),
            final(self).same_frame_state(old(self)),
            final(self).buffer@ == old(self).buffer@,
            final(self).count == next_count(old(self).count),
            final(self).texts@.len() == old(self).texts@.len() + 1,
            forall|i: int|
                0 <= i < old(self).texts@.len() ==> final(self).texts@[i] == old(self).texts@[i],
            final(self).texts@.last().text@ == text@,
            final(self).texts@.last().location == location,
            final(self).texts@.last().color == color,
            final(self).texts@.last().size_tenths == size_tenths,
    {
        let owned: String = text.to_owned();
        self.texts.push(TextCmd { text: owned, location, color, size_tenths });
        self.count = if self.count < 0x7fff_ffff {
            self.count + 1
        } else {
            self.count
        };
    }

    /// Whether the button visibility guard lets a widget at `r` draw: the
    /// right edge within the window width, `y` plus an eighth of the height
    /// above the bottom, and the bottom edge below the top. The guard is
    /// deliberately asymmetric — only an eighth of the height counts against
    /// the bottom — so a row scrolled mostly past the bottom still draws.
    pub open spec fn button_visible(&self, r: Location4) -> bool {
        &&& self.window_w > r.x + r.w
        &&& self.window_h > r.y + r.h as int / 8
        &&& 0 < r.y + r.h
    }

    /// Draws a button: when the visibility guard passes, a filled rectangle
    /// and its label 16 pixels below the top-left corner in small black type;
    /// always reports whether the pointer position registered this frame lies
    /// inside the bounds, as a 1-by-1 probe rectangle overlap. The result is
    /// a level signal, re-evaluated from scratch every frame; edge-triggering
    /// is the frame scheduler's debounce gate.
    pub fn draw_button(&mut self, text: &str, location: Location4, color: Color) -> (hit: bool)
        requires
            old(self).wf(),
        ensures
            final(self).wf(),
            final(self).same_frame_state(old(self)),
            hit == rects_overlap(
                location,
                Location4 { x: old(self).mouse_x, y: old(self).mouse_y, w: 1, h: 1 },
            ),
            old(self).button_visible(location) ==> {
                &&& final(self).count == next_count(next_count(old(self).count))
                &&& final(self).buffer@.len() == old(self).buffer@.len()
                &&& (forall|px: int, py: int|
                    0 <= px < final(self).width && 0 <= py < final(self).height ==> #[trigger] pixel(
                        final(self).buffer@,
                        final(self).width as int,
                        px,
                        py,
                    ) == if covers(location, px, py) {
                        blend(pixel(old(self).buffer@, final(self).width as int, px, py), color)
                    } else {
                        pixel(old(self).buffer@, final(self).width as int, px, py)
                    })
                &&& final(self).texts@.len() == old(self).texts@.len() + 1
                &&& (forall|i: int|
                    0 <= i < old(self).texts@.len() ==> final(self).texts@[i] == old(
                        self,
                    ).texts@[i])
                &&& final(self).texts@.last().text@ == text@
                &&& final(self).texts@.last().location == (Location2 {
                    x: location.x,
                    y: (location.y + 16) as i32,
                })
                &&& final(self).texts@.last().color == (Color { a: 255, r: 0, g: 0, b: 0 })
                &&& final(self).texts@.last().size_tenths == 125
            },
            !old(self).button_visible(location) ==> {
                &&& final(self).count == old(self).count
                &&& final(self).buffer@ == old(self).buffer@
                &&& final(self).texts@ == old(self).texts@
            },
    {
        let e8: i32 = eighth_exec(location.h);
        let visible: bool = (self.window_w as i64) > (location.x as i64) + (location.w as i64)
            && (self.window_h as i64) > (location.y as i64) + (e8 as i64)
            && 0 < (location.y as i64) + (location.h as i64);
        if visible {
            self.draw_square(location, color);
            proof {
                vstd::arithmetic::div_mod::lemma_div_is_ordered(
                    -0x8000_0000,
                    location.h as int,
                    8,
                );
            }
            let label_y: i32 = location.y + 16;
            self.draw_text(
                text,
                Location2::new(location.x, label_y),
                Color::new(255, 0, 0, 0),
                125,
            );
        }
        self.check_click(
            location.x,
            location.y,
            location.w,
            location.h,
            self.mouse_x,
            self.mouse_y,
            1,
            1,
        )
    }

    /// The warning banner: a translucent dark bar across the lower half of
    /// the window. The text is accepted but intentionally not rendered; the
    /// banner is a visual highlight only.
    pub fn draw_warn(&mut self, _text: &str)
        requires
            old(self).wf(),
        ensures
            final(self).wf(),
            final(self).same_frame_state(old(self)),
            final(self).texts@ == old(self).texts@,
            final(self).count == next_count(old(self).count),
            final(self).buffer@.len() == old(self).buffer@.len(),
            forall|px: int, py: int|
                0 <= px < final(self).width && 0 <= py < final(self).height ==> #[trigger] pixel(
                    final(self).buffer@,
                    final(self).width as int,
                    px,
                    py,
                ) == if covers(banner_rect(), px, py) {
                    blend(
                        pixel(old(self).buffer@, final(self).width as int, px, py),
                        Color { a: 127, r: 0, g: 0, b: 0 },
                    )
                } else {
                    pixel(old(self).buffer@, final(self).width as int, px, py)
                },
    {
        let banner = Location4::new(0, 240, self.window_w, 100);
        assert(banner == banner_rect());
        self.draw_square(banner, Color::new(127, 0, 0, 0));
    }

    /// The pixel at `(x, y)`, for inspection.
    pub fn pixel_at(&self, x: usize, y: usize) -> (c: Color)
        requires
            self.wf(),
            x < self.width,
            y < self.height,
        ensures
            c == pixel(self.buffer@, self.width as int, x as int, y as int),
    {
        assert(y * self.width + x < self.width * self.height) by (nonlinear_arith)
            requires
                y < self.height,
                x < self.width,
                0 <= x,
                0 <= y,
        ;
        let idx: usize = y * self.width + x;
        self.buffer[idx]
    }
}

/// Whether the rectangle's horizontal extent covers column `px`.
pub open spec fn covers_x(r: Location4, px: int) -> bool {
    r.x <= px < r.x + r.w
}

/// Whether the rectangle's vertical extent covers row `py`.
pub open spec fn covers_y(r: Location4, py: int) -> bool {
    r.y <= py < r.y + r.h
}

/// The warning banner's bounds: a 100-pixel bar across the lower half of the
/// fixed-size window.
pub open spec fn banner_rect() -> Location4 {
    Location4 { x: 0, y: (HEIGHT / 2) as i32, w: WIDTH, h: 100 }
}

/// Floor division by eight, as the visibility guard applies it to a widget
/// height.
fn eighth_exec(h: i32) -> (e: i32)
    ensures
        e == h as int / 8,
{
    if h >= 0 {
        ((h as u32) / 8) as i32
    } else {
        let m: u64 = (-(h as i64)) as u64;
        let q: u64 = (m + 7) / 8;
        proof {
            vstd::arithmetic::div_mod::lemma_div_is_ordered(
                m as int + 7,
                0x8000_0007,
                8,
            );
            assert(q <= 0x1000_0000);
            lemma_neg_floor_div8(h as int, q as int);
        }
        (-(q as i64)) as i32
    }
}

/// For a negative `h`, rounding the magnitude up to the next multiple of
/// eight and negating gives the floor of `h / 8`.
proof fn lemma_neg_floor_div8(h: int, q: int)
    requires
        h < 0,
        q == (7 - h) / 8,
    ensures
        -q == h / 8,
{
    let m: int = 7 - h;
    vstd::arithmetic::div_mod::lemma_fundamental_div_mod(m, 8);
    let r2: int = m % 8;
    assert(h == (-q) * 8 + (7 - r2)) by (nonlinear_arith)
        requires
            m == 8 * q + r2,
            h == 7 - m,
    ;
    vstd::arithmetic::div_mod::lemma_fundamental_div_mod_converse_div(h, 8, -q, 7 - r2);
}

} // verus!
