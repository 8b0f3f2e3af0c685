//! The frame scheduler's bookkeeping and per-frame widget passes: the
//! debounce gate that turns the held mouse button into discrete clicks, the
//! unbounded scroll accumulator, the row layout of the release list, the
//! choice between loading message, error message and version rows, the
//! action-row buttons, and the cosmetic scrollbar.

use vstd::prelude::*;
use vstd::string::StringExecFns;
use crate::canvas::{blend, covers, next_count, pixel, Drawing};
use crate::geometry::{rects_overlap, Color, Location2, Location4};
use crate::release::{is_first_unstable, first_unstable_index, Release};

verus! {

/// Per-frame mutable scheduler state: the frame counter, the click-debounce
/// gate, and the scroll offset. These persist across frames while each
/// canvas is rebuilt from scratch.
pub struct FrameCtx {
    /// Displayed frames so far; the first displayed frame samples input with
    /// this counter already at one.
    pub frames: u64,
    /// While set, pointer-down events are not registered as clicks.
    pub cooldown: bool,
    /// The scroll offset the wheel accumulates into; unbounded either way.
    pub offset: i32,
}

/// The scroll offset after one wheel movement: the delta scaled by a fixed
/// factor of four, added on. No clamping in either direction.
pub open spec fn scrolled(offset: int, delta: int) -> int {
    offset + delta * 4
}

/// Scrolling is pure accumulation: a wheel movement and its exact opposite
/// cancel, returning the offset to where it began.
pub proof fn lemma_scroll_round_trip(offset: int, delta: int)
    ensures
        scrolled(scrolled(offset, delta), -delta) == offset,
{
}

impl FrameCtx {
    /// The state before the first frame.
    pub fn new() -> (ctx: FrameCtx)
        ensures
            ctx.frames == 0,
            !ctx.cooldown,
            ctx.offset == 0,
    {
        FrameCtx { frames: 0, cooldown: false, offset: 0 }
    }

    /// A new frame begins: the counter ticks before input is sampled.
    pub fn begin_frame(&mut self)
        requires
            old(self).frames < 0xffff_ffff_ffff_ffff,
        ensures
            *final(self) == (FrameCtx { frames: (old(self).frames + 1) as u64, ..*old(self) }),
    {
        self.frames = self.frames + 1;
    }

    /// The debounce step, run once per frame while the pointer position is
    /// known: a pointer-down counts as a click only while the cooldown flag
    /// is off, and a click switches it on; afterwards every third frame
    /// switches it off again, whether or not the button was released. A held
    /// button therefore re-fires about every three frames. Only a counted
    /// click records the pointer position on the canvas.
    pub fn sample_input(
        &mut self,
        canvas: &mut Drawing,
        mouse_x: i32,
        mouse_y: i32,
        button_down: bool,
    ) -> (clicked: bool)
        ensures
            clicked == (button_down && !old(self).cooldown),
            final(self).cooldown == if old(self).frames % 3 == 0 {
                false
            } else {
                old(self).cooldown || clicked
            },
            final(self).frames == old(self).frames,
            final(self).offset == old(self).offset,
            clicked ==> *final(canvas) == (Drawing {
                mouse_x,
                mouse_y,
                ..*old(canvas)
            }),
            !clicked ==> *final(canvas) == *old(canvas),
    {
        let clicked: bool = button_down && !self.cooldown;
        if clicked {
            canvas.process_mouse(mouse_x, mouse_y);
            self.cooldown = true;
        }
        if self.frames % 3 == 0 {
            self.cooldown = false;
        }
        clicked
    }

    /// Accumulates one wheel movement into the scroll offset. There is no
    /// clamping to the list extent: the offset can run past either end.
    pub fn apply_scroll(&mut self, delta: i32)
        requires
            -0x8000_0000 <= scrolled(old(self).offset as int, delta as int) <= 0x7fff_ffff,
        ensures
            *final(self) == (FrameCtx {
                offset: scrolled(old(self).offset as int, delta as int) as i32,
                ..*old(self)
            }),
    {
        let next: i64 = (self.offset as i64) + (delta as i64) * 4;
        self.offset = next as i32;
    }
}

/// What the list body shows this frame.
#[derive(Clone, Copy, PartialEq, Eq, Structural, Debug)]
pub enum ListBody {
    /// No releases yet and no error: the loading message.
    Loading,
    /// No releases and a fetch failed: the error message with a retry button.
    LoadError,
    /// Releases are present: one row per release.
    VersionRows,
}

/// The list body decision: an empty list shows the loading message, unless a
/// fetch failure was recorded, which shows the error message instead; any
/// releases at all show the version rows.
pub open spec fn list_body_of(release_count: int, load_error: bool) -> ListBody {
    if release_count <= 0 {
        if load_error {
            ListBody::LoadError
        } else {
            ListBody::Loading
        }
    } else {
        ListBody::VersionRows
    }
}

/// Decides what the list body shows from this frame's snapshot of the
/// shared state.
pub fn list_body(release_count: usize, load_error: bool) -> (body: ListBody)
    ensures
        body == list_body_of(release_count as int, load_error),
{
    if release_count == 0 {
        if load_error {
            ListBody::LoadError
        } else {
            ListBody::Loading
        }
    } else {
        ListBody::VersionRows
    }
}

/// Where row `index` of the release list sits: rows are 27 pixels apart,
/// shifted as a whole by the scroll offset.
pub open spec fn row_y(index: int, offset: int) -> int {
    27 * index + offset
}

/// The badge rectangle of row `index` under the given scroll offset.
pub fn version_row_rect(index: usize, offset: i32) -> (r: Location4)
    requires
        row_y(index as int, offset as int) <= 0x7fff_ffff,
    ensures
        r == (Location4 { x: 5, y: row_y(index as int, offset as int) as i32, w: 200, h: 25 }),
{
    let y: i64 = 27 * (index as i64) + (offset as i64);
    Location4::new(5, y as i32, 200, 25)
}

/// The install button sits 200 pixels right of its row's badge.
pub fn install_button_rect(base: Location4) -> (r: Location4)
    requires
        base.x + 200 <= 0x7fff_ffff,
    ensures
        r == (Location4 { x: (base.x + 200) as i32, y: base.y, w: 50, h: 25 }),
{
    Location4::new(base.x + 200, base.y, 50, 25)
}

/// The delete button sits 250 pixels right of its row's badge.
pub fn delete_button_rect(base: Location4) -> (r: Location4)
    requires
        base.x + 250 <= 0x7fff_ffff,
    ensures
        r == (Location4 { x: (base.x + 250) as i32, y: base.y, w: 50, h: 25 }),
{
    Location4::new(base.x + 250, base.y, 50, 25)
}

/// Whether row `index` passes the widget visibility guard under the given
/// scroll offset. All three of a row's buttons are 25 pixels high and end
/// well within the window's width, so one condition covers badge, install
/// and delete alike: the row's top edge must sit above `477` (the window
/// height less an eighth of the row height) and its bottom edge below the
/// top of the window.
pub open spec fn row_visible(index: int, offset: int) -> bool {
    -25 < row_y(index, offset) < 477
}

/// How many of the first `len` rows the visibility guard lets draw.
pub open spec fn visible_row_count(len: int, offset: int) -> int
    decreases len,
{
    if len <= 0 {
        0
    } else {
        visible_row_count(len - 1, offset) + if row_visible(len - 1, offset) {
            1int
        } else {
            0int
        }
    }
}

/// Division truncating toward zero, the shape the scrollbar arithmetic
/// takes; the divisor is positive.
pub open spec fn div_trunc(a: int, b: int) -> int {
    if a >= 0 {
        a / b
    } else {
        -((-a) / b)
    }
}

/// Remainder of truncating division: it carries the dividend's sign and its
/// magnitude stays below the divisor.
pub open spec fn rem_trunc(a: int, b: int) -> int {
    a - b * div_trunc(a, b)
}

/// The scrollbar indicator's vertical position: the offset, negated and
/// scaled down by six, wrapped at the window height.
pub open spec fn scrollbar_y(offset: int) -> int {
    rem_trunc(div_trunc(-offset, 6), 480)
}

/// The scrollbar rectangle for a frame whose list layout ended at `idx`:
/// a thin strip at the list panel's right edge whose height scales with the
/// list extent. Cosmetic only; it is not interactive.
pub open spec fn scrollbar_rect_spec(offset: int, idx: int) -> Location4 {
    Location4 { x: 300, y: scrollbar_y(offset) as i32, w: 4, h: div_trunc(idx, 8) as i32 }
}

/// Truncating division by a positive divisor, executably.
fn div_trunc_exec(a: i64, b: i64) -> (q: i64)
    requires
        b > 0,
        a > -0x8000_0000_0000_0000,
    ensures
        q == div_trunc(a as int, b as int),
        a >= 0 ==> 0 <= q <= a,
        a < 0 ==> a <= q <= 0,
{
    if a >= 0 {
        let q: u64 = (a as u64) / (b as u64);
        proof {
            vstd::arithmetic::div_mod::lemma_div_is_ordered_by_denominator(a as int, 1, b as int);
        }
        q as i64
    } else {
        let m: u64 = (-a) as u64;
        let q: u64 = m / (b as u64);
        proof {
            vstd::arithmetic::div_mod::lemma_div_is_ordered_by_denominator(m as int, 1, b as int);
        }
        -(q as i64)
    }
}

/// Truncating remainder by a positive divisor, executably.
fn rem_trunc_exec(a: i64, b: i64) -> (r: i64)
    requires
        b > 0,
        a > -0x8000_0000_0000_0000,
    ensures
        r == rem_trunc(a as int, b as int),
        -b < r < b,
{
    if a >= 0 {
        let r: u64 = (a as u64) % (b as u64);
        proof {
            vstd::arithmetic::div_mod::lemma_fundamental_div_mod(a as int, b as int);
        }
        r as i64
    } else {
        let m: u64 = (-a) as u64;
        let r: u64 = m % (b as u64);
        proof {
            let mi: int = m as int;
            let bi: int = b as int;
            vstd::arithmetic::div_mod::lemma_fundamental_div_mod(mi, bi);
            assert(bi * (-(mi / bi)) == -(bi * (mi / bi))) by (nonlinear_arith);
        }
        -(r as i64)
    }
}

/// The scrollbar rectangle, executably.
pub fn scrollbar_rect(offset: i32, idx: i32) -> (r: Location4)
    ensures
        r == scrollbar_rect_spec(offset as int, idx as int),
{
    let neg: i64 = -(offset as i64);
    let q: i64 = div_trunc_exec(neg, 6);
    let y: i64 = rem_trunc_exec(q, 480);
    let h: i64 = div_trunc_exec(idx as i64, 8);
    Location4::new(300, y as i32, 4, h as i32)
}

/// Draws the scrollbar for a frame whose list layout ended at `idx`.
pub fn draw_scrollbar(d: &mut Drawing, offset: i32, idx: i32)
    requires
        old(d).wf(),
    ensures
        final(d).wf(),
        final(d).same_frame_state(old(d)),
        final(d).texts@ == old(d).texts@,
        final(d).count == next_count(old(d).count),
        final(d).buffer@.len() == old(d).buffer@.len(),
        forall|px: int, py: int|
            0 <= px < final(d).width && 0 <= py < final(d).height ==> #[trigger] pixel(
                final(d).buffer@,
                final(d).width as int,
                px,
                py,
            ) == if covers(scrollbar_rect_spec(offset as int, idx as int), px, py) {
                blend(
                    pixel(old(d).buffer@, final(d).width as int, px, py),
                    Color { a: 255, r: 110, g: 110, b: 110 },
                )
            } else {
                pixel(old(d).buffer@, final(d).width as int, px, py)
            },
{
    let r = scrollbar_rect(offset, idx);
    d.draw_square(r, Color::new(255, 110, 110, 110));
}

/// Two entries of the release list cannot both be the first non-stable one.
pub proof fn lemma_first_unstable_unique(s: Seq<Release>, i: int, j: int)
    requires
        is_first_unstable(s, i),
        is_first_unstable(s, j),
    ensures
        i == j,
{
    if i < j {
        assert(s[i].stable);
    } else if j < i {
        assert(s[j].stable);
    }
}

/// The action row's play buttons: the "PLAY:" heading, then — once any
/// releases are loaded — a "last version" button showing the first entry's
/// tag, and a "last bleeding edge" button showing the first non-stable
/// entry's tag, in list order, however many stable entries follow it.
pub fn draw_play_buttons(d: &mut Drawing, releases: &Vec<Release>)
    requires
        old(d).wf(),
    ensures
        final(d).wf(),
        final(d).same_frame_state(old(d)),
        final(d).buffer@.len() == old(d).buffer@.len(),
        final(d).texts@.len() > old(d).texts@.len(),
        forall|k: int| 0 <= k < old(d).texts@.len() ==> final(d).texts@[k] == old(d).texts@[k],
        final(d).texts@[old(d).texts@.len() as int].text@ == "PLAY:"@,
        final(d).texts@[old(d).texts@.len() as int].location == (Location2 { x: 320, y: 15 }),
        releases@.len() == 0 ==> {
            &&& final(d).texts@.len() == old(d).texts@.len() + 1
            &&& final(d).buffer@ == old(d).buffer@
            &&& final(d).count == next_count(old(d).count)
        },
        releases@.len() > 0 ==> {
            &&& final(d).texts@[old(d).texts@.len() as int + 1].text@ == "last version "@
                + releases@[0].tag_name@
            &&& final(d).texts@[old(d).texts@.len() as int + 1].location == (Location2 { x: 320, y: 36 })
        },
        (releases@.len() > 0 && (exists|i: int| is_first_unstable(releases@, i))) ==> {
            &&& final(d).texts@.len() == old(d).texts@.len() + 3
            &&& (forall|i: int|
                is_first_unstable(releases@, i) ==> final(d).texts@[old(d).texts@.len() as int + 2].text@
                    == "last bleeding edge "@ + releases@[i].tag_name@)
            &&& (forall|i: int|
                is_first_unstable(releases@, i) ==> final(d).texts@[old(d).texts@.len() as int + 2].location
                    == (Location2 { x: 320, y: 71 }))
        },
        (releases@.len() > 0 && !(exists|i: int| is_first_unstable(releases@, i)))
            ==> final(d).texts@.len() == old(d).texts@.len() + 2,
{
    d.draw_text("PLAY:", Location2::new(320, 15), Color::new(255, 255, 255, 255), 150);
    if releases.len() > 0 {
        let first: &Release = &releases[0];
        let label: String = "last version ".to_owned().concat(first.tag_name.as_str());
        assert(d.button_visible(Location4 { x: 320, y: 20, w: 200, h: 32 }));
        d.draw_button(
            label.as_str(),
            Location4::new(320, 20, 200, 32),
            Color::new(255, 100, 120, 100),
        );
        match first_unstable_index(releases) {
            Some(i) => {
                let entry: &Release = &releases[i];
                let label2: String = "last bleeding edge ".to_owned().concat(
                    entry.tag_name.as_str(),
                );
                assert(d.button_visible(Location4 { x: 320, y: 55, w: 200, h: 32 }));
                d.draw_button(
                    label2.as_str(),
                    Location4::new(320, 55, 200, 32),
                    Color::new(255, 120, 100, 100),
                );
                proof {
                    assert forall|j: int| is_first_unstable(releases@, j) implies j == i as int by {
                        lemma_first_unstable_unique(releases@, i as int, j);
                    }
                }
            },
            None => {
            },
        }
    }
}

/// The reload button's bounds.
pub open spec fn reload_rect() -> Location4 {
    Location4 { x: 310, y: 450, w: 50, h: 24 }
}

/// The settings-path button's bounds.
pub open spec fn path_rect() -> Location4 {
    Location4 { x: 365, y: 450, w: 460, h: 24 }
}

/// The retry button's bounds, shown with the load-error message.
pub open spec fn retry_rect() -> Location4 {
    Location4 { x: 25, y: 260, w: 60, h: 24 }
}

/// The list panel's background rectangle.
pub open spec fn listbox_rect() -> Location4 {
    Location4 { x: 5, y: 0, w: 300, h: 480 }
}

/// The 1-by-1 probe rectangle at the pointer position the canvas has
/// registered: the overlap of a widget's bounds with this probe is its hit
/// state.
pub open spec fn mouse_probe(d: Drawing) -> Location4 {
    Location4 { x: d.mouse_x, y: d.mouse_y, w: 1, h: 1 }
}

/// The utility row: the reload button, the caption inviting the user to
/// change the installation location, and a wide button showing the
/// persisted installation path. Returns the reload button's and the path
/// button's hit states.
pub fn draw_utils_row(d: &mut Drawing, install_path: &str) -> (hits: (bool, bool))
    requires
        old(d).wf(),
    ensures
        final(d).wf(),
        final(d).same_frame_state(old(d)),
        final(d).buffer@.len() == old(d).buffer@.len(),
        hits.0 == rects_overlap(reload_rect(), mouse_probe(*old(d))),
        hits.1 == rects_overlap(path_rect(), mouse_probe(*old(d))),
        final(d).texts@.len() == old(d).texts@.len() + 3,
        forall|k: int| 0 <= k < old(d).texts@.len() ==> final(d).texts@[k] == old(d).texts@[k],
        final(d).texts@[old(d).texts@.len() as int].text@ == "Reload"@,
        final(d).texts@[old(d).texts@.len() as int + 1].text@
            == "Click here to change Mindustry installation location: "@,
        final(d).texts@[old(d).texts@.len() as int + 2].text@ == install_path@,
        final(d).count == next_count(next_count(next_count(next_count(next_count(old(d).count))))),
        forall|px: int, py: int|
            0 <= px < final(d).width && 0 <= py < final(d).height ==> #[trigger] pixel(
                final(d).buffer@,
                final(d).width as int,
                px,
                py,
            ) == if covers(reload_rect(), px, py) {
                blend(
                    pixel(old(d).buffer@, final(d).width as int, px, py),
                    Color { a: 255, r: 100, g: 110, b: 100 },
                )
            } else if covers(path_rect(), px, py) {
                blend(
                    pixel(old(d).buffer@, final(d).width as int, px, py),
                    Color { a: 255, r: 100, g: 100, b: 100 },
                )
            } else {
                pixel(old(d).buffer@, final(d).width as int, px, py)
            },
{
    assert(d.button_visible(reload_rect()));
    let reload: bool = d.draw_button(
        "Reload",
        Location4::new(310, 450, 50, 24),
        Color::new(255, 100, 110, 100),
    );
    d.draw_text(
        "Click here to change Mindustry installation location: ",
        Location2::new(365, 440),
        Color::new(255, 255, 255, 255),
        150,
    );
    assert(d.button_visible(path_rect()));
    let path: bool = d.draw_button(
        install_path,
        Location4::new(365, 450, 460, 24),
        Color::new(255, 100, 100, 100),
    );
    (reload, path)
}

/// The list body: with no releases yet, the loading message, or — after a
/// failed fetch — the error message and a retry button whose hit state is
/// returned; otherwise one row per release, each a badge with the release's
/// name and tag beside an install and a delete button, rows 27 pixels apart
/// shifted by the scroll offset. Returns the final layout cursor (used by
/// the scrollbar) and whether the retry button was hit.
pub fn draw_version_list(
    d: &mut Drawing,
    releases: &Vec<Release>,
    load_error: bool,
    offset: i32,
) -> (res: (i32, bool))
    requires
        old(d).wf(),
        27 * releases@.len() <= 0x7fff_ffff,
        releases@.len() > 0 ==> row_y(releases@.len() - 1, offset as int) <= 0x7fff_ffff,
    ensures
        final(d).wf(),
        final(d).same_frame_state(old(d)),
        final(d).buffer@.len() == old(d).buffer@.len(),
        res.0 == 27 * releases@.len() - 27,
        forall|k: int| 0 <= k < old(d).texts@.len() ==> final(d).texts@[k] == old(d).texts@[k],
        list_body_of(releases@.len() as int, load_error) == ListBody::Loading ==> {
            &&& final(d).texts@.len() == old(d).texts@.len() + 1
            &&& final(d).texts@.last().text@ == "Loading versions..."@
            &&& final(d).texts@.last().location == (Location2 { x: 75, y: 240 })
            &&& final(d).buffer@ == old(d).buffer@
            &&& final(d).count == next_count(old(d).count)
            &&& !res.1
        },
        list_body_of(releases@.len() as int, load_error) == ListBody::LoadError ==> {
            &&& final(d).texts@.len() == old(d).texts@.len() + 2
            &&& final(d).texts@[old(d).texts@.len() as int].text@
                == "Version loading ERROR please try later"@
            &&& final(d).texts@[old(d).texts@.len() as int].location == (Location2 {
                x: 15,
                y: 240,
            })
            &&& final(d).texts@.last().text@ == "Try again"@
            &&& res.1 == rects_overlap(
                Location4 { x: 25, y: 260, w: 60, h: 24 },
                Location4 { x: old(d).mouse_x, y: old(d).mouse_y, w: 1, h: 1 },
            )
        },
        list_body_of(releases@.len() as int, load_error) == ListBody::VersionRows ==> {
            &&& !res.1
            &&& final(d).texts@.len() == old(d).texts@.len() + 3 * visible_row_count(
                releases@.len() as int,
                offset as int,
            )
        },
{
    let ghost orig = *old(d);
    if releases.len() == 0 {
        if load_error {
            d.draw_text(
                "Version loading ERROR please try later",
                Location2::new(15, 240),
                Color::new(255, 255, 0, 0),
                140,
            );
            assert(d.button_visible(Location4 { x: 25, y: 260, w: 60, h: 24 }));
            let retry: bool = d.draw_button(
                "Try again",
                Location4::new(25, 260, 60, 24),
                Color::new(255, 100, 120, 100),
            );
            (-27, retry)
        } else {
            d.draw_text(
                "Loading versions...",
                Location2::new(75, 240),
                Color::new(255, 255, 255, 255),
                150,
            );
            (-27, false)
        }
    } else {
        let mut idx: i32 = -27;
        let mut k: usize = 0;
        while k < releases.len()
            invariant
                d.wf(),
                d.same_frame_state(&orig),
                d.buffer@.len() == orig.buffer@.len(),
                k <= releases@.len(),
                27 * releases@.len() <= 0x7fff_ffff,
                releases@.len() > 0 ==> row_y(releases@.len() - 1, offset as int) <= 0x7fff_ffff,
                idx == 27 * k - 27,
                orig.texts@.len() <= d.texts@.len(),
                d.texts@.len() == orig.texts@.len() + 3 * visible_row_count(
                    k as int,
                    offset as int,
                ),
                forall|t: int| 0 <= t < orig.texts@.len() ==> d.texts@[t] == orig.texts@[t],
            decreases releases@.len() - k,
        {
            let release: &Release = &releases[k];
            let color: Color = if release.stable {
                Color::new(255, 110, 110, 110)
            } else {
                Color::new(255, 180, 110, 110)
            };
            proof {
                assert(27 * (k as int) <= 27 * (releases@.len() - 1)) by (nonlinear_arith)
                    requires
                        k < releases@.len(),
                ;
            }
            let base: Location4 = version_row_rect(k, offset);
            let label: String = release.name.clone().concat(" - ").concat(
                release.tag_name.as_str(),
            );
            proof {
                assert(d.button_visible(base) == row_visible(k as int, offset as int));
            }
            d.draw_button(label.as_str(), base, color);
            let install: Location4 = install_button_rect(base);
            proof {
                assert(d.button_visible(install) == row_visible(k as int, offset as int));
            }
            d.draw_button("INSTALL", install, Color::new(255, 110, 110, 200));
            let del: Location4 = delete_button_rect(base);
            proof {
                assert(d.button_visible(del) == row_visible(k as int, offset as int));
            }
            d.draw_button("DELETE", del, Color::new(255, 200, 110, 200));
            proof {
                assert(visible_row_count(k as int + 1, offset as int) == visible_row_count(
                    k as int,
                    offset as int,
                ) + if row_visible(k as int, offset as int) {
                    1int
                } else {
                    0int
                });
            }
            idx = idx + 27;
            k = k + 1;
        }
        (idx, false)
    }
}

/// The hit states one rendered frame reports back to the scheduler, and the
/// layout cursor the scrollbar was drawn from.
pub struct FrameHits {
    /// The reload button was hit by the registered pointer position.
    pub reload: bool,
    /// The settings-path button was hit.
    pub path: bool,
    /// The retry button was shown (load error, empty list) and was hit.
    pub retry: bool,
    /// Where the list layout ended: 27 per row, minus the initial 27.
    pub last_idx: i32,
}

/// One frame's whole widget pass, in draw order: the list panel background,
/// the play buttons, the utility row, the list body, and the scrollbar.
/// Input sampling comes before this and the diagnostics overlay and
/// presentation after it. The hit states are level signals against the
/// pointer position the canvas has registered; the caller's debounce gate
/// decides whether they act.
pub fn render_frame(
    d: &mut Drawing,
    releases: &Vec<Release>,
    load_error: bool,
    offset: i32,
    install_path: &str,
) -> (hits: FrameHits)
    requires
        old(d).wf(),
        27 * releases@.len() <= 0x7fff_ffff,
        releases@.len() > 0 ==> row_y(releases@.len() - 1, offset as int) <= 0x7fff_ffff,
    ensures
        final(d).wf(),
        final(d).same_frame_state(old(d)),
        final(d).buffer@.len() == old(d).buffer@.len(),
        hits.reload == rects_overlap(reload_rect(), mouse_probe(*old(d))),
        hits.path == rects_overlap(path_rect(), mouse_probe(*old(d))),
        hits.retry == (list_body_of(releases@.len() as int, load_error) == ListBody::LoadError
            && rects_overlap(retry_rect(), mouse_probe(*old(d)))),
        hits.last_idx == 27 * releases@.len() - 27,
{
    d.draw_square(Location4::new(5, 0, 300, 480), Color::new(255, 50, 50, 50));
    draw_play_buttons(d, releases);
    let (reload, path) = draw_utils_row(d, install_path);
    let (last_idx, retry) = draw_version_list(d, releases, load_error, offset);
    draw_scrollbar(d, offset, last_idx);
    FrameHits { reload, path, retry, last_idx }
}

} // verus!
