use mindlaunch::canvas::Drawing;
use mindlaunch::geometry::{Color, Location2, Location4};

fn bg() -> Color {
    Color { a: 255, r: 25, g: 25, b: 25 }
}

#[test]
fn new_canvas_is_cleared_to_background() {
    let d = Drawing::new(8, 6);
    assert_eq!(d.width, 8);
    assert_eq!(d.height, 6);
    assert_eq!(d.buffer.len(), 48);
    assert_eq!(d.count, 0);
    assert_eq!(d.texts.len(), 0);
    for c in &d.buffer {
        assert_eq!(*c, bg());
    }
}

#[test]
fn fill_covers_exactly_the_rectangle() {
    let mut d = Drawing::new(10, 10);
    let red = Color::new(255, 200, 0, 0);
    d.draw_square(Location4::new(2, 3, 4, 2), red);
    for y in 0..10usize {
        for x in 0..10usize {
            let expect = if (2..6).contains(&x) && (3..5).contains(&y) { red } else { bg() };
            assert_eq!(d.pixel_at(x, y), expect, "pixel ({x},{y})");
        }
    }
    assert_eq!(d.count, 1);
}

#[test]
fn fill_clips_to_the_buffer() {
    let mut d = Drawing::new(10, 10);
    let c = Color::new(255, 1, 2, 3);
    d.draw_square(Location4::new(-5, -5, 10, 10), c);
    assert_eq!(d.pixel_at(0, 0), c);
    assert_eq!(d.pixel_at(4, 4), c);
    assert_eq!(d.pixel_at(5, 5), bg());
    d.draw_square(Location4::new(8, 8, 100, 100), c);
    assert_eq!(d.pixel_at(9, 9), c);
    assert_eq!(d.pixel_at(7, 7), bg());
}

#[test]
fn degenerate_rectangle_draws_nothing() {
    let mut d = Drawing::new(10, 10);
    d.draw_square(Location4::new(3, 3, 0, 5), Color::new(255, 9, 9, 9));
    d.draw_square(Location4::new(3, 3, -4, 5), Color::new(255, 9, 9, 9));
    for y in 0..10usize {
        for x in 0..10usize {
            assert_eq!(d.pixel_at(x, y), bg());
        }
    }
    // Degenerate fills still count as draw calls.
    assert_eq!(d.count, 2);
}

#[test]
fn opaque_fill_replaces_translucent_fill_blends() {
    let mut d = Drawing::new(4, 4);
    let opaque = Color::new(255, 200, 100, 50);
    d.draw_square(Location4::new(0, 0, 4, 4), opaque);
    assert_eq!(d.pixel_at(1, 1), opaque);
    // alpha 127 over (200, 100, 50):
    // r = (0*127 + 200*128) / 255 = 100; g = 50; b = 25
    d.draw_square(Location4::new(0, 0, 4, 4), Color::new(127, 0, 0, 0));
    assert_eq!(d.pixel_at(1, 1), Color::new(255, 100, 50, 25));
}

#[test]
fn warn_banner_darkens_the_lower_band() {
    let mut d = Drawing::new(854, 480);
    d.draw_warn("ignored text");
    // alpha 127 of black over the (25, 25, 25) background:
    // each channel (0*127 + 25*128) / 255 = 12
    let shaded = Color::new(255, 12, 12, 12);
    assert_eq!(d.pixel_at(0, 240), shaded);
    assert_eq!(d.pixel_at(853, 339), shaded);
    assert_eq!(d.pixel_at(0, 239), bg());
    assert_eq!(d.pixel_at(0, 340), bg());
    // The banner text is intentionally not rendered.
    assert_eq!(d.texts.len(), 0);
    assert_eq!(d.count, 1);
}

#[test]
fn draw_text_records_the_run() {
    let mut d = Drawing::new(10, 10);
    d.draw_text("hello", Location2::new(3, 4), Color::new(255, 0, 0, 255), 120);
    assert_eq!(d.count, 1);
    assert_eq!(d.texts.len(), 1);
    assert_eq!(d.texts[0].text, "hello");
    assert_eq!(d.texts[0].location, Location2::new(3, 4));
    assert_eq!(d.texts[0].color, Color::new(255, 0, 0, 255));
    assert_eq!(d.texts[0].size_tenths, 120);
    // The buffer is untouched by a recorded text run.
    assert_eq!(d.pixel_at(3, 4), bg());
}

#[test]
fn button_reports_hit_inside_bounds() {
    let mut d = Drawing::new(854, 480);
    d.process_mouse(5, 5);
    assert!(d.draw_button("b", Location4::new(0, 0, 10, 10), Color::new(255, 9, 9, 9)));
}

#[test]
fn button_reports_miss_outside_bounds() {
    let mut d = Drawing::new(854, 480);
    d.process_mouse(15, 15);
    assert!(!d.draw_button("b", Location4::new(0, 0, 10, 10), Color::new(255, 9, 9, 9)));
}

#[test]
fn button_draws_square_and_label_when_visible() {
    let mut d = Drawing::new(854, 480);
    let c = Color::new(255, 100, 120, 100);
    let hit = d.draw_button("label", Location4::new(20, 30, 40, 16), c);
    assert!(!hit);
    assert_eq!(d.count, 2);
    assert_eq!(d.pixel_at(20, 30), c);
    assert_eq!(d.pixel_at(59, 45), c);
    assert_eq!(d.pixel_at(60, 30), bg());
    assert_eq!(d.texts.len(), 1);
    assert_eq!(d.texts[0].text, "label");
    assert_eq!(d.texts[0].location, Location2::new(20, 46));
    assert_eq!(d.texts[0].color, Color::new(255, 0, 0, 0));
    assert_eq!(d.texts[0].size_tenths, 125);
}

#[test]
fn offscreen_button_is_skipped_but_still_hit_tested() {
    let mut d = Drawing::new(854, 480);
    d.process_mouse(905, 10);
    // Right edge past the logical window width: the draw is skipped.
    let hit = d.draw_button("b", Location4::new(900, 0, 20, 20), Color::new(255, 9, 9, 9));
    assert!(hit);
    assert_eq!(d.count, 0);
    assert_eq!(d.texts.len(), 0);
}

#[test]
fn visibility_guard_is_asymmetric_about_the_bottom_edge() {
    // The guard checks y + h/8 against the window height, not y + h: a tall
    // button whose bottom is far off-screen still draws while y + h/8 fits.
    let mut d = Drawing::new(854, 480);
    d.draw_button("b", Location4::new(10, 470, 20, 64), Color::new(255, 9, 9, 9));
    assert_eq!(d.count, 2); // 470 + 64/8 == 478 < 480: drawn
    let mut d2 = Drawing::new(854, 480);
    d2.draw_button("b", Location4::new(10, 476, 20, 64), Color::new(255, 9, 9, 9));
    assert_eq!(d2.count, 0); // 476 + 8 == 484 >= 480: skipped
}

#[test]
fn check_click_matches_overlap_test() {
    let d = Drawing::new(10, 10);
    assert!(d.check_click(0, 0, 10, 10, 5, 5, 1, 1));
    assert!(!d.check_click(0, 0, 10, 10, 15, 15, 1, 1));
    assert!(!d.check_click(0, 0, 10, 10, 10, 10, 1, 1));
}

#[test]
fn draw_call_counter_counts_every_primitive() {
    let mut d = Drawing::new(50, 50);
    d.draw_square(Location4::new(0, 0, 5, 5), Color::new(255, 1, 1, 1));
    d.draw_text("t", Location2::new(0, 0), Color::new(255, 1, 1, 1), 100);
    d.draw_warn("w");
    assert_eq!(d.count, 3);
}
