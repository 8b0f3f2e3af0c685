use mindlaunch::canvas::Drawing;
use mindlaunch::frame::{
    delete_button_rect, draw_play_buttons, draw_utils_row, draw_version_list, install_button_rect,
    list_body, render_frame, scrollbar_rect, version_row_rect, FrameCtx, ListBody,
};
use mindlaunch::geometry::{Color, Location4};
use mindlaunch::release::Release;

fn release(tag: &str, stable: bool) -> Release {
    Release {
        name: format!("name-{tag}"),
        tag_name: tag.to_string(),
        download_url: format!("https://example.invalid/{tag}"),
        installed: false,
        stable,
    }
}

fn bg() -> Color {
    Color { a: 255, r: 25, g: 25, b: 25 }
}

#[test]
fn debounce_fires_on_frames_one_and_four() {
    // A held button across five frames with the 3-frame clear cadence fires
    // exactly twice, on frame counters 1 and 4.
    let mut ctx = FrameCtx::new();
    let mut canvas = Drawing::new(854, 480);
    let mut fired: Vec<u64> = Vec::new();
    for _ in 0..5 {
        ctx.begin_frame();
        if ctx.sample_input(&mut canvas, 100, 100, true) {
            fired.push(ctx.frames);
        }
    }
    assert_eq!(fired, vec![1, 4]);
}

#[test]
fn debounce_does_not_fire_while_button_is_up() {
    let mut ctx = FrameCtx::new();
    let mut canvas = Drawing::new(854, 480);
    for _ in 0..6 {
        ctx.begin_frame();
        assert!(!ctx.sample_input(&mut canvas, 1, 1, false));
    }
}

#[test]
fn only_a_registered_click_moves_the_pointer() {
    let mut ctx = FrameCtx::new();
    let mut canvas = Drawing::new(854, 480);
    ctx.begin_frame();
    assert!(ctx.sample_input(&mut canvas, 42, 43, true));
    assert_eq!((canvas.mouse_x, canvas.mouse_y), (42, 43));
    ctx.begin_frame();
    // Gate closed: the position is not re-registered.
    assert!(!ctx.sample_input(&mut canvas, 7, 8, true));
    assert_eq!((canvas.mouse_x, canvas.mouse_y), (42, 43));
}

#[test]
fn scroll_round_trips_without_clamping() {
    let mut ctx = FrameCtx::new();
    ctx.apply_scroll(-1000);
    assert_eq!(ctx.offset, -4000);
    ctx.apply_scroll(1000);
    assert_eq!(ctx.offset, 0);
}

#[test]
fn scroll_runs_past_the_list_extent() {
    let mut ctx = FrameCtx::new();
    for _ in 0..100 {
        ctx.apply_scroll(-50);
    }
    assert_eq!(ctx.offset, -20000);
    for _ in 0..100 {
        ctx.apply_scroll(50);
    }
    assert_eq!(ctx.offset, 0);
}

#[test]
fn list_body_decision_table() {
    assert_eq!(list_body(0, false), ListBody::Loading);
    assert_eq!(list_body(0, true), ListBody::LoadError);
    assert_eq!(list_body(3, false), ListBody::VersionRows);
    assert_eq!(list_body(3, true), ListBody::VersionRows);
}

#[test]
fn row_layout_accumulates_by_row_height_plus_offset() {
    assert_eq!(version_row_rect(0, 0), Location4::new(5, 0, 200, 25));
    assert_eq!(version_row_rect(3, 0), Location4::new(5, 81, 200, 25));
    assert_eq!(version_row_rect(3, -60), Location4::new(5, 21, 200, 25));
    let base = version_row_rect(1, 10);
    assert_eq!(base, Location4::new(5, 37, 200, 25));
    assert_eq!(install_button_rect(base), Location4::new(205, 37, 50, 25));
    assert_eq!(delete_button_rect(base), Location4::new(255, 37, 50, 25));
}

#[test]
fn scrollbar_follows_offset_and_extent() {
    assert_eq!(scrollbar_rect(0, -27), Location4::new(300, 0, 4, -3));
    assert_eq!(scrollbar_rect(-60, 81), Location4::new(300, 10, 4, 10));
    assert_eq!(scrollbar_rect(60, 81), Location4::new(300, -10, 4, 10));
    // The position wraps at the window height.
    assert_eq!(scrollbar_rect(-2880, 0), Location4::new(300, 0, 4, 0));
    assert_eq!(scrollbar_rect(-2886, 0), Location4::new(300, 1, 4, 0));
}

#[test]
fn empty_list_renders_loading_message_and_no_rows() {
    let mut d = Drawing::new(854, 480);
    let releases: Vec<Release> = Vec::new();
    let (last_idx, retry) = draw_version_list(&mut d, &releases, false, 0);
    assert_eq!(last_idx, -27);
    assert!(!retry);
    assert_eq!(d.texts.len(), 1);
    assert_eq!(d.texts[0].text, "Loading versions...");
    // Zero version rows: no pixel was touched.
    assert_eq!(d.pixel_at(5, 0), bg());
    assert_eq!(d.pixel_at(100, 100), bg());
    assert_eq!(d.count, 1);
}

#[test]
fn empty_list_with_error_renders_retry_button() {
    let mut d = Drawing::new(854, 480);
    d.process_mouse(30, 265); // inside the retry button
    let releases: Vec<Release> = Vec::new();
    let (last_idx, retry) = draw_version_list(&mut d, &releases, true, 0);
    assert_eq!(last_idx, -27);
    assert!(retry);
    assert_eq!(d.texts.len(), 2);
    assert_eq!(d.texts[0].text, "Version loading ERROR please try later");
    assert_eq!(d.texts[1].text, "Try again");
    // The retry button was filled.
    assert_eq!(d.pixel_at(25, 260), Color::new(255, 100, 120, 100));
}

#[test]
fn retry_not_hit_when_pointer_elsewhere() {
    let mut d = Drawing::new(854, 480);
    d.process_mouse(500, 5);
    let releases: Vec<Release> = Vec::new();
    let (_, retry) = draw_version_list(&mut d, &releases, true, 0);
    assert!(!retry);
}

#[test]
fn version_rows_draw_badges_and_action_buttons() {
    let mut d = Drawing::new(854, 480);
    let releases = vec![release("v1", true), release("v2", false)];
    let (last_idx, retry) = draw_version_list(&mut d, &releases, false, 0);
    assert_eq!(last_idx, 27);
    assert!(!retry);
    // Three buttons per row, each with a square and a label.
    assert_eq!(d.count, 12);
    assert_eq!(d.texts.len(), 6);
    assert_eq!(d.texts[0].text, "name-v1 - v1");
    assert_eq!(d.texts[1].text, "INSTALL");
    assert_eq!(d.texts[2].text, "DELETE");
    assert_eq!(d.texts[3].text, "name-v2 - v2");
    // Stable and unstable rows use different badge colors.
    assert_eq!(d.pixel_at(5, 0), Color::new(255, 110, 110, 110));
    assert_eq!(d.pixel_at(5, 27), Color::new(255, 180, 110, 110));
    // Install and delete buttons sit at their fixed offsets.
    assert_eq!(d.pixel_at(205, 0), Color::new(255, 110, 110, 200));
    assert_eq!(d.pixel_at(255, 0), Color::new(255, 200, 110, 200));
}

#[test]
fn rows_scrolled_out_of_view_draw_nothing() {
    let mut d = Drawing::new(854, 480);
    let releases = vec![release("v1", true), release("v2", false)];
    let (last_idx, _) = draw_version_list(&mut d, &releases, false, -1000);
    // The layout cursor still advances, but no row was visible.
    assert_eq!(last_idx, 27);
    assert_eq!(d.texts.len(), 0);
    assert_eq!(d.count, 0);
}

#[test]
fn partially_scrolled_list_draws_only_visible_rows() {
    let mut d = Drawing::new(854, 480);
    let releases = vec![release("v1", true), release("v2", false)];
    // Row 0 sits at y == 460 < 477 and draws; row 1 at y == 487 does not.
    let (_, _) = draw_version_list(&mut d, &releases, false, 460);
    assert_eq!(d.texts.len(), 3);
    assert_eq!(d.texts[0].text, "name-v1 - v1");
}

#[test]
fn play_buttons_show_first_entry_and_first_unstable_tag() {
    let mut d = Drawing::new(854, 480);
    // The first non-stable entry wins however many stable entries follow it.
    let releases = vec![
        release("v1", true),
        release("v2-bleed", false),
        release("v3", true),
        release("v4-bleed", false),
    ];
    draw_play_buttons(&mut d, &releases);
    assert_eq!(d.texts.len(), 3);
    assert_eq!(d.texts[0].text, "PLAY:");
    assert_eq!(d.texts[1].text, "last version v1");
    assert_eq!(d.texts[2].text, "last bleeding edge v2-bleed");
}

#[test]
fn play_buttons_with_two_entry_list() {
    let mut d = Drawing::new(854, 480);
    let releases = vec![release("v1", true), release("v2-bleed", false)];
    draw_play_buttons(&mut d, &releases);
    assert_eq!(d.texts[1].text, "last version v1");
    assert_eq!(d.texts[2].text, "last bleeding edge v2-bleed");
}

#[test]
fn play_buttons_without_releases_show_only_heading() {
    let mut d = Drawing::new(854, 480);
    let releases: Vec<Release> = Vec::new();
    draw_play_buttons(&mut d, &releases);
    assert_eq!(d.texts.len(), 1);
    assert_eq!(d.texts[0].text, "PLAY:");
    assert_eq!(d.count, 1);
}

#[test]
fn play_buttons_all_stable_skip_bleeding_edge() {
    let mut d = Drawing::new(854, 480);
    let releases = vec![release("v1", true), release("v2", true)];
    draw_play_buttons(&mut d, &releases);
    assert_eq!(d.texts.len(), 2);
    assert_eq!(d.texts[1].text, "last version v1");
}

#[test]
fn utils_row_reports_reload_hit() {
    let mut d = Drawing::new(854, 480);
    d.process_mouse(320, 460); // inside the reload button
    let (reload, path) = draw_utils_row(&mut d, "/opt/games");
    assert!(reload);
    assert!(!path);
    assert_eq!(d.texts.len(), 3);
    assert_eq!(d.texts[0].text, "Reload");
    assert_eq!(
        d.texts[1].text,
        "Click here to change Mindustry installation location: "
    );
    assert_eq!(d.texts[2].text, "/opt/games");
}

#[test]
fn utils_row_reports_path_hit() {
    let mut d = Drawing::new(854, 480);
    d.process_mouse(400, 460); // inside the path button
    let (reload, path) = draw_utils_row(&mut d, "p");
    assert!(!reload);
    assert!(path);
}

#[test]
fn render_frame_reports_reload_hit_only_on_reload() {
    let mut d = Drawing::new(854, 480);
    d.process_mouse(320, 460);
    let releases = vec![release("v1", true)];
    let hits = render_frame(&mut d, &releases, false, 0, "path");
    assert!(hits.reload);
    assert!(!hits.path);
    assert!(!hits.retry);
    assert_eq!(hits.last_idx, 0);
    // The list panel background was filled where no row covers it.
    assert_eq!(d.pixel_at(10, 400), Color::new(255, 50, 50, 50));
}

#[test]
fn render_frame_retry_needs_error_and_empty_list() {
    let mut d = Drawing::new(854, 480);
    d.process_mouse(30, 265);
    let releases: Vec<Release> = Vec::new();
    let hits = render_frame(&mut d, &releases, true, 0, "path");
    assert!(hits.retry);
    assert_eq!(hits.last_idx, -27);

    let mut d2 = Drawing::new(854, 480);
    d2.process_mouse(30, 265);
    let hits2 = render_frame(&mut d2, &releases, false, 0, "path");
    assert!(!hits2.retry);

    let mut d3 = Drawing::new(854, 480);
    d3.process_mouse(30, 265);
    let some = vec![release("v1", true)];
    let hits3 = render_frame(&mut d3, &some, true, 0, "path");
    assert!(!hits3.retry);
}
