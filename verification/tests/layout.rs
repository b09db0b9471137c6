use rustdar_egui::layout::{PaneLayout, Rect, MAX_PANES_DESKTOP};
use rustdar_egui::measure::Measure;
use rustdar_egui::orientation::ColorScaleOrientation;

fn micro(x: f64) -> i64 {
    (x * 1e6).round() as i64
}

fn px(x: f64) -> Measure {
    Measure::Micro(micro(x))
}

fn centre(rect: &Rect) -> (i64, i64) {
    ((rect.left + rect.right) / 2, (rect.top + rect.bottom) / 2)
}

fn contains(rect: &Rect, point: (i64, i64)) -> bool {
    rect.left <= point.0 && point.0 <= rect.right && rect.top <= point.1 && point.1 <= rect.bottom
}

#[test]
fn color_scale_orientation_follows_the_panel_shape() {
    for (w, h) in [
        (1920.0, 1080.0),
        (1920.0, 1200.0),
        (1280.0, 1024.0),
        (2340.0, 1080.0),
    ] {
        assert!(
            !ColorScaleOrientation::default().resolve(px(w), px(h)),
            "{w}x{h} is landscape: the bar belongs on the right edge"
        );
    }
    for (w, h) in [(1080.0, 2340.0), (1200.0, 1920.0), (1200.0, 1600.0)] {
        assert!(
            ColorScaleOrientation::default().resolve(px(w), px(h)),
            "{w}x{h} is portrait: the bar belongs along the bottom"
        );
    }
}

#[test]
fn color_scale_orientation_is_sticky_inside_the_band() {
    let mut from_landscape = ColorScaleOrientation::default();
    assert!(!from_landscape.resolve(px(1920.0), px(1080.0)));
    assert!(
        !from_landscape.resolve(px(960.0), px(1200.0)),
        "1.25 is inside the band"
    );
    assert!(
        !from_landscape.resolve(px(1000.0), px(1200.0)),
        "1.20, in the middle"
    );
    assert!(
        !from_landscape.resolve(px(1000.0), px(1100.0)),
        "1.10, still inside"
    );

    let mut from_portrait = ColorScaleOrientation::default();
    assert!(from_portrait.resolve(px(1080.0), px(2340.0)));
    assert!(from_portrait.resolve(px(960.0), px(1200.0)));
    assert!(from_portrait.resolve(px(1000.0), px(1200.0)));
    assert!(from_portrait.resolve(px(1000.0), px(1100.0)));

    assert!(
        from_landscape.resolve(px(1000.0), px(1400.0)),
        "1.40 is clearly portrait"
    );
    assert!(
        !from_portrait.resolve(px(1000.0), px(1000.0)),
        "1.00 is clearly not portrait"
    );

    assert!(
        from_landscape.resolve(px(1000.0), px(1200.0)),
        "having flipped to horizontal, 1.20 must now keep it"
    );
    assert!(
        !from_portrait.resolve(px(1000.0), px(1200.0)),
        "having flipped to vertical, the same 1.20 must keep that instead"
    );
}

#[test]
fn the_first_panel_is_seeded_from_the_middle_of_the_band() {
    assert!(
        !ColorScaleOrientation::default().resolve(px(1000.0), px(1120.0)),
        "1.12 is below the seed ratio"
    );
    assert!(
        ColorScaleOrientation::default().resolve(px(1000.0), px(1250.0)),
        "1.25 is above it"
    );
}

#[test]
fn color_scale_orientation_ignores_a_degenerate_panel() {
    for (w, h) in [
        (px(0.0), px(0.0)),
        (Measure::NotFinite, Measure::NotFinite),
    ] {
        let mut orientation = ColorScaleOrientation::default();
        assert!(!orientation.resolve(w, h));
        assert!(
            orientation.resolve(px(960.0), px(1200.0)),
            "the first real panel must still be free to seed, even at 1.25 \
                 where only the seed ratio (not the band edge) says portrait"
        );

        assert!(
            orientation.resolve(w, h),
            "a degenerate panel must report the remembered orientation"
        );
        assert!(
            orientation.resolve(px(960.0), px(1200.0)),
            "and not have disturbed it"
        );
    }
}

#[test]
fn a_pane_count_past_the_grid_table_is_clamped_rather_than_flattened() {
    let screen = Rect { left: 0, top: 0, right: micro(1600.0), bottom: micro(900.0) };
    for count in [MAX_PANES_DESKTOP + 1, 12, usize::MAX] {
        let layout = PaneLayout::for_count(count);
        assert_eq!(
            layout.pane_count(), MAX_PANES_DESKTOP,
            "{count} panes must land on the largest layout that has a grid"
        );

        let rects: Vec<Rect> = (0..layout.pane_count())
            .map(|idx| layout.pane_rect(idx, screen))
            .collect();
        for (idx, rect) in rects.iter().enumerate() {
            assert!(
                *rect != screen,
                "pane {idx} was handed the whole panel: every pane draws \
                     over every other one"
            );
            let containing = rects.iter().filter(|r| contains(r, centre(rect))).count();
            assert_eq!(
                containing, 1,
                "pane {idx}'s own centre lands inside {containing} pane \
                     rects, so a click there names an arbitrary pane"
            );
        }
    }

    assert_eq!(PaneLayout::for_count(0).pane_count(), 1);

    for count in 1..=MAX_PANES_DESKTOP {
        let layout = PaneLayout::for_count(count);
        assert_eq!(
            layout.grid().iter().sum::<usize>(),
            count,
            "the {count}-pane grid does not have {count} cells"
        );
    }
}

#[test]
fn the_panes_of_every_layout_fill_the_panel_without_overlap() {
    let screen = Rect { left: 0, top: 0, right: micro(1600.0), bottom: micro(900.0) };
    for count in 1..=MAX_PANES_DESKTOP {
        let layout = PaneLayout::for_count(count);
        let rects: Vec<Rect> = (0..count).map(|idx| layout.pane_rect(idx, screen)).collect();
        let area: i128 = rects
            .iter()
            .map(|r| (r.right - r.left) as i128 * (r.bottom - r.top) as i128)
            .sum();
        assert_eq!(area, micro(1600.0) as i128 * micro(900.0) as i128);
        for rect in &rects {
            assert!(rect.left >= 0 && rect.top >= 0);
            assert!(rect.right <= screen.right && rect.bottom <= screen.bottom);
        }
    }
}

#[test]
fn a_dragged_divider_moves_space_between_neighbours() {
    let screen = Rect { left: 0, top: 0, right: micro(1200.0), bottom: micro(1200.0) };
    let mut layout = PaneLayout::for_count(4);
    let strip = layout.row_divider(0, screen).unwrap();
    assert_eq!((strip.top, strip.bottom), (micro(596.0), micro(604.0)));
    layout.drag_row_divider(0, micro(120.0), micro(1200.0));
    assert_eq!(layout.pane_rect(0, screen).bottom, micro(720.0));
    assert_eq!(layout.pane_rect(2, screen).top, micro(720.0));
    layout.drag_column_divider(0, 0, micro(-60.0), micro(1200.0));
    assert_eq!(layout.pane_rect(0, screen).right, micro(540.0));
    assert_eq!(layout.pane_rect(1, screen).left, micro(540.0));
    assert_eq!(layout.pane_rect(2, screen).right, micro(600.0));
    let strip = layout.column_divider(0, 0, screen).unwrap();
    assert_eq!((strip.left, strip.right), (micro(536.0), micro(544.0)));
    assert_eq!((strip.top, strip.bottom), (0, micro(720.0)));
}

#[test]
fn a_divider_stops_where_a_pane_would_become_too_small() {
    let screen = Rect { left: 0, top: 0, right: micro(1200.0), bottom: micro(1200.0) };
    let mut layout = PaneLayout::for_count(4);
    layout.drag_row_divider(0, micro(500.0), micro(1200.0));
    assert_eq!(layout.pane_rect(0, screen).bottom, micro(600.0));
    layout.drag_row_divider(0, micro(420.0), micro(1200.0));
    assert_eq!(layout.pane_rect(0, screen).bottom, micro(1020.0));
    layout.drag_row_divider(0, micro(10.0), 0);
    assert_eq!(layout.pane_rect(0, screen).bottom, micro(1020.0));
}

#[test]
fn a_layout_of_one_has_no_divider() {
    let screen = Rect { left: 0, top: 0, right: micro(1200.0), bottom: micro(1200.0) };
    let layout = PaneLayout::for_count(1);
    assert!(layout.row_divider(0, screen).is_none());
    assert!(layout.column_divider(0, 0, screen).is_none());
    assert!(layout.column_divider(9, 0, screen).is_none());
    assert_eq!(layout.pane_rect(0, screen), screen);
}
