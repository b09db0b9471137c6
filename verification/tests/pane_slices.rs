use rustdar_egui::actions::RadarConfig;
use rustdar_egui::content::{SectionTarget, SectionUnavailable};
use rustdar_egui::frames::{RadarSite, VolumeStamp};
use rustdar_egui::geo::{GeoPoint, SectionLine, VolumeRegion};
use rustdar_egui::gui::{Gui, PendingLine, PendingRegion, Startup, WidthClass};
use rustdar_egui::kinds::{PaneKind, RadarProduct};
use rustdar_egui::layout::{PaneLayout, Rect};
use rustdar_egui::loop_state::LoopPhase;
use rustdar_egui::measure::{Exact, Measure};
use rustdar_egui::overlays::{LayerHandlers, OverlayKind};
use rustdar_egui::retarget::RegionDestination;
use rustdar_egui::scan::{ProductRanks, ScanInfo, TiltMap};
use rustdar_egui::stamp::Stamp;

fn deg(x: f64) -> i64 {
    (x * 1e6).round() as i64
}

/// A number by its place among all floating-point numbers.
fn exact(x: f64) -> Exact {
    let place = x.abs().to_bits() as i64;
    Exact::At(if x < 0.0 { -place } else { place })
}

fn point(lat: f64, lon: f64) -> GeoPoint {
    GeoPoint { lat: exact(lat), lon: exact(lon) }
}

fn moment() -> Stamp {
    let moment = chrono::NaiveDate::from_ymd_opt(2026, 7, 30)
        .unwrap()
        .and_hms_opt(18, 30, 0)
        .unwrap()
        .and_utc();
    Stamp::new(moment.timestamp(), moment.timestamp_subsec_nanos()).unwrap()
}

fn fresh() -> Gui {
    Gui::new(Startup {
        config: RadarConfig { site: "KTLX".to_owned(), timestamp: moment() },
        notifier_endpoint: "https://notify.example".to_owned(),
        handlers: LayerHandlers::new(),
        ranks: ProductRanks::new(),
        codes: ProductRanks::new(),
    })
}

fn show_panes(gui: &mut Gui, count: usize) {
    assert!(gui.set_pane_count(count));
}

fn drawn_line() -> SectionLine {
    SectionLine::new(point(35.0, -97.8), point(35.6, -96.9))
        .expect("a fixture line must be finite and have two distinct ends")
}

/// A second line, for a section that belongs to another map.
fn other_line() -> SectionLine {
    SectionLine::new(point(40.0, -100.0), point(41.0, -99.0))
        .expect("a fixture line must be finite and have two distinct ends")
}

fn wide(count: usize) -> Gui {
    let mut gui = fresh();
    gui.platform.width = WidthClass::Expanded;
    show_panes(&mut gui, count);
    gui
}

/// A scan of `site`, distinguishable by its site's name.
fn scan_info_for(site: &str) -> ScanInfo {
    ScanInfo {
        site: RadarSite { name: site.to_owned(), lat: deg(35.33), lon: deg(-97.27) },
        timestamp: moment(),
        vcp_number: 212,
        available_products: vec![RadarProduct::Reflectivity],
        product_elevations: TiltMap::new(),
        status: String::new(),
    }
}

#[test]
fn the_pane_slices_stop_at_the_visible_count() {
    let mut gui = fresh();
    show_panes(&mut gui, 4);
    for (idx, pane) in gui.panes_mut().iter_mut().enumerate() {
        pane.site = format!("PANE{idx}");
    }

    show_panes(&mut gui, 2);

    assert_eq!(gui.panes().len(), 2);
    assert_eq!(gui.panes_mut().len(), 2);
    assert_eq!(
        gui.panes()
            .iter()
            .map(|p| p.site.as_str())
            .collect::<Vec<_>>(),
        ["PANE0", "PANE1"],
    );
    assert_eq!(
        gui.pane(3).map(|p| p.site.as_str()),
        Some("PANE3"),
        "precondition: the hidden pane is still there to be reached by index"
    );
}

#[test]
fn the_pane_slices_never_outrun_the_vector() {
    let mut gui = fresh();
    assert_eq!(gui.panes().len(), 1, "a fresh Gui has one pane");
    gui.pane_layout = PaneLayout::for_count(4);

    assert_eq!(gui.panes().len(), 1);
    assert_eq!(gui.panes_mut().len(), 1);
}

#[test]
fn the_pane_rects_a_test_sees_are_only_the_ones_a_frame_drew() {
    let mut gui = fresh();
    show_panes(&mut gui, 2);
    let panel = Rect { left: 0, top: 0, right: deg(800.0), bottom: deg(600.0) };
    assert_eq!(
        gui.pane_rects(panel).len(),
        2,
        "precondition: two real panes give two rects"
    );

    gui.pane_layout = PaneLayout::for_count(4);

    assert_eq!(gui.pane_rects(panel).len(), 2);
}

#[test]
fn viewport_sync_never_outruns_the_pane_vector() {
    let mut gui = fresh();
    show_panes(&mut gui, 2);
    gui.settings.viewport_sync = true;
    gui.pane_layout = PaneLayout::for_count(4);

    gui.sync_viewports(&vec![0; 4], &vec![None; 4]);

    assert_eq!(
        gui.pane(0).unwrap().viewport.zoom(),
        gui.pane(1).unwrap().viewport.zoom(),
    );
}

#[test]
fn a_pane_kind_request_survives_the_pane_being_held_out_of_the_vector() {

    let mut gui = fresh();
    show_panes(&mut gui, 2);
    gui.active_pane = 1;
    assert_eq!(
        gui.pane(1).unwrap().kind(),
        PaneKind::MapView,
        "precondition: the pane starts as a map"
    );
    gui.pane_mut(1).unwrap().site = "KDDC".to_owned();

    let held = std::mem::take(&mut gui.panes[gui.active_pane]);
    assert_eq!(
        gui.panes[1].site, "KTLX",
        "precondition: the slot now holds a default PaneState, which is what \
             makes a direct write vanish"
    );

    gui.request_pane_kind(gui.active_pane, PaneKind::Volume);

    gui.panes[gui.active_pane] = held;
    gui.apply_pending_pane_kind(&mut Vec::new());

    assert_eq!(
        gui.pane(1).unwrap().site,
        "KDDC",
        "precondition: the original pane must be the one back in the slot"
    );
    assert_eq!(
        gui.pane(1).unwrap().kind(),
        PaneKind::Volume,
        "the conversion was written to the pane that was held out and thrown \
             away, so the menu item silently did nothing"
    );
    assert_eq!(
        gui.gestures.pending_pane_kind,
        None,
        "the request must be consumed, or every later frame re-converts the \
             pane and any per-kind state it gathers is discarded each time"
    );
    assert_eq!(
        gui.pane(0).unwrap().kind(),
        PaneKind::MapView,
        "the request converted a pane other than the one it named"
    );
}

#[test]
fn a_pane_kind_request_for_a_pane_that_is_gone_converts_nothing() {

    let mut gui = fresh();
    gui.request_pane_kind(7, PaneKind::Volume);
    gui.apply_pending_pane_kind(&mut Vec::new());

    assert_eq!(gui.pane(0).unwrap().kind(), PaneKind::MapView);
    assert_eq!(gui.gestures.pending_pane_kind, None);
}

#[test]
fn a_second_line_on_one_map_re_aims_the_section_it_already_feeds() {
    let mut gui = wide(2);
    gui.panes[1].set_kind(PaneKind::CrossSection);
    gui.panes[1].cross_section_mut().unwrap().source_pane = Some(0);
    let before = gui.pane_count();

    gui.gestures.pending_section_line = Some(PendingLine { pane_idx: 0, line: drawn_line() });
    gui.apply_pending_section_line();

    assert_eq!(gui.pane_count(), before, "the layout grew for a re-aim");
    assert_eq!(
        gui.pane(1).unwrap().cross_section().unwrap().line,
        Some(drawn_line())
    );
}

#[test]
fn a_line_with_nowhere_to_go_grows_the_layout_rather_than_taking_a_map() {
    let mut gui = wide(1);

    gui.gestures.pending_section_line = Some(PendingLine { pane_idx: 0, line: drawn_line() });
    gui.apply_pending_section_line();

    assert_eq!(gui.pane_count(), 2, "the layout did not grow");
    assert_eq!(
        gui.pane(0).unwrap().kind(),
        PaneKind::MapView,
        "the map survived"
    );
    assert_eq!(
        gui.pane(1).unwrap().kind(),
        PaneKind::CrossSection
    );
    assert_eq!(
        gui.pane(1).unwrap().cross_section().unwrap().source_pane,
        Some(0),
        "the section must remember its map, or the next line converts \
             another pane instead of re-aiming this one"
    );
    assert_eq!(
        gui.active_pane, 1,
        "the pane the user just asked for is not the one they are looking at"
    );

    let mut gui = wide(3);
    gui.panes[2].set_kind(PaneKind::CrossSection);
    gui.panes[2].cross_section_mut().unwrap().source_pane = Some(1);
    gui.panes[2].cross_section_mut().unwrap().line = Some(other_line());
    gui.gestures.pending_section_line = Some(PendingLine { pane_idx: 0, line: drawn_line() });
    gui.apply_pending_section_line();

    assert_eq!(
        gui.pane_count(),
        4,
        "the layout had room and did not use it: another map's section was \
             taken instead"
    );
    assert_eq!(
        gui.pane(2).unwrap().cross_section().unwrap().line,
        Some(other_line()),
        "pane 1's section was re-aimed at a line drawn on pane 0"
    );
    assert_eq!(
        gui.pane(3).unwrap().cross_section().unwrap().line,
        Some(drawn_line())
    );
}

#[test]
fn a_full_layout_re_aims_a_section_before_it_takes_a_map() {
    let full = WidthClass::Expanded.max_panes();

    let mut gui = wide(full);
    gui.panes[2].set_kind(PaneKind::CrossSection);
    gui.panes[2].cross_section_mut().unwrap().source_pane = Some(1);
    gui.gestures.pending_section_line = Some(PendingLine { pane_idx: 0, line: drawn_line() });
    gui.apply_pending_section_line();
    assert_eq!(gui.pane_count(), full, "a full layout cannot grow");
    assert_eq!(
        gui.pane(2).unwrap().cross_section().unwrap().source_pane,
        Some(0),
        "the existing section should have been re-aimed and re-sourced"
    );
    assert!(
        (0..full)
            .filter(|&i| gui.pane(i).unwrap().kind() == PaneKind::MapView)
            .count()
            == full - 1,
        "a map was converted while a section was there to re-aim"
    );

    let mut gui = wide(full);
    gui.gestures.pending_section_line = Some(PendingLine { pane_idx: 0, line: drawn_line() });
    gui.apply_pending_section_line();
    assert_eq!(
        gui.pane(0).unwrap().kind(),
        PaneKind::MapView,
        "the map under the line was taken"
    );
    assert_eq!(
        gui.pane(full - 1).unwrap().kind(),
        PaneKind::CrossSection
    );
}

#[test]
fn a_drawn_line_lands_somewhere_at_every_reachable_pane_count() {
    for width in [WidthClass::Compact, WidthClass::Expanded] {
        for count in 1..=width.max_panes() {
            let mut gui = fresh();
            gui.platform.width = width;
            show_panes(&mut gui, count);

            gui.gestures.pending_section_line = Some(PendingLine { pane_idx: 0, line: drawn_line() });
            gui.apply_pending_section_line();

            let sections = gui
                .panes()
                .iter()
                .filter(|p| p.kind() == PaneKind::CrossSection)
                .count();
            assert_eq!(
                sections, 1,
                "{width:?} with {count} panes placed {sections} sections for one line"
            );
            assert_eq!(
                gui.pane(0).unwrap().kind(),
                PaneKind::MapView,
                "{width:?} with {count} panes took the map the line was drawn on"
            );
            let expected = (count + 1).min(width.max_panes());
            assert_eq!(
                gui.pane_count(),
                expected,
                "{width:?} with {count} panes should have ended at {expected}"
            );
        }
    }
}

#[test]
fn a_retargeted_section_takes_the_maps_site_and_drops_the_old_picture() {
    let ctx = egui::Context::default();
    let mut gui = wide(2);
    gui.panes[0].site = "KTLX".to_owned();
    gui.panes[0].selected_product = RadarProduct::Velocity;
    gui.panes[1].site = "KINX".to_owned();
    gui.panes[1].set_kind(PaneKind::CrossSection);
    {
        let section = gui.panes[1].cross_section_mut().unwrap();
        section.source_pane = Some(0);
        section.unavailable = Some(SectionUnavailable::RenderFailed);
        section.rendered_for = Some(SectionTarget {
            volume: VolumeStamp {
                site: "KINX".to_owned(),
                collected: moment(),
            },
            product: RadarProduct::Reflectivity,
            line: other_line(),
            ladder: 9,
        });
        section.section = Some(1);
        section.texture = Some(ctx.load_texture(
            "retarget-fixture",
            egui::ColorImage::filled([1, 1], egui::Color32::WHITE),
            egui::TextureOptions::NEAREST,
        ));
    }

    gui.gestures.pending_section_line = Some(PendingLine { pane_idx: 0, line: drawn_line() });
    gui.apply_pending_section_line();

    let pane = gui.pane(1).unwrap();
    assert_eq!(pane.site, "KTLX");
    assert_eq!(pane.selected_product, RadarProduct::Velocity);
    let section = pane.cross_section().unwrap();
    assert_eq!(section.line, Some(drawn_line()));
    assert!(
        section.section.is_none(),
        "the previous line's cut is still what a hover reads"
    );
    assert!(
        section.texture.is_none(),
        "the previous line's picture is still on screen under the new line's \
             caption"
    );
    assert!(
        section.rendered_for.is_none(),
        "a stale key would stop the dispatcher ever cutting the new line"
    );
    assert_eq!(
        section.unavailable, None,
        "a reason from the previous line outlived its cause"
    );
}

#[test]
fn a_retargeted_3d_pane_takes_the_maps_site_and_moment() {
    let mut gui = wide(2);
    gui.panes[0].site = "KTLX".to_owned();
    gui.panes[0].scan_info = Some(scan_info_for("KTLX"));
    gui.panes[1].site = "KICT".to_owned();
    gui.panes[1].scan_info = Some(scan_info_for("KICT"));
    gui.panes[1].set_kind(PaneKind::Volume);
    gui.panes[1].volume_mut().unwrap().source_pane = None;

    let region = VolumeRegion::new(point(35.3, -97.3), Measure::Micro(deg(40.0)))
    .expect("a fixture region must be a point on Earth");
    gui.gestures.pending_region = Some(PendingRegion {
        source_pane: 0,
        region,
    });
    gui.apply_pending_region(Some(RegionDestination::Existing(1)));

    assert_eq!(
        gui.pane_count(),
        2,
        "the sourceless pane must be re-aimed, not a sibling grown"
    );
    let pane = gui.pane(1).unwrap();
    assert_eq!(
        pane.site, "KTLX",
        "the pane must follow the map the box was dragged on, or it \
             resamples its own radar over another site's ground"
    );
    assert_eq!(
        pane.scan_info.as_ref().map(|s| s.site.name.as_str()),
        Some("KTLX"),
        "the moment must come across with the site, as a section's does"
    );
    let volume = pane.volume().expect("the pane is a 3D view");
    assert_eq!(volume.region, Some(region));
    assert_eq!(volume.source_pane, Some(0));
}

#[test]
fn a_back_press_cancels_an_armed_draw_after_it_has_closed_every_layer() {
    let mut gui = fresh();
    gui.set_section_draw_armed(true);
    gui.panels.drawer_open = true;

    assert!(gui.dismiss_top_layer(None), "the drawer was open");
    assert!(
        gui.section_draw_armed(),
        "closing the drawer must not also disarm: one layer per press"
    );
    assert!(gui.dismiss_top_layer(None), "the mode was armed");
    assert!(!gui.section_draw_armed());
    assert!(
        !gui.dismiss_top_layer(None),
        "with nothing left, a back press is a request to leave the app"
    );
}

#[test]
fn converting_a_pane_tears_down_its_loop_and_nothing_else() {

    for kind in [PaneKind::CrossSection, PaneKind::Volume] {
        let mut gui = fresh();
        {
            let pane = gui.pane_mut(0).unwrap();
            pane.site = "KDDC".to_owned();
            pane.selected_product = RadarProduct::Velocity;
            pane.selected_elevation = Measure::Micro(deg(1.5));
            pane.viewing_live = false;
            pane.time_step_secs = 1800;
            pane.loop_state.phase = LoopPhase::Playing;
            assert!(
                pane.loop_state.is_active(),
                "precondition: the loop must be running, or there is nothing \
                     to tear down"
            );
        }

        gui.pane_mut(0).unwrap().set_kind(kind);

        let pane = gui.pane(0).unwrap();
        assert!(
            !pane.loop_state.is_active(),
            "{kind:?}: the loop survived, so it will hold every other pane's \
                 loop back and never finish"
        );
        assert_eq!(pane.site, "KDDC", "{kind:?}: the site went with the loop");
        assert_eq!(pane.selected_product, RadarProduct::Velocity);
        assert_eq!(pane.selected_elevation, Measure::Micro(deg(1.5)));
        assert!(!pane.viewing_live);
        assert_eq!(pane.time_step_secs, 1800);

        gui.pane_mut(0).unwrap().set_kind(PaneKind::MapView);
        assert!(!gui.pane(0).unwrap().loop_state.is_active());
    }
}

#[test]
fn overlay_polling_skips_panes_with_no_map_but_keeps_their_toggles() {

    let kind = OverlayKind::CityLabels;
    let mut gui = fresh();
    show_panes(&mut gui, 2);
    for idx in 0..2 {
        gui.pane_mut(idx)
            .unwrap()
            .enabled_overlays
            .insert(kind, true);
    }
    assert!(
        gui.any_pane_has_overlay_enabled(kind),
        "precondition: two map panes want the layer"
    );
    assert_eq!(gui.first_pane_with_overlay_enabled(kind), Some(0));

    gui.pane_mut(0).unwrap().set_kind(PaneKind::Volume);
    assert_eq!(
        gui.first_pane_with_overlay_enabled(kind),
        Some(1),
        "a fetch was attributed to a pane that cannot draw the overlay"
    );
    assert!(gui.any_pane_has_overlay_enabled(kind));

    gui.pane_mut(1).unwrap().set_kind(PaneKind::CrossSection);
    assert!(
        !gui.any_pane_has_overlay_enabled(kind),
        "no pane on screen can draw this overlay, yet its auto-poll timer is \
             still being kept alive"
    );
    assert_eq!(gui.first_pane_with_overlay_enabled(kind), None);

    for idx in 0..2 {
        assert!(
            gui.pane(idx).unwrap().is_overlay_enabled(kind),
            "pane {idx} lost its remembered layer choice"
        );
    }
    gui.pane_mut(0).unwrap().set_kind(PaneKind::MapView);
    assert_eq!(gui.first_pane_with_overlay_enabled(kind), Some(0));
}

#[test]
fn a_pane_with_no_map_neither_drives_nor_follows_the_shared_viewport() {

    let moved_to = deg(6.0);
    let untouched = deg(4.0);

    let mut gui = fresh();
    show_panes(&mut gui, 3);
    gui.settings.viewport_sync = true;
    gui.pane_mut(1).unwrap().set_kind(PaneKind::CrossSection);
    for idx in 0..3 {
        assert_eq!(
            gui.pane(idx).unwrap().viewport.zoom(),
            untouched,
            "precondition: every pane starts at the same zoom"
        );
    }

    gui.pane_mut(1)
        .unwrap()
        .viewport
        .set_zoom(Measure::Micro(moved_to))
        .expect("precondition: the test zoom must be in range");
    assert_eq!(
        gui.pane(1).unwrap().viewport.zoom(),
        moved_to,
        "precondition: the test zoom was clamped, so nothing moved"
    );

    gui.sync_viewports(&vec![untouched; 3], &vec![None; 3]);

    assert_eq!(
        (0..3)
            .map(|idx| gui.pane(idx).unwrap().viewport.zoom())
            .collect::<Vec<_>>(),
        vec![untouched, moved_to, untouched],
        "a gesture on a pane with no map re-zoomed the map panes to it"
    );

    gui.pane_mut(0)
        .unwrap()
        .viewport
        .set_zoom(Measure::Micro(deg(7.0)))
        .expect("in range");
    gui.sync_viewports(&vec![untouched, moved_to, untouched], &vec![None; 3]);
    assert_eq!(
        (0..3)
            .map(|idx| gui.pane(idx).unwrap().viewport.zoom())
            .collect::<Vec<_>>(),
        vec![deg(7.0), moved_to, deg(7.0)],
        "the section pane's own viewport was overwritten by the sync"
    );
}

#[test]
fn a_non_map_active_pane_is_not_the_fallback_sync_source() {

    let mut gui = fresh();
    show_panes(&mut gui, 2);
    gui.settings.viewport_sync = true;
    gui.pane_mut(1).unwrap().set_kind(PaneKind::Volume);
    gui.active_pane = 1;

    gui.pane_mut(1)
        .unwrap()
        .viewport
        .set_zoom(Measure::Micro(deg(9.0)))
        .expect("in range");

    gui.sync_viewports(&vec![deg(4.0), deg(9.0)], &vec![None; 2]);

    assert_eq!(
        gui.pane(0).unwrap().viewport.zoom(),
        deg(4.0),
        "the active pane has no map, so its viewport propagated to a map \
             pane that nothing had interacted with"
    );
}

#[test]
fn loop_actions_skip_panes_that_draw_no_frames() {

    let mut gui = fresh();
    show_panes(&mut gui, 4);
    gui.settings.sync_layers = true;
    gui.pane_mut(1).unwrap().set_kind(PaneKind::CrossSection);
    gui.pane_mut(2).unwrap().set_kind(PaneKind::Volume);

    assert_eq!(gui.loop_sync_targets(), vec![0, 3]);

    gui.settings.sync_layers = false;
    gui.active_pane = 2;
    assert_eq!(gui.loop_sync_targets(), vec![2]);

    gui.settings.sync_layers = true;
    assert_eq!(gui.loop_sync_targets(), vec![0, 2, 3]);
}

#[test]
fn clearing_graphics_state_reaches_panes_of_every_kind() {

    let mut gui = fresh();
    show_panes(&mut gui, 4);
    gui.pane_mut(1).unwrap().set_kind(PaneKind::CrossSection);
    gui.pane_mut(2).unwrap().set_kind(PaneKind::Volume);
    show_panes(&mut gui, 2);

    let before: Vec<u64> = gui
        .panes
        .iter()
        .map(|pane| pane.radar_sites_render_gen)
        .collect();
    assert_eq!(before.len(), 4, "precondition: four panes to reach");
    assert_eq!(
        gui.panes.iter().map(|pane| pane.kind()).collect::<Vec<_>>(),
        [
            PaneKind::MapView,
            PaneKind::CrossSection,
            PaneKind::Volume,
            PaneKind::MapView
        ],
        "precondition: one pane of each kind, two of them hidden"
    );

    gui.clear_graphics_state();

    for (idx, was) in before.iter().enumerate() {
        assert_eq!(
            gui.panes[idx].radar_sites_render_gen,
            was + 1,
            "pane {idx} ({:?}) was not reached by the graphics-state reset, \
                 so nothing released whatever its kind is holding",
            gui.panes[idx].kind(),
        );
    }
}

#[test]
fn line_after_line_is_cut_in_the_same_pane() {
    let mut gui = wide(1);
    for line in [drawn_line(), other_line(), drawn_line()] {
        gui.gestures.pending_section_line = Some(PendingLine { pane_idx: 0, line });
        gui.apply_pending_section_line();
        assert_eq!((gui.pane_count(), gui.active_pane), (2, 1));
        assert_eq!(gui.pane(1).unwrap().cross_section().unwrap().line, Some(line));
    }
}
