use rustdar_egui::actions::{push_overlay_fetch_once, GuiAction, RadarConfig};
use rustdar_egui::frames::RadarSite;
use rustdar_egui::geo::{GeoPoint, SectionLine, VolumeRegion};
use rustdar_egui::gui::{
    GpsFix, Gui, InspectorSelection, PendingLine, PendingRegion, ScreenPoint, SectionAnchor,
    SectionEditDrag, SheetPage, SiteVolume, Startup, WidthClass,
};
use rustdar_egui::kinds::{PaneKind, RadarProduct};
use rustdar_egui::layout::Rect;
use rustdar_egui::measure::{Exact, Measure};
use rustdar_egui::overlays::{LayerFeed, LayerHandlers, OverlayKind};
use rustdar_egui::poll::AutoPollState;
use rustdar_egui::retarget::RegionDestination;
use rustdar_egui::scan::{ProductRanks, ScanInfo, TiltMap};
use rustdar_egui::stamp::Stamp;
use rustdar_egui::status::CurrentVolumeStamp;
use rustdar_egui::viewport::Viewport;

const NOW: u64 = 10_000_000;
const MOMENT: i64 = 1_785_030_510;

fn stamp(secs: i64) -> Stamp {
    Stamp::new(secs, 0).unwrap()
}

/// A number by its place among all floating-point numbers.
fn exact(x: f64) -> Exact {
    let place = x.abs().to_bits() as i64;
    Exact::At(if x < 0.0 { -place } else { place })
}

fn point(lat: i32, lon: i32) -> GeoPoint {
    GeoPoint { lat: exact(f64::from(lat)), lon: exact(f64::from(lon)) }
}

fn line(lat: i32) -> SectionLine {
    SectionLine::new(point(lat, -98), point(lat + 1, -97)).unwrap()
}

fn feed(interval: Option<u64>, has_data: bool) -> LayerFeed {
    LayerFeed { auto_poll_interval: interval, fetching: false, fetched_at: None, has_data }
}

fn fresh() -> Gui {
    let mut handlers = LayerHandlers::new();
    for kind in OverlayKind::all() {
        handlers.set_enabled(kind, kind == OverlayKind::Radar);
    }
    handlers.feeds.insert(OverlayKind::NwsAlerts, feed(Some(120), false));
    let mut ranks = ProductRanks::new();
    ranks.insert(RadarProduct::Velocity, 1);
    ranks.insert(RadarProduct::EchoTops, 9);
    ranks.insert(RadarProduct::Reflectivity, 0);
    let mut gui = Gui::new(Startup {
        config: RadarConfig { site: "KTLX".to_owned(), timestamp: stamp(MOMENT) },
        notifier_endpoint: String::new(),
        handlers,
        ranks,
        codes: ProductRanks::new(),
    });
    gui.platform.width = WidthClass::Expanded;
    gui
}

fn with_panes(count: usize) -> Gui {
    let mut gui = fresh();
    assert!(gui.set_pane_count(count));
    gui
}

fn scan(secs: i64, tilts: &[(RadarProduct, &[i64])]) -> ScanInfo {
    let mut product_elevations = TiltMap::new();
    for (product, list) in tilts {
        product_elevations.insert(*product, list.to_vec());
    }
    ScanInfo {
        site: RadarSite { name: "KTLX".to_owned(), lat: 35_330_000, lon: -97_270_000 },
        timestamp: stamp(secs),
        vcp_number: 212,
        available_products: tilts.iter().map(|(p, _)| *p).collect(),
        product_elevations,
        status: "ok".to_owned(),
    }
}

#[test]
fn presses_close_one_layer_each_from_the_top() {
    let mut gui = fresh();
    gui.set_section_draw_armed(true);
    gui.panels.drawer_open = true;
    gui.open_settings();
    gui.time_dialog.show = true;
    gui.features.ids = vec![3, 4];
    gui.popups.catalog_open = true;
    gui.popups.menu_popup_open = true;
    gui.popups.ui_faded = true;
    gui.gestures.section_edit_drag = Some(SectionEditDrag { pane_idx: 0 });

    assert!(gui.dismiss_top_layer(None));
    assert!(gui.gestures.section_edit_drag.is_none() && gui.popups.ui_faded);
    assert!(gui.dismiss_top_layer(None));
    assert!(!gui.popups.ui_faded && gui.popups.menu_popup_open);
    assert!(gui.dismiss_top_layer(None));
    assert!(!gui.popups.menu_popup_open && gui.popups.menu_popup_close_requested);
    assert!(gui.popups.catalog_open);
    assert!(gui.dismiss_top_layer(None));
    assert!(!gui.popups.catalog_open && !gui.features.ids.is_empty());
    assert!(gui.dismiss_top_layer(None));
    assert!(gui.features.ids.is_empty() && gui.time_dialog.show);
    assert!(gui.dismiss_top_layer(None));
    assert!(!gui.time_dialog.show && gui.panels.insp_open);
    assert!(gui.dismiss_top_layer(None));
    assert!(!gui.panels.insp_open && gui.panels.drawer_open);
    assert!(gui.dismiss_top_layer(None));
    assert!(!gui.panels.drawer_open && gui.section_draw_armed());
    assert!(gui.dismiss_top_layer(None));
    assert!(!gui.section_draw_armed());
    assert!(!gui.dismiss_top_layer(None));
}

#[test]
fn on_a_phone_the_page_on_top_is_closed() {
    let mut gui = fresh();
    gui.platform.width = WidthClass::Compact;
    gui.time_dialog.show = true;
    gui.popups.catalog_open = true;
    assert!(gui.dismiss_top_layer(Some(SheetPage::Time)));
    assert!(!gui.time_dialog.show && gui.popups.catalog_open);
}

#[test]
fn arming_one_drag_disarms_the_other() {
    let mut gui = fresh();
    gui.set_section_draw_armed(true);
    gui.set_region_arm(true);
    assert!(gui.gestures.region_arm && !gui.section_draw_armed());
    gui.set_section_draw_armed(true);
    assert!(!gui.gestures.region_arm && gui.section_draw_armed());
    gui.set_section_draw_armed(false);
    assert!(!gui.gestures.region_arm && !gui.section_draw_armed());
}

#[test]
fn the_rubber_band_belongs_to_the_pane_it_started_on() {
    let mut gui = fresh();
    gui.set_section_draw_armed(true);
    let from = ScreenPoint { x: 1, y: 2 };
    let to = ScreenPoint { x: 30, y: 40 };
    gui.gestures.section_anchor =
        Some(SectionAnchor { pane_idx: 0, ground: point(35, -97), screen: from, current: to });
    assert_eq!(gui.section_rubber_band(0), Some((from, to)));
    assert_eq!(gui.section_rubber_band(1), None);
}

#[test]
fn shared_time_reaches_linked_panes_and_always_the_driven_one() {
    let mut gui = with_panes(3);
    gui.panes[0].time_link = false;
    gui.panes[1].time_link = false;
    assert_eq!(gui.time_sync_targets(), vec![0, 2]);
    assert_eq!(gui.loop_sync_targets(), vec![0, 2]);
    gui.settings.sync_layers = false;
    assert_eq!(gui.time_sync_targets(), vec![0]);
}

#[test]
fn layers_reach_linked_panes_and_settle() {
    let mut gui = with_panes(3);
    gui.panes[2].layer_link = false;
    gui.panes[1].time_link = false;
    gui.panes[1].viewing_live = false;
    gui.panes[1].set_kind(PaneKind::Volume);
    gui.panes[0].site = "KOUN".to_owned();
    gui.panes[0].selected_product = RadarProduct::Velocity;
    gui.panes[0].time_step_secs = 1800;
    gui.panes[0].viewing_live = true;
    for _ in 0..2 {
        gui.propagate_layer_sync();
        assert_eq!(gui.panes[1].site, "KOUN");
        assert_eq!(gui.panes[1].selected_product, RadarProduct::Velocity);
        assert_eq!(gui.panes[1].time_step_secs, 600);
        assert!(!gui.panes[1].viewing_live);
        assert_eq!(gui.panes[1].kind(), PaneKind::Volume);
        assert_eq!(gui.panes[2].site, "KTLX");
        assert_eq!(gui.panes[2].selected_product, RadarProduct::Reflectivity);
    }
}

#[test]
fn a_switched_layer_holds_and_is_fetched_once() {
    let mut gui = with_panes(2);
    let mut actions = Vec::new();
    gui.set_pane_overlay_with_fetch(0, OverlayKind::NwsAlerts, true, &mut actions);
    gui.set_pane_overlay_with_fetch(1, OverlayKind::NwsAlerts, true, &mut actions);
    assert_eq!(actions.len(), 1);
    assert!(gui.panes[1].is_overlay_enabled(OverlayKind::NwsAlerts));
    assert!(gui.panes[1].overlay_configs.get(OverlayKind::NwsAlerts).unwrap().enabled);
    assert!(gui.panes[1].is_overlay_enabled(OverlayKind::Radar));
    gui.set_pane_overlay(1, OverlayKind::NwsAlerts, false);
    assert!(!gui.panes[1].is_overlay_enabled(OverlayKind::NwsAlerts));
    assert!(gui.panes[0].is_overlay_enabled(OverlayKind::NwsAlerts));
    gui.overlays.feeds.insert(OverlayKind::Metar, feed(None, true));
    gui.set_pane_overlay_with_fetch(0, OverlayKind::Metar, true, &mut actions);
    assert_eq!(actions.len(), 1);
}

#[test]
fn a_fetch_is_queued_once_per_layer() {
    let mut actions = Vec::new();
    push_overlay_fetch_once(&mut actions, OverlayKind::Metar, 0);
    push_overlay_fetch_once(&mut actions, OverlayKind::Metar, 3);
    push_overlay_fetch_once(&mut actions, OverlayKind::Lightning, 3);
    assert_eq!(actions.len(), 2);
    assert!(matches!(
        actions[0],
        GuiAction::FetchOverlay { kind: OverlayKind::Metar, pane_idx: 0 }
    ));
}

#[test]
fn a_map_under_a_3d_view_fetches_deeper_tiles_while_they_fit() {
    let mut gui = with_panes(3);
    gui.set_floor_tile_zoom_bias(2);
    gui.panes[1].set_kind(PaneKind::Volume);
    gui.panes[1].volume_mut().unwrap().source_pane = Some(0);
    let resident = vec![40, 99, 99];
    assert!(gui.is_floor_source(0));
    assert!(!gui.is_floor_source(2));
    assert_eq!(gui.tile_zoom_bias_for_pane(0, &resident, 40), 2);
    assert_eq!(gui.tile_zoom_bias_for_pane(0, &resident, 39), 0);
    assert_eq!(gui.tile_zoom_bias_for_pane(2, &resident, 40), 0);
    assert!(gui.floor_tiles_fit(&resident, 40));
    gui.panes[1].volume_mut().unwrap().hide_floor = true;
    assert!(!gui.is_floor_source(0));
    assert_eq!(gui.tile_layers(0), 1);
    gui.set_pane_overlay(0, OverlayKind::CityLabels, true);
    assert_eq!(gui.tile_layers(0), 2);
}

#[test]
fn each_map_under_3d_views_is_mirrored_once() {
    let mut gui = with_panes(4);
    let rect = |left| Some(Rect { left, top: 0, right: left + 10, bottom: 10 });
    gui.map.pane_rects = vec![rect(0), rect(10), rect(20), None];
    for idx in [1, 2] {
        gui.panes[idx].set_kind(PaneKind::Volume);
        gui.panes[idx].volume_mut().unwrap().source_pane = Some(0);
    }
    assert_eq!(gui.mirror_source_rects(), vec![rect(0).unwrap()]);
    gui.panes[2].volume_mut().unwrap().source_pane = Some(3);
    assert_eq!(gui.mirror_source_rects(), vec![rect(0).unwrap()]);
    gui.panes[1].volume_mut().unwrap().source_pane = Some(2);
    assert!(gui.mirror_source_rects().is_empty());
}

#[test]
fn a_poll_backs_off_and_recovers() {
    let mut poll = AutoPollState::new();
    for expected in [120, 240, 300, 300] {
        poll.on_error();
        assert_eq!(poll.interval_secs, expected);
    }
    poll.on_success();
    assert_eq!(poll.interval_secs, 60);
    poll.record_fetch(NOW);
    assert_eq!(poll.time_until_next(NOW + 59_999), Some(1));
    assert!(!poll.should_poll(NOW + 59_999));
    assert!(poll.should_poll(NOW + 60_000));
}

#[test]
fn a_look_at_the_timers_asks_for_what_is_due() {
    let mut gui = with_panes(2);
    gui.panes[1].site = "KOUN".to_owned();
    gui.set_pane_overlay(1, OverlayKind::NwsAlerts, true);
    let mut actions = Vec::new();
    gui.check_auto_polls(NOW, stamp(MOMENT), &mut actions);
    assert!(gui.fetching());
    assert_eq!(actions.len(), 2);
    match &actions[0] {
        GuiAction::FetchRadarScan(config) => assert_eq!(config.site, "KTLX"),
        _ => panic!("the first fetch of the session was not asked for"),
    }
    assert!(matches!(
        actions[1],
        GuiAction::FetchOverlay { kind: OverlayKind::NwsAlerts, pane_idx: 1 }
    ));

    gui.set_fetching(false);
    let mut later = Vec::new();
    gui.check_auto_polls(NOW + 60_000, stamp(MOMENT + 60), &mut later);
    let checks: Vec<(&str, i64)> = later
        .iter()
        .filter_map(|a| match a {
            GuiAction::CheckForNewScans(c) => Some((c.site.as_str(), c.timestamp.secs())),
            _ => None,
        })
        .collect();
    assert_eq!(checks, vec![("KTLX", MOMENT + 30), ("KOUN", MOMENT + 30)]);

    let mut again = Vec::new();
    gui.check_auto_polls(NOW + 60_000, stamp(MOMENT + 60), &mut again);
    assert!(again.iter().all(|a| matches!(a, GuiAction::FetchOverlay { .. })));
}

#[test]
fn the_sleep_covers_every_timer() {
    let mut gui = fresh();
    gui.auto_poll.last_fetch_time = Some(NOW - 10_000);
    assert_eq!(gui.auto_poll_delay(NOW), Some(50_000));
    gui.overlays.feeds.insert(
        OverlayKind::NwsAlerts,
        LayerFeed { fetched_at: Some(NOW - 100_000), ..feed(Some(120), true) },
    );
    assert_eq!(gui.auto_poll_delay(NOW), Some(50_000));
    gui.set_pane_overlay(0, OverlayKind::NwsAlerts, true);
    assert_eq!(gui.auto_poll_delay(NOW), Some(20_000));
    gui.popups.countdown_drawn = true;
    assert_eq!(gui.status_tick_delay(NOW), Some(1_000));
    assert!(gui.is_auto_poll_active());
}

#[test]
fn the_time_dialog_takes_a_moment_or_leaves_things_be() {
    let mut gui = fresh();
    assert_eq!(gui.time_dialog.date_string, "2026-07-26");
    assert_eq!(gui.time_dialog.time_string, "01:48:30");
    gui.time_dialog.show = true;
    assert!(gui.time_dialog_floats());
    gui.time_dialog.date_string = "2026-07-25".to_owned();
    match gui.confirm_time() {
        Some(GuiAction::FetchRadarScan(config)) => {
            assert_eq!(config.timestamp, stamp(MOMENT - 86_400));
            assert_eq!(config.site, "KTLX");
        }
        _ => panic!("no scan was asked for"),
    }
    assert!(!gui.time_dialog.show && !gui.is_viewing_live());

    gui.time_dialog.show = true;
    gui.time_dialog.time_string = "soon".to_owned();
    assert!(gui.confirm_time().is_none());
    assert!(!gui.time_dialog.show);
    assert_eq!(gui.get_radar_config().timestamp, stamp(MOMENT - 86_400));

    gui.cancel_time();
    assert_eq!(gui.time_dialog.time_string, "01:48:30");
    gui.use_current_time(stamp(MOMENT));
    assert_eq!(gui.time_dialog.date_string, "2026-07-26");
    assert_eq!(gui.get_radar_config().timestamp, stamp(MOMENT));
}

#[test]
fn a_scan_lands_on_its_own_site_alone() {
    let mut gui = with_panes(2);
    gui.panes[1].site = "KOUN".to_owned();
    gui.set_fetching(true);
    gui.auto_poll.on_error();
    gui.set_scan_info_for_site("KTLX", scan(MOMENT, &[(RadarProduct::Reflectivity, &[500_000])]));
    assert!(gui.get_scan_info_for_pane(0).is_some());
    assert!(gui.get_scan_info_for_pane(1).is_none());
    assert!(!gui.fetching());
    assert_eq!(gui.auto_poll.interval_secs, 60);
    assert!(gui.map.initial_zoom_set);
}

#[test]
fn merging_a_partial_volume_sorts_and_settles() {
    let old = scan(
        MOMENT,
        &[
            (RadarProduct::EchoTops, &[0]),
            (RadarProduct::Reflectivity, &[500_000, 2_400_000]),
        ],
    );
    let new = scan(
        MOMENT + 300,
        &[
            (RadarProduct::Velocity, &[500_000]),
            (RadarProduct::Reflectivity, &[1_500_000, 505_000]),
        ],
    );
    let gui = fresh();
    let once = old.merged_with(&new, &gui.ranks);
    assert_eq!(
        once.available_products,
        vec![RadarProduct::Reflectivity, RadarProduct::Velocity, RadarProduct::EchoTops]
    );
    let tilts = vec![500_000, 1_500_000, 2_400_000];
    assert_eq!(once.product_elevations.get(RadarProduct::Reflectivity), Some(&tilts));
    assert_eq!(once.timestamp, stamp(MOMENT + 300));
    let twice = once.merged_with(&new, &gui.ranks);
    assert_eq!(twice.product_elevations.get(RadarProduct::Reflectivity), Some(&tilts));
}

#[test]
fn a_region_grows_the_layout_or_takes_a_pane() {
    let region = VolumeRegion::new(point(35, -97), Measure::Micro(40_000_000)).unwrap();
    let mut gui = fresh();
    gui.gestures.pending_region = Some(PendingRegion { source_pane: 0, region });
    gui.set_region_arm(true);
    gui.apply_pending_region(Some(RegionDestination::Grow(2)));
    assert_eq!(gui.pane_count(), 2);
    assert_eq!(gui.panes[1].volume().unwrap().region, Some(region));
    assert!(!gui.gestures.region_arm);
    assert_eq!(gui.active_pane_idx(), 0);

    gui.gestures.pending_region = Some(PendingRegion { source_pane: 0, region });
    gui.apply_pending_region(None);
    assert!(gui.gestures.pending_region.is_none());
    gui.gestures.pending_region = Some(PendingRegion { source_pane: 9, region });
    gui.apply_pending_region(Some(RegionDestination::Convert(0)));
    assert_eq!(gui.panes[0].kind(), PaneKind::MapView);
}

#[test]
fn an_edited_line_changes_the_line_alone() {
    let mut gui = with_panes(2);
    gui.panes[1].set_kind(PaneKind::CrossSection);
    gui.panes[1].cross_section_mut().unwrap().section = Some(5);
    gui.gestures.pending_section_edit = Some(PendingLine { pane_idx: 1, line: line(35) });
    gui.apply_pending_section_edit();
    let section = gui.panes[1].cross_section().unwrap();
    assert_eq!((section.line, section.section), (Some(line(35)), Some(5)));
    gui.gestures.pending_section_edit = Some(PendingLine { pane_idx: 0, line: line(35) });
    gui.apply_pending_section_edit();
    assert_eq!(gui.panes[0].kind(), PaneKind::MapView);
    assert!(gui.gestures.pending_section_edit.is_none());
}

#[test]
fn a_frame_begins_steady_and_ends_settled() {
    let mut gui = with_panes(2);
    gui.settings.storm_motion_editing = true;
    gui.popups.menu_open = true;
    let mut actions = Vec::new();
    gui.begin_frame(NOW, stamp(MOMENT), WidthClass::Medium, &mut actions);
    assert!(!gui.storm_motion_mid_edit());
    assert!(!gui.popups.menu_open);
    assert_eq!(gui.platform.width, WidthClass::Medium);
    assert!(gui.auto_poll.initial_fetch_done);

    gui.open_settings();
    gui.settings.storm_motion_editing = true;
    gui.popups.menu_open = true;
    gui.begin_frame(NOW, stamp(MOMENT), WidthClass::Compact, &mut actions);
    assert!(gui.storm_motion_mid_edit() && gui.popups.menu_open);

    gui.panes[1].set_kind(PaneKind::Volume);
    gui.request_pane_kind(1, PaneKind::CrossSection);
    gui.gestures.pending_section_edit = Some(PendingLine { pane_idx: 1, line: line(40) });
    let mut released = Vec::new();
    gui.settle_gestures(&mut released);
    assert_eq!(released.len(), 1);
    assert!(matches!(released[0], GuiAction::ReleaseVolume { pane_idx: 1 }));
    assert_eq!(gui.panes[1].cross_section().unwrap().line, Some(line(40)));

    gui.set_pane_overlay(1, OverlayKind::Metar, true);
    gui.set_pane_overlay(0, OverlayKind::Metar, false);
    gui.active_pane = 1;
    gui.settle_handlers();
    assert!(gui.overlays.settings.get(OverlayKind::Metar).unwrap().enabled);
}

#[test]
fn a_viewport_refuses_a_zoom_out_of_range() {
    let mut viewport = Viewport::default();
    assert_eq!(viewport.zoom(), 16_000_000);
    assert!(viewport.set_zoom(Measure::Micro(27_000_000)).is_err());
    assert!(viewport.set_zoom(Measure::NotFinite).is_err());
    assert_eq!(viewport.zoom(), 16_000_000);
    assert!(viewport.set_zoom(Measure::Micro(8_000_000)).is_ok());
    assert!(viewport.has_moved(16_000_000, None));
    assert!(!viewport.has_moved(8_000_050, None));
}

#[test]
fn the_panels_open_where_they_are_asked_to() {
    let mut gui = fresh();
    assert!(gui.layers_panel_visible());
    gui.panels.stack_open = Some(false);
    assert!(!gui.layers_panel_visible());
    gui.platform.width = WidthClass::Compact;
    gui.panels.drawer_open = true;
    assert!(gui.layers_panel_visible());
    gui.select_layer(OverlayKind::Metar);
    assert_eq!(gui.panels.inspector_sel, InspectorSelection::Layer(OverlayKind::Metar));
    assert!(!gui.settings_visible());
    gui.open_settings();
    assert!(gui.settings_visible());
    gui.select_pane_props();
    assert_eq!(gui.panels.inspector_sel, InspectorSelection::PaneProps);
}

#[test]
fn what_the_application_reports_is_kept() {
    let mut gui = fresh();
    let fix = GpsFix { point: point(35, -97) };
    gui.set_gps_fix(fix, NOW);
    assert_eq!(gui.location.user_fix_at, Some(NOW));
    assert_eq!(gui.gps_fix(), Some(fix));
    gui.clear_gps_fix();
    assert_eq!(gui.gps_fix(), None);
    assert_eq!(gui.location.user_fix_at, None);
    gui.set_user_heading(90_000_000);
    assert_eq!(gui.user_heading(), Some(90_000_000));
    let volume = CurrentVolumeStamp { newest: stamp(MOMENT), base_started: None };
    gui.set_current_volumes(vec![SiteVolume { site: "KTLX".to_owned(), stamp: volume }]);
    assert_eq!(gui.current_volume_for("KTLX"), Some(volume));
    assert_eq!(gui.current_volume_for("KOUN"), None);
    gui.set_initial_site("KINX");
    assert_eq!(gui.panes[0].site, "KINX");
}

#[test]
fn a_layout_asked_for_too_many_panes_stays_as_it_is() {
    let mut gui = with_panes(2);
    gui.active_pane = 1;
    for count in [7, 9, usize::MAX] {
        assert!(!gui.set_pane_count(count));
        assert_eq!(gui.pane_count(), 2);
        assert_eq!(gui.remembered_pane_count(), 2);
        assert_eq!(gui.active_pane_idx(), 1);
    }
    assert!(!gui.set_pane_count(0));
    assert_eq!(gui.pane_count(), 1);
    assert!(gui.set_pane_count(6));
    assert_eq!(gui.pane_count(), 6);
}

#[test]
fn a_region_for_a_layout_too_large_is_dropped() {
    let region = VolumeRegion::new(point(35, -97), Measure::Micro(40_000_000)).unwrap();
    let mut gui = with_panes(2);
    gui.gestures.pending_region = Some(PendingRegion { source_pane: 0, region });
    gui.apply_pending_region(Some(RegionDestination::Grow(7)));
    assert_eq!(gui.pane_count(), 2);
    assert!(gui.panes.iter().all(|p| p.kind() == PaneKind::MapView));
}

#[test]
fn ten_presses_close_all_there_is_to_close() {
    let mut gui = fresh();
    gui.set_region_arm(true);
    gui.panels.drawer_open = true;
    gui.open_settings();
    gui.time_dialog.show = true;
    gui.features.ids = vec![3];
    gui.popups.catalog_open = true;
    gui.popups.menu_popup_open = true;
    gui.popups.menu_open = true;
    gui.popups.ui_faded = true;
    gui.gestures.section_edit_drag = Some(SectionEditDrag { pane_idx: 0 });
    for _ in 0..10 {
        assert!(gui.dismiss_top_layer(None));
    }
    assert!(!gui.dismiss_top_layer(None));
}
