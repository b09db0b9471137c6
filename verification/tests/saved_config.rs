use rustdar_egui::actions::RadarConfig;
use rustdar_egui::camera::OrbitDelta;
use rustdar_egui::config::{
    content_config, default_site, default_time_step, default_true, reconcile_draw_order,
    restore_content, ContentConfig, CrossSectionConfig, PaneConfig, SectionLineConfig,
    VolumeConfig, VolumeRegionConfig,
};
use rustdar_egui::content::PaneContent;
use rustdar_egui::geo::{GeoPoint, SectionLine, VolumeRegion};
use rustdar_egui::gui::{Gui, Startup, StormMotionOverride};
use rustdar_egui::kinds::{PaneKind, RadarProduct, VolumeViewMode};
use rustdar_egui::measure::{Exact, Measure};
use rustdar_egui::overlays::{LayerHandlers, LayerSetting, OverlayKind};
use rustdar_egui::presets::{PresetConfig, PresetPane};
use rustdar_egui::scan::ProductRanks;
use rustdar_egui::stamp::Stamp;
use rustdar_egui::ui_config::{UiConfig, VolumeAlphaConfig, VolumeIsoConfig, CURVE_LEN};
use rustdar_egui::viewport::MapPoint;

fn num(x: f64) -> Measure {
    Measure::Micro((x * 1e6).round() as i64)
}

/// A number by its place among all floating-point numbers.
fn exact(x: f64) -> Exact {
    let place = x.abs().to_bits() as i64;
    Exact::At(if x < 0.0 { -place } else { place })
}

fn point(lat: f64, lon: f64) -> GeoPoint {
    GeoPoint { lat: exact(lat), lon: exact(lon) }
}

fn fresh() -> Gui {
    let mut handlers = LayerHandlers::new();
    for kind in OverlayKind::all() {
        handlers.set_enabled(kind, kind == OverlayKind::Radar);
    }
    Gui::new(Startup {
        config: RadarConfig {
            site: "KTLX".to_owned(),
            timestamp: Stamp::new(1_785_030_510, 0).unwrap(),
        },
        notifier_endpoint: "https://notify.example".to_owned(),
        handlers,
        ranks: ProductRanks::new(),
        codes: ProductRanks::new(),
    })
}

#[test]
fn a_sections_line_comes_back() {
    let line = SectionLine::new(point(35.0, -98.0), point(36.0, -97.0));
    let mut content = PaneContent::for_kind(PaneKind::CrossSection);
    if let PaneContent::CrossSection(section) = &mut content {
        section.line = line;
        section.source_pane = Some(1);
        section.detail_open = true;
    }
    match restore_content(&content_config(&content), 2) {
        PaneContent::CrossSection(section) => {
            assert_eq!(section.line, line);
            assert_eq!(section.source_pane, Some(1));
            assert!(!section.detail_open);
        }
        _ => panic!("the pane came back as another kind"),
    }
    match restore_content(&content_config(&content), 1) {
        PaneContent::CrossSection(section) => assert_eq!(section.source_pane, None),
        _ => panic!("the pane came back as another kind"),
    }
}

#[test]
fn a_3d_panes_pose_and_region_come_back() {
    let mut content = PaneContent::for_kind(PaneKind::Volume);
    if let PaneContent::Volume(volume) = &mut content {
        volume.camera.nudge(OrbitDelta { yaw_deg: num(33.0), ..OrbitDelta::default() });
        volume.region = VolumeRegion::new(point(35.3, -97.3), num(40.0));
        volume.source_pane = Some(0);
        volume.view_mode = VolumeViewMode::Isosurface;
    }
    match (restore_content(&content_config(&content), 1), content) {
        (PaneContent::Volume(back), PaneContent::Volume(volume)) => {
            assert_eq!(back.camera, volume.camera);
            assert_eq!(back.region, volume.region);
            assert_eq!(back.source_pane, Some(0));
            assert_eq!(back.view_mode, VolumeViewMode::Isosurface);
        }
        _ => panic!("the pane came back as another kind"),
    }
}

#[test]
fn a_map_comes_back_as_a_map() {
    let saved = content_config(&PaneContent::for_kind(PaneKind::MapView));
    assert_eq!(restore_content(&saved, 1).kind(), PaneKind::MapView);
}

#[test]
fn a_pane_whose_state_cannot_be_used_comes_back_as_a_map() {
    let section = |cross_section| ContentConfig {
        kind: PaneKind::CrossSection,
        cross_section,
        volume: None,
    };
    let volume = |volume| ContentConfig { kind: PaneKind::Volume, cross_section: None, volume };
    let bent = SectionLineConfig { a: point(95.0, 0.0), b: point(36.0, -97.0) };
    let lost = VolumeConfig { yaw_deg: Measure::NotFinite, ..VolumeConfig::default() };
    for saved in [
        section(None),
        section(Some(CrossSectionConfig { line: Some(bent), source_pane: Some(0) })),
        volume(None),
        volume(Some(lost)),
    ] {
        assert_eq!(restore_content(&saved, 1).kind(), PaneKind::MapView);
    }
    let unaimed = section(Some(CrossSectionConfig { line: None, source_pane: None }));
    assert_eq!(restore_content(&unaimed, 1).kind(), PaneKind::CrossSection);
}

#[test]
fn a_region_that_cannot_be_used_costs_the_region_alone() {
    let saved = ContentConfig {
        kind: PaneKind::Volume,
        cross_section: None,
        volume: Some(VolumeConfig {
            pitch_deg: num(80.0),
            region: Some(VolumeRegionConfig {
                centre: point(0.0, 500.0),
                half_width_km: num(40.0),
            }),
            ..VolumeConfig::default()
        }),
    };
    match restore_content(&saved, 1) {
        PaneContent::Volume(volume) => {
            assert_eq!(volume.camera.pitch_deg(), 80_000_000);
            assert_eq!(volume.region, None);
        }
        _ => panic!("the pane came back as another kind"),
    }
}

#[test]
fn a_draw_order_gets_the_kinds_it_lacks() {
    let saved = vec![OverlayKind::ColorScale, OverlayKind::Radar];
    let order = reconcile_draw_order(&saved);
    assert_eq!(&order[..2], &saved[..]);
    assert_eq!(order.len(), OverlayKind::all().len());
    for kind in OverlayKind::all() {
        assert_eq!(order.iter().filter(|k| **k == kind).count(), 1);
    }
}

#[test]
fn a_complete_draw_order_stands() {
    let mut saved = OverlayKind::all();
    saved.reverse();
    assert_eq!(reconcile_draw_order(&saved), saved);
}

#[test]
fn what_a_file_leaves_out_has_defaults() {
    assert_eq!(default_site(), "");
    assert_eq!(default_time_step(), 600);
    assert!(default_true());
    let config = UiConfig::default();
    assert_eq!(config.pane_count, 1);
    assert_eq!(config.panes.len(), 1);
    assert_eq!(config.loop_lookback_secs, 3600);
    assert!(config.auto_poll && config.viewport_sync && config.sync_layers);
    for pane in [&config.panes[0], &PaneConfig::default()] {
        assert_eq!(pane.selected_product, RadarProduct::Reflectivity);
        assert_eq!(pane.selected_elevation, num(0.0));
        assert_eq!(pane.legacy_radar, Some(true));
        assert_eq!(pane.site, "");
        assert_eq!(pane.time_step_secs, 600);
        assert!(pane.time_link && pane.viewport_link && pane.layer_link);
        assert_eq!(pane.draw_order, OverlayKind::all());
    }
}

#[test]
fn the_settings_come_back_from_a_save() {
    let mut gui = fresh();
    assert!(gui.set_pane_count(3));
    gui.active_pane = 2;
    gui.settings.viewport_sync = false;
    gui.settings.sync_layers = false;
    gui.settings.pin_pane_controls = true;
    gui.settings.loop_lookback_secs = 7200;
    gui.settings.storm_motion_override = StormMotionOverride {
        enabled: true,
        speed_kt: num(35.0),
        direction_deg: num(210.0),
    };
    gui.set_live_chunks(false);
    gui.set_notifier_endpoint("https://mine.example".to_owned());
    gui.auto_poll.enabled = false;
    gui.radar.config.site = "KOUN".to_owned();
    gui.catalog.save_name = "Mine".to_owned();
    assert!(gui.save_current_view());

    let mut other = fresh();
    other.load_ui_config(&gui.ui_config());
    assert_eq!(other.pane_count(), 3);
    assert_eq!(other.active_pane_idx(), 2);
    assert!(!other.is_viewport_sync());
    assert!(!other.is_sync_layers());
    assert!(other.settings.pin_pane_controls);
    assert_eq!(other.settings.loop_lookback_secs, 7200);
    assert_eq!(other.settings.storm_motion_override, gui.settings.storm_motion_override);
    assert!(!other.live_chunks_enabled());
    assert_eq!(other.notifier_endpoint(), "https://mine.example");
    assert!(!other.auto_poll.enabled);
    assert_eq!(other.get_radar_config().site, "KOUN");
    assert_eq!(other.catalog.presets[0].name, "Mine");
}

#[test]
fn what_the_panes_look_at_comes_back_from_a_save() {
    let mut gui = fresh();
    gui.settings.sync_layers = false;
    assert!(gui.set_pane_count(2));
    let pane = gui.pane_mut(1).unwrap();
    pane.site = "KINX".to_owned();
    pane.selected_product = RadarProduct::Velocity;
    pane.selected_elevation = num(1.5);
    pane.time_step_secs = 1800;
    pane.time_link = false;
    pane.layer_link = false;
    pane.viewport_link = false;
    pane.draw_order.reverse();
    pane.viewport.set_zoom(num(9.0)).unwrap();
    pane.viewport.center_at(MapPoint { lat: 35_000_000, lon: -97_000_000 });
    pane.set_kind(PaneKind::Volume);
    pane.overlay_configs.insert(
        OverlayKind::NwsAlerts,
        LayerSetting { enabled: true, options: "warnings".to_owned() },
    );

    let mut other = fresh();
    other.load_ui_config(&gui.ui_config());
    let back = other.pane(1).unwrap();
    assert_eq!(back.site, "KINX");
    assert_eq!(back.selected_product, RadarProduct::Velocity);
    assert_eq!(back.selected_elevation, num(1.5));
    assert_eq!(back.time_step_secs, 1800);
    assert!(!back.time_link && !back.layer_link && !back.viewport_link);
    assert_eq!(back.draw_order, gui.pane(1).unwrap().draw_order);
    assert_eq!(back.viewport.zoom(), 9_000_000);
    assert_eq!(back.viewport.detached(), Some(MapPoint { lat: 35_000_000, lon: -97_000_000 }));
    assert_eq!(back.kind(), PaneKind::Volume);
    assert_eq!(back.overlay_configs.get(OverlayKind::NwsAlerts).unwrap().options, "warnings");
}

#[test]
fn curves_and_thresholds_come_back_from_a_save() {
    let mut gui = fresh();
    let mut curve: Vec<u8> = (0..CURVE_LEN).map(|i| i as u8).collect();
    curve[200] = 7;
    gui.settings.volume_alpha.insert(RadarProduct::Reflectivity, curve.clone());
    gui.settings.volume_iso.insert(RadarProduct::Velocity, 42_000_000);
    let mut other = fresh();
    other.load_ui_config(&gui.ui_config());
    assert_eq!(other.settings.volume_alpha.get(RadarProduct::Reflectivity), Some(&curve));
    assert_eq!(other.settings.volume_alpha.get(RadarProduct::Velocity), None);
    assert_eq!(other.settings.volume_iso.get(RadarProduct::Velocity), Some(&42_000_000));
    assert_eq!(other.settings.volume_iso.len(), 1);
}

#[test]
fn an_entry_that_cannot_be_placed_is_dropped() {
    let mut gui = fresh();
    let mut saved = gui.ui_config();
    saved.volume_alpha.push(VolumeAlphaConfig {
        product: Some(RadarProduct::Reflectivity),
        alpha: vec![1; CURVE_LEN - 1],
    });
    saved.volume_alpha.push(VolumeAlphaConfig { product: None, alpha: vec![1; CURVE_LEN] });
    saved.volume_alpha.push(VolumeAlphaConfig {
        product: Some(RadarProduct::Velocity),
        alpha: vec![9; CURVE_LEN],
    });
    saved.volume_iso.push(VolumeIsoConfig {
        product: Some(RadarProduct::EchoTops),
        threshold: Measure::NotFinite,
    });
    saved.volume_iso.push(VolumeIsoConfig { product: None, threshold: num(1.0) });
    gui.load_ui_config(&saved);
    assert_eq!(gui.settings.volume_alpha.len(), 1);
    let kept = gui.settings.volume_alpha.get(RadarProduct::Velocity).unwrap();
    assert_eq!((kept[0], kept[1]), (0, 9));
    assert!(gui.settings.volume_iso.is_empty());
}

#[test]
fn a_pane_count_and_an_active_pane_out_of_range_are_held() {
    let mut gui = fresh();
    let mut saved = UiConfig::default();
    saved.pane_count = 99;
    saved.active_pane = 50;
    gui.load_ui_config(&saved);
    assert_eq!(gui.pane_count(), 6);
    assert!(gui.active_pane_idx() < gui.panes.len());
}

#[test]
fn an_endpoint_that_is_blank_is_the_default_one() {
    let mut gui = fresh();
    assert_eq!(gui.notifier_endpoint(), "https://notify.example");
    gui.set_notifier_endpoint("https://mine.example".to_owned());
    assert_eq!(gui.notifier_endpoint(), "https://mine.example");
    gui.set_notifier_endpoint(String::new());
    assert_eq!(gui.notifier_endpoint(), "https://notify.example");
}

#[test]
fn a_storm_motion_that_is_no_motion_is_not_applied() {
    let off = StormMotionOverride::default();
    assert!(off.sample().is_none());
    let on = StormMotionOverride { enabled: true, ..off };
    let sample = on.sample().unwrap();
    assert_eq!((sample.speed_kt, sample.direction_deg), (30_000_000, 240_000_000));
    let lost = StormMotionOverride { speed_kt: Measure::NotFinite, ..on };
    assert!(lost.sample().is_none());
    assert_eq!(lost.to_saved().speed_kt, num(30.0));
}

fn coded() -> Gui {
    let mut gui = fresh();
    for (code, product) in
        [(153, RadarProduct::Reflectivity), (154, RadarProduct::Velocity), (41, RadarProduct::EchoTops)]
    {
        gui.codes.insert(product, code);
    }
    gui
}

#[test]
fn two_saves_agree_whatever_order_things_were_set_in() {
    let products = [RadarProduct::Reflectivity, RadarProduct::Velocity, RadarProduct::EchoTops];
    let mut one = coded();
    let mut other = coded();
    for product in products {
        one.settings.volume_alpha.insert(product, vec![1; CURVE_LEN]);
        one.settings.volume_iso.insert(product, 5_000_000);
    }
    for product in products.into_iter().rev() {
        other.settings.volume_alpha.insert(product, vec![1; CURVE_LEN]);
        other.settings.volume_iso.insert(product, 5_000_000);
    }
    let by_code =
        [RadarProduct::EchoTops, RadarProduct::Reflectivity, RadarProduct::Velocity].map(Some);
    for saved in [one.ui_config(), one.ui_config(), other.ui_config()] {
        let curves: Vec<Option<RadarProduct>> =
            saved.volume_alpha.iter().map(|c| c.product).collect();
        let thresholds: Vec<Option<RadarProduct>> =
            saved.volume_iso.iter().map(|t| t.product).collect();
        assert_eq!(curves, by_code);
        assert_eq!(thresholds, by_code);
    }
}

#[test]
fn numbers_that_are_none_come_back_as_their_defaults() {
    let mut gui = fresh();
    gui.settings.loop_speed_fps = Measure::NotFinite;
    gui.settings.storm_motion_override = StormMotionOverride {
        enabled: true,
        speed_kt: Measure::NotFinite,
        direction_deg: Measure::NotFinite,
    };
    gui.panes[0].selected_elevation = Measure::NotFinite;
    gui.catalog.presets.push(PresetConfig {
        panes: vec![PresetPane { elevation: Measure::NotFinite, ..PresetPane::default() }],
        ..PresetConfig::default()
    });
    let mut other = fresh();
    other.load_ui_config(&gui.ui_config());
    assert_eq!(other.panes[0].selected_elevation, num(0.0));
    assert_eq!(other.catalog.presets[0].panes[0].elevation, num(0.0));
    assert_eq!(other.settings.loop_speed_fps, num(5.0));
    assert_eq!(other.settings.storm_motion_override.speed_kt, num(30.0));
    assert_eq!(other.settings.storm_motion_override.direction_deg, num(240.0));
    assert!(other.settings.storm_motion_override.enabled);
    assert_eq!(gui.settings.loop_speed_fps, Measure::NotFinite);
}
