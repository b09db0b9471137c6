use rustdar_egui::content::PaneContent;
use rustdar_egui::frames::{LoopFrame, RadarSite, RenderTarget};
use rustdar_egui::kinds::{PaneKind, RadarProduct, RenderView};
use rustdar_egui::loop_state::{LoopPhase, LoopPlaybackState};
use rustdar_egui::measure::Measure;
use rustdar_egui::overlays::OverlayKind;
use rustdar_egui::pane::{
    nearest_tilt, OverlayTexture, OverlayTextureCache, PaneState, RadarTextureMeta, TextureMap,
};
use rustdar_egui::scan::{ScanInfo, TiltMap};
use rustdar_egui::stamp::Stamp;
use rustdar_egui::table::Table;

fn site() -> RadarSite {
    RadarSite { name: "KTLX".to_owned(), lat: 35_330_000, lon: -97_270_000 }
}

fn stamp(secs: i64) -> Stamp {
    Stamp::new(1_785_030_510 + secs, 0).unwrap()
}

fn pixel(ctx: &egui::Context) -> egui::TextureHandle {
    let image = egui::ColorImage::from_rgba_unmultiplied([1, 1], &[255, 255, 255, 255]);
    ctx.load_texture("test", image, egui::TextureOptions::NEAREST)
}

fn drawn(ctx: &egui::Context, product: RadarProduct, elevation: i64) -> OverlayTextureCache {
    let mut cache = OverlayTextureCache::new();
    cache.current = Some(OverlayTexture {
        texture: pixel(ctx),
        radar_meta: Some(RadarTextureMeta { product, elevation: Measure::Micro(elevation) }),
    });
    cache
}

fn scan() -> ScanInfo {
    let mut product_elevations = TiltMap::new();
    product_elevations.insert(RadarProduct::Reflectivity, vec![500_000, 1_500_000]);
    ScanInfo {
        site: site(),
        timestamp: stamp(0),
        vcp_number: 212,
        available_products: vec![RadarProduct::Reflectivity],
        product_elevations,
        status: String::new(),
    }
}

fn looping(frames: usize, current_frame: usize) -> LoopPlaybackState {
    let mut state = LoopPlaybackState::new_for_loop(3600, &site(), RenderView::PlanView);
    state.phase = LoopPhase::Rendering;
    state.frames = (0..frames)
        .map(|i| LoopFrame {
            timestamp: stamp(i as i64),
            image: None,
            render_in_flight: false,
            render_failed: false,
        })
        .collect();
    state.current_frame = current_frame;
    state
}

#[test]
fn of_two_tilts_as_near_the_first_is_taken() {
    assert_eq!(nearest_tilt(&vec![500_000, 1_500_000], Measure::Micro(1_000_000)), Measure::Micro(500_000));
    assert_eq!(nearest_tilt(&vec![1_500_000, 500_000], Measure::Micro(1_000_000)), Measure::Micro(1_500_000));
    assert_eq!(nearest_tilt(&Vec::new(), Measure::Micro(1_000_000)), Measure::Micro(1_000_000));
    assert_eq!(nearest_tilt(&vec![i64::MIN, i64::MAX], Measure::Micro(5)), Measure::Micro(i64::MAX));
}

#[test]
fn an_image_of_another_selection_is_stale() {
    let ctx = egui::Context::default();
    let mut pane = PaneState::new();
    assert_eq!(pane.stale_image_on_screen(), None);
    pane.scan_info = Some(scan());
    pane.selected_elevation = Measure::Micro(600_000);
    *pane.overlay_cache_mut(OverlayKind::Radar) = drawn(&ctx, RadarProduct::Reflectivity, 500_000);
    assert_eq!(pane.stale_image_on_screen(), None);
    pane.selected_elevation = Measure::Micro(1_400_000);
    assert_eq!(pane.stale_image_on_screen(), Some((RadarProduct::Reflectivity, Measure::Micro(500_000))));
    pane.selected_product = RadarProduct::Velocity;
    assert_eq!(pane.stale_image_on_screen(), Some((RadarProduct::Reflectivity, Measure::Micro(500_000))));
    pane.loop_state = looping(2, 0);
    assert_eq!(pane.stale_image_on_screen(), None);
}

#[test]
fn clearing_graphics_drops_every_texture() {
    let ctx = egui::Context::default();
    let mut pane = PaneState::new();
    *pane.overlay_cache_mut(OverlayKind::Radar) = drawn(&ctx, RadarProduct::Reflectivity, 500_000);
    pane.set_kind(PaneKind::CrossSection);
    pane.cross_section_mut().unwrap().texture = Some(pixel(&ctx));
    pane.loop_state = looping(2, 0);
    pane.loop_state.frames[0].render_in_flight = true;
    let before = pane.radar_sites_render_gen;
    pane.clear_graphics();
    assert!(pane.overlay_cache(OverlayKind::Radar).unwrap().current.is_none());
    assert!(pane.cross_section().unwrap().texture.is_none());
    assert!(!pane.loop_state.frames[0].render_in_flight);
    assert_eq!(pane.radar_sites_render_gen, before + 1);
}

#[test]
fn asking_for_the_kind_a_pane_is_loses_nothing() {
    let mut pane = PaneState::new();
    pane.set_kind(PaneKind::Volume);
    pane.volume_mut().unwrap().hide_floor = true;
    pane.set_kind(PaneKind::Volume);
    assert!(pane.volume().unwrap().hide_floor);
    pane.set_kind(PaneKind::MapView);
    pane.set_kind(PaneKind::Volume);
    assert!(!pane.volume().unwrap().hide_floor);
}

#[test]
fn targets_name_each_other_or_neither() {
    let a = RenderTarget::new("KTLX", RadarProduct::Reflectivity, Measure::Micro(500_000));
    let b = RenderTarget::new("KTLX", RadarProduct::Reflectivity, Measure::Micro(510_000));
    let c = RenderTarget::new("KTLX", RadarProduct::Reflectivity, Measure::Micro(510_001));
    assert!(a.matches(&b) && b.matches(&a));
    assert!(!a.matches(&c) && !c.matches(&a));
}

#[test]
fn a_larger_budget_goes_on_where_a_smaller_one_stops() {
    let state = looping(7, 5);
    let large = state.render_set_indices(7);
    assert_eq!(large, vec![5, 6, 4, 0, 3, 1, 2]);
    for small in 0..7 {
        assert_eq!(state.render_set_indices(small), large[..small].to_vec());
    }
}

#[test]
fn a_loop_that_was_pointed_elsewhere_settles() {
    let mut state = looping(3, 0);
    assert!(!state.retarget_renders(RadarProduct::Velocity, Measure::Micro(500_000)));
    assert!(state.retarget_renders(RadarProduct::Reflectivity, Measure::Micro(500_000)));
    assert!(!state.retarget_renders(RadarProduct::Reflectivity, Measure::Micro(500_000)));
}

#[test]
fn a_table_keeps_one_value_per_key() {
    let mut table: Table<OverlayKind, bool> = Table::new();
    assert!(table.is_empty());
    table.insert(OverlayKind::Metar, true);
    table.insert(OverlayKind::Radar, true);
    table.insert(OverlayKind::Metar, false);
    assert_eq!(table.len(), 2);
    assert_eq!((table.key_at(0), *table.value_at(0)), (OverlayKind::Metar, false));
    assert_eq!(table.get(OverlayKind::Metar), Some(&false));
    assert_eq!(table.get(OverlayKind::Lightning), None);
    assert!(table.contains_key(OverlayKind::Radar));
}

#[test]
fn every_kind_of_layer_is_listed_once() {
    let all = OverlayKind::all();
    assert_eq!(all.len(), 12);
    for (i, kind) in all.iter().enumerate() {
        assert_eq!(all.iter().position(|k| k == kind), Some(i));
    }
}

#[test]
fn a_cache_is_written_in_place_and_made_where_there_is_none() {
    let mut pane = PaneState::new();
    assert!(pane.overlay_cache(OverlayKind::Metar).is_some());
    pane.overlay_textures = TextureMap::new();
    assert!(pane.overlay_cache(OverlayKind::Metar).is_none());
    let cache = pane.overlay_cache_mut(OverlayKind::Metar);
    assert!(cache.current.is_none() && !cache.render_in_flight);
    cache.render_in_flight = true;
    pane.overlay_cache_mut(OverlayKind::Radar);
    assert!(pane.overlay_cache(OverlayKind::Metar).unwrap().render_in_flight);
    assert!(pane.overlay_cache_mut(OverlayKind::Metar).render_in_flight);
    assert!(!pane.overlay_cache(OverlayKind::Radar).unwrap().render_in_flight);
}

#[test]
fn one_3d_view_in_place_of_another_ends_the_loop() {
    let mut pane = PaneState::new();
    pane.set_kind(PaneKind::Volume);
    pane.loop_state = LoopPlaybackState::new_for_loop(3600, &site(), RenderView::Volume);
    pane.set_kind(PaneKind::Volume);
    assert!(pane.loop_state.is_active());
    pane.set_content(PaneContent::for_kind(PaneKind::Volume));
    assert!(!pane.loop_state.is_active());
}

#[test]
fn content_of_the_same_flat_kind_keeps_the_loop() {
    for (kind, view) in [
        (PaneKind::MapView, RenderView::PlanView),
        (PaneKind::CrossSection, RenderView::CrossSection),
    ] {
        let mut pane = PaneState::new();
        pane.set_kind(kind);
        pane.loop_state = LoopPlaybackState::new_for_loop(3600, &site(), view);
        pane.set_content(PaneContent::for_kind(kind));
        assert!(pane.loop_state.is_active());
    }
}

#[test]
fn a_selection_that_is_no_number_takes_the_first_tilt() {
    assert_eq!(
        nearest_tilt(&vec![1_500_000, 500_000], Measure::NotFinite),
        Measure::Micro(1_500_000)
    );
    assert_eq!(nearest_tilt(&Vec::new(), Measure::NotFinite), Measure::NotFinite);
}

#[test]
fn a_target_without_an_elevation_names_nothing() {
    let lost = RenderTarget::new("KTLX", RadarProduct::Reflectivity, Measure::NotFinite);
    assert!(!lost.matches(&lost));
    let mut state = looping(2, 0);
    assert!(!state.retarget_renders(RadarProduct::Velocity, Measure::NotFinite));
    assert!(state.retarget_renders(RadarProduct::Velocity, Measure::NotFinite));
}
