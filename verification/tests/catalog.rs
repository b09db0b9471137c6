use rustdar_egui::actions::{GuiAction, RadarConfig};
use rustdar_egui::catalog::{
    group_heading, matches_query, normalized_query, shown_tiles, survives_filter, tile_group,
};
use rustdar_egui::gui::{Gui, InspectorSelection, Startup};
use rustdar_egui::kinds::{PaneKind, RadarProduct};
use rustdar_egui::measure::Measure;
use rustdar_egui::overlays::{LayerHandlers, LayerSetting, OverlayKind};
use rustdar_egui::presets::{builtin_presets, preset_hover, PresetConfig, PresetPane, BASE_TILT};
use rustdar_egui::scan::ProductRanks;
use rustdar_egui::stamp::Stamp;
use rustdar_egui::tiles::{CatalogPress, TileLabels};
use rustdar_egui::text::{contains_text, decimal_text, joined, same_text, trimmed};

fn fresh() -> Gui {
    let mut handlers = LayerHandlers::new();
    for kind in OverlayKind::all() {
        handlers.set_enabled(kind, kind == OverlayKind::Radar);
    }
    Gui::new(Startup {
        config: RadarConfig {
            site: "KTLX".to_owned(),
            timestamp: Stamp::new(1_785_030_510, 0).unwrap(),
        },
        notifier_endpoint: "https://notify.example".to_owned(),
        handlers,
        ranks: ProductRanks::new(),
        codes: ProductRanks::new(),
    })
}

fn labels(list: &[&str]) -> Vec<String> {
    list.iter().map(|s| (*s).to_owned()).collect()
}

fn fetches(actions: &[GuiAction]) -> Vec<(OverlayKind, usize)> {
    actions
        .iter()
        .filter_map(|a| match a {
            GuiAction::FetchOverlay { kind, pane_idx } => Some((*kind, *pane_idx)),
            _ => None,
        })
        .collect()
}

#[test]
fn texts_are_put_together_and_taken_apart() {
    assert_eq!(decimal_text(0), "0");
    assert_eq!(decimal_text(1565), "1565");
    assert_eq!(decimal_text(u64::MAX), "18446744073709551615");
    assert_eq!(joined("a", "b"), "ab");
    assert!(same_text("KTLX", "KTLX"));
    assert!(!same_text("KTLX", "KTL"));
    assert_eq!(trimmed(" \t\u{a0}a b\u{3000}\n"), "a b");
    assert_eq!(trimmed("  "), "");
    assert!(contains_text("reflectivity", "flect"));
    assert!(contains_text("x", ""));
    assert!(!contains_text("flec", "flect"));
}

#[test]
fn white_space_is_what_str_trim_takes() {
    for code in 0..=0x3100u32 {
        if let Some(c) = char::from_u32(code) {
            let text = format!("{c}x{c}");
            assert_eq!(trimmed(text.as_str()), text.trim());
        }
    }
}

#[test]
fn a_search_ignores_case_and_surrounding_space() {
    assert_eq!(normalized_query("  ReFL\t"), "refl");
    assert_eq!(normalized_query(" \u{c4}RGER "), "\u{e4}rger");
    assert!(matches_query("refl", "Reflectivity"));
    assert!(matches_query("REFL", "Reflectivity"));
    assert!(matches_query("RADAR", "Radar Sites") && matches_query("radar", "Radar Sites"));
    assert!(matches_query("\u{c4}RG", "\u{e4}rger"));
    assert!(!matches_query("RADAR", "Lightning"));
    assert_eq!(shown_tiles("VELO", &labels(&["Velocity", "Reflectivity"])), vec![0]);
    assert!(survives_filter("rain", "rainfall"));
    assert!(!survives_filter("rain", "aviation"));
}

#[test]
fn a_blank_search_shows_every_tile() {
    let all = labels(&["Reflectivity", "Velocity"]);
    assert_eq!(shown_tiles("", &all), vec![0, 1]);
    assert!(survives_filter("", ""));
    assert!(matches_query("", "anything"));
}

#[test]
fn a_search_keeps_the_matching_tiles_in_order() {
    let all = labels(&["Velocity", "Reflectivity", "Storm Relative Velocity"]);
    assert_eq!(shown_tiles("velocity", &all), vec![0, 2]);
    let group = tile_group("Products", "velocity", &all).unwrap();
    assert_eq!(group.heading, "Products (2)");
    assert_eq!(group.tiles, vec![0, 2]);
    assert!(tile_group("Products", "lightning", &all).is_none());
    assert_eq!(group_heading("Layers", 12), "Layers (12)");
}

#[test]
fn presets_are_searched_with_the_built_in_ones_first() {
    let mut gui = fresh();
    gui.catalog.presets.push(PresetConfig { name: "My Rain".to_owned(), ..PresetConfig::default() });
    let all = gui.preset_group("").unwrap();
    assert_eq!(all.heading, "Presets (4)");
    assert_eq!((all.builtin, all.user, all.offer_save), (vec![0, 1, 2], vec![0], true));
    let rain = gui.preset_group("rain").unwrap();
    assert_eq!(rain.heading, "Presets (2)");
    assert_eq!((rain.builtin, rain.user, rain.offer_save), (vec![1], vec![0], false));
    assert!(gui.preset_group("nothing").is_none());
}

#[test]
fn the_built_in_presets_are_three() {
    let presets = builtin_presets();
    let names: Vec<&str> = presets.iter().map(|p| p.name.as_str()).collect();
    assert_eq!(names, ["Severe Wx", "Rainfall", "Aviation"]);
    let counts: Vec<usize> = presets.iter().map(|p| p.pane_count).collect();
    assert_eq!(counts, [4, 2, 3]);
    for preset in &presets {
        assert_eq!(preset.panes.len(), preset.pane_count);
        assert!(preset.panes.iter().all(|p| p.elevation == Measure::Micro(BASE_TILT)));
        assert!(preset.overlays.contains(&OverlayKind::Radar));
    }
    assert_eq!(presets[0].panes[3].product, RadarProduct::NormalizedRotation);
}

#[test]
fn a_preset_says_what_it_builds() {
    let presets = builtin_presets();
    assert_eq!(
        preset_hover(&presets[1], &labels(&["Rain Rate", "VIL"])),
        "2 panes: Rain Rate \u{b7} VIL"
    );
    let one = PresetConfig {
        panes: vec![PresetPane::default()],
        ..PresetConfig::default()
    };
    assert_eq!(preset_hover(&one, &labels(&["Reflectivity"])), "1 pane: Reflectivity");
    assert_eq!(preset_hover(&one, &Vec::new()), "1 pane: ");
}

#[test]
fn a_saved_view_is_applied_again() {
    let mut gui = fresh();
    assert!(gui.set_pane_count(2));
    gui.panes[0].selected_product = RadarProduct::Velocity;
    gui.panes[0].selected_elevation = Measure::Micro(1_500_000);
    gui.panes[1].selected_product = RadarProduct::EchoTops;
    assert!(gui.is_sync_layers());
    gui.catalog.save_name = "  Mine ".to_owned();
    gui.catalog.saving = true;
    assert!(gui.save_current_view());
    assert_eq!(gui.catalog.save_name, "");
    assert!(!gui.catalog.saving);
    let saved = gui.catalog.presets[0].clone();
    assert_eq!(saved.name, "Mine");
    assert_eq!(saved.overlays, vec![OverlayKind::Radar]);

    assert!(gui.set_pane_count(1));
    gui.panes[0].selected_product = RadarProduct::Reflectivity;
    gui.panes[0].set_kind(PaneKind::CrossSection);
    let mut actions = Vec::new();
    gui.apply_preset(&saved, &mut actions);
    assert_eq!(gui.pane_count(), 2);
    assert_eq!(gui.panes[0].kind(), PaneKind::MapView);
    assert_eq!(gui.panes[0].selected_product, RadarProduct::Velocity);
    assert_eq!(gui.panes[0].selected_elevation, Measure::Micro(1_500_000));
    assert_eq!(gui.panes[1].selected_product, RadarProduct::EchoTops);
    for kind in OverlayKind::all() {
        assert_eq!(gui.panes[1].is_overlay_enabled(kind), kind == OverlayKind::Radar);
    }
}

#[test]
fn a_preset_is_saved_in_place_of_one_of_its_name() {
    let mut gui = fresh();
    gui.catalog.save_name = "A".to_owned();
    assert!(gui.save_current_view());
    gui.catalog.save_name = "B".to_owned();
    assert!(gui.save_current_view());
    gui.panes[0].selected_product = RadarProduct::Velocity;
    gui.catalog.save_name = "A".to_owned();
    assert!(gui.save_current_view());
    let names: Vec<&str> = gui.catalog.presets.iter().map(|p| p.name.as_str()).collect();
    assert_eq!(names, ["A", "B"]);
    assert_eq!(gui.catalog.presets[0].panes[0].product, RadarProduct::Velocity);
    gui.delete_preset(0);
    assert_eq!(gui.catalog.presets.len(), 1);
    assert_eq!(gui.catalog.presets[0].name, "B");
}

#[test]
fn a_blank_name_saves_nothing() {
    let mut gui = fresh();
    gui.catalog.save_name = " \t ".to_owned();
    gui.catalog.saving = true;
    assert!(!gui.save_current_view());
    assert!(gui.catalog.presets.is_empty());
    assert!(gui.catalog.saving);
}

#[test]
fn a_preset_fetches_each_layer_once_and_lets_grids_go() {
    let mut gui = fresh();
    assert!(gui.set_pane_count(2));
    gui.panes[1].set_kind(PaneKind::Volume);
    let mut actions = Vec::new();
    gui.apply_preset(&builtin_presets()[1], &mut actions);
    assert!(matches!(actions[0], GuiAction::ReleaseVolume { pane_idx: 1 }));
    assert_eq!(
        fetches(&actions),
        vec![
            (OverlayKind::Radar, 0),
            (OverlayKind::NwsAlerts, 0),
            (OverlayKind::CityLabels, 0),
            (OverlayKind::ColorScale, 0),
        ]
    );
}

#[test]
fn a_preset_keeps_the_options_of_its_layers() {
    let mut gui = fresh();
    let mut pane = std::mem::take(&mut gui.panes[0]);
    pane.overlay_configs.insert(
        OverlayKind::NwsAlerts,
        LayerSetting { enabled: false, options: "warnings".to_owned() },
    );
    gui.panes[0] = pane;
    gui.apply_preset(&builtin_presets()[1], &mut Vec::new());
    let setting = gui.panes[0].overlay_configs.get(OverlayKind::NwsAlerts).unwrap();
    assert!(setting.enabled);
    assert_eq!(setting.options, "warnings");
}

#[test]
fn a_preset_is_held_to_what_the_width_offers() {
    let mut gui = fresh();
    let preset = PresetConfig { pane_count: 99, ..PresetConfig::default() };
    gui.apply_preset(&preset, &mut Vec::new());
    assert_eq!(gui.pane_count(), gui.platform.width.max_panes());
    let none = PresetConfig { pane_count: 0, ..PresetConfig::default() };
    gui.apply_preset(&none, &mut Vec::new());
    assert_eq!(gui.pane_count(), 1);
}

#[test]
fn a_layer_tile_turns_its_layer_on() {
    let mut gui = fresh();
    let mut actions = Vec::new();
    gui.catalog_apply_overlay(OverlayKind::Lightning, &mut actions);
    assert!(gui.panes[0].is_overlay_enabled(OverlayKind::Lightning));
    assert_eq!(fetches(&actions), vec![(OverlayKind::Lightning, 0)]);
    assert!(gui.panels.insp_open);
    assert_eq!(gui.panels.inspector_sel, InspectorSelection::Layer(OverlayKind::Lightning));
}

#[test]
fn a_product_tile_aims_the_pane_and_asks_for_a_map() {
    let mut gui = fresh();
    gui.panes[0].selected_elevation = Measure::Micro(2_400_000);
    gui.panes[0].set_kind(PaneKind::Volume);
    gui.catalog_apply_product(RadarProduct::Velocity);
    assert_eq!(gui.panes[0].selected_product, RadarProduct::Velocity);
    assert_eq!(gui.panes[0].selected_elevation, Measure::Micro(0));
    assert!(gui.panes[0].is_overlay_enabled(OverlayKind::Radar));
    assert_eq!(gui.panes[0].kind(), PaneKind::Volume);
    let asked = gui.gestures.pending_pane_kind.unwrap();
    assert_eq!((asked.pane_idx, asked.kind), (0, PaneKind::MapView));
    gui.panes[0].selected_elevation = Measure::Micro(1_500_000);
    gui.catalog_apply_product(RadarProduct::Velocity);
    assert_eq!(gui.panes[0].selected_elevation, Measure::Micro(1_500_000));
}

#[test]
fn a_parameter_tile_hands_its_setting_to_the_model_layer() {
    let mut gui = fresh();
    let mut actions = Vec::new();
    let setting = LayerSetting { enabled: true, options: "sbcape".to_owned() };
    gui.catalog_apply_hrrr(setting, true, &mut actions);
    let kept = gui.panes[0].overlay_configs.get(OverlayKind::ModelData).unwrap();
    assert_eq!(kept.options, "sbcape");
    assert!(gui.panes[0].is_overlay_enabled(OverlayKind::ModelData));
    assert_eq!(fetches(&actions), vec![(OverlayKind::ModelData, 0)]);
    assert_eq!(gui.panels.inspector_sel, InspectorSelection::Layer(OverlayKind::ModelData));
}

#[test]
fn the_catalog_shows_what_its_search_leaves() {
    let mut gui = fresh();
    let tiles = TileLabels {
        overlays: labels(&["Radar", "Lightning"]),
        products: labels(&["Rain Rate", "Velocity"]),
        parameters: labels(&["Surface-Based CIN"]),
    };
    let all = gui.catalog_groups(&tiles);
    assert_eq!(all.overlays.unwrap().heading, "Overlays (2)");
    assert_eq!(all.products.unwrap().heading, "Radar products (2)");
    assert_eq!(all.parameters.unwrap().heading, "HRRR parameters (1)");
    assert_eq!(all.presets.unwrap().heading, "Presets (3)");
    gui.catalog.query = " RAIN ".to_owned();
    let rain = gui.catalog_groups(&tiles);
    assert!(rain.overlays.is_none() && rain.parameters.is_none());
    assert_eq!(rain.products.unwrap().tiles, vec![0]);
    assert_eq!(rain.presets.unwrap().builtin, vec![1]);
    assert_eq!(gui.catalog_groups_for("radar", &tiles).overlays.unwrap().tiles, vec![0]);
}

#[test]
fn a_pressed_tile_shuts_the_catalog() {
    let mut gui = fresh();
    let mut actions = Vec::new();
    gui.catalog.save_name = "Mine".to_owned();
    assert!(gui.save_current_view());
    let setting = LayerSetting { enabled: true, options: "sbcape".to_owned() };
    for press in [
        CatalogPress::BuiltIn(2),
        CatalogPress::Preset(0),
        CatalogPress::Overlay(OverlayKind::Metar),
        CatalogPress::Product(RadarProduct::Velocity),
        CatalogPress::Parameter { setting, wants_fetch: true },
        CatalogPress::Close,
    ] {
        gui.popups.catalog_open = true;
        gui.press_catalog(press, &mut actions);
        assert!(!gui.popups.catalog_open);
    }
    assert_eq!(gui.pane_count(), 1);
    assert_eq!(gui.panes[0].selected_product, RadarProduct::Velocity);
    assert!(gui.panes[0].is_overlay_enabled(OverlayKind::ModelData));
    gui.popups.catalog_open = true;
    gui.press_catalog(CatalogPress::SaveTile, &mut actions);
    assert!(gui.catalog.saving);
    gui.press_catalog(CatalogPress::Delete(0), &mut actions);
    assert!(gui.catalog.presets.is_empty() && gui.popups.catalog_open);
}

#[test]
fn a_preset_shows_each_pane_its_own_product_while_layers_are_shared() {
    let mut gui = fresh();
    assert!(gui.is_sync_layers());
    gui.panes[0].set_kind(PaneKind::CrossSection);
    let preset = &builtin_presets()[0];
    gui.apply_preset(preset, &mut Vec::new());
    assert_eq!(gui.pane_count(), 4);
    let products: Vec<RadarProduct> = gui.panes().iter().map(|p| p.selected_product).collect();
    assert_eq!(
        products,
        [
            RadarProduct::Reflectivity,
            RadarProduct::Velocity,
            RadarProduct::StormRelativeVelocity,
            RadarProduct::NormalizedRotation,
        ]
    );
    for pane in gui.panes() {
        assert_eq!(pane.kind(), PaneKind::MapView);
        assert_eq!(pane.selected_elevation, Measure::Micro(500_000));
        for kind in OverlayKind::all() {
            assert_eq!(pane.is_overlay_enabled(kind), preset.overlays.contains(&kind));
        }
    }
}

#[test]
fn a_preset_moves_the_linked_panes_to_the_active_panes_site() {
    let mut gui = fresh();
    assert!(gui.set_pane_count(2));
    gui.panes[0].site = "KOUN".to_owned();
    gui.apply_preset(&builtin_presets()[1], &mut Vec::new());
    assert_eq!(gui.panes[1].site, "KOUN");
    assert_eq!(gui.panes[1].selected_product, RadarProduct::VerticallyIntegratedLiquid);
}

#[test]
fn the_case_of_letters_makes_no_difference() {
    for query in ["", "ity", "ITY", "Refl", "x"] {
        let found = matches_query(query, "Reflectivity");
        assert_eq!(matches_query(query, "REFLECTIVITY"), found);
        assert_eq!(matches_query(query.to_uppercase().as_str(), "Reflectivity"), found);
    }
    let query = "flecti";
    for i in 0..=query.len() {
        for j in i..=query.len() {
            assert!(matches_query(&query[i..j], "Reflectivity"));
        }
    }
}

#[test]
fn every_ascii_letter_is_lowered_on_its_own() {
    let all: String = (0u8..128).map(char::from).collect();
    let small: String = (0u8..128).map(|c| char::from(c.to_ascii_lowercase())).collect();
    let typed = format!("x{all}x");
    assert_eq!(normalized_query(typed.as_str()), format!("x{small}x"));
}
