use rustdar_egui::actions::RadarConfig;
use rustdar_egui::frames::RadarSite;
use rustdar_egui::gui::{Gui, Startup};
use rustdar_egui::kinds::RadarProduct;
use rustdar_egui::overlays::LayerHandlers;
use rustdar_egui::scan::{ProductRanks, ScanInfo, TiltMap};
use rustdar_egui::stamp::Stamp;

fn deg(x: f64) -> i64 {
    (x * 1e6).round() as i64
}

fn degs(list: &[f64]) -> Vec<i64> {
    list.iter().map(|x| deg(*x)).collect()
}

fn stamp(moment: chrono::NaiveDateTime) -> Stamp {
    let moment = moment.and_utc();
    Stamp::new(moment.timestamp(), moment.timestamp_subsec_nanos()).unwrap()
}

fn at(minute: u32) -> Stamp {
    stamp(
        chrono::NaiveDate::from_ymd_opt(2026, 7, 28)
            .unwrap()
            .and_hms_opt(18, minute, 0)
            .unwrap(),
    )
}

fn fresh() -> Gui {
    let mut ranks = ProductRanks::new();
    ranks.insert(RadarProduct::Reflectivity, 0);
    ranks.insert(RadarProduct::Velocity, 1);
    ranks.insert(RadarProduct::StormRelativeVelocity, 2);
    Gui::new(Startup {
        config: RadarConfig { site: "KTLX".to_owned(), timestamp: at(0) },
        notifier_endpoint: "https://notify.example".to_owned(),
        handlers: LayerHandlers::new(),
        ranks,
        codes: ProductRanks::new(),
    })
}

fn show_panes(gui: &mut Gui, count: usize) {
    assert!(gui.set_pane_count(count));
}

fn info(minute: u32, products: &[(RadarProduct, &[f64])]) -> ScanInfo {
    let mut product_elevations = TiltMap::new();
    for (product, angles) in products {
        product_elevations.insert(*product, degs(angles));
    }
    ScanInfo {
        site: RadarSite { name: "KTLX".to_owned(), lat: deg(35.3), lon: deg(-97.3) },
        timestamp: at(minute),
        vcp_number: 212,
        available_products: products.iter().map(|(p, _)| *p).collect(),
        product_elevations,
        status: format!("minute {minute}"),
    }
}

fn gui_with(existing: ScanInfo) -> Gui {
    let mut gui = fresh();
    let pane = gui.pane_mut(0).expect("a fresh Gui has one pane");
    pane.site = "KTLX".to_string();
    pane.scan_info = Some(existing);
    gui
}

#[test]
fn a_partial_volume_does_not_shrink_the_tilt_list() {
    let full = info(
        0,
        &[(RadarProduct::Reflectivity, &[0.5, 1.5, 2.4, 3.4, 4.3])],
    );
    let mut gui = gui_with(full);

    gui.apply_chunk_scan_info("KTLX", info(5, &[(RadarProduct::Reflectivity, &[0.5])]));

    let merged = gui.pane(0).unwrap().scan_info.clone().unwrap();
    assert_eq!(
        merged.product_elevations.get(RadarProduct::Reflectivity),
        Some(&degs(&[0.5, 1.5, 2.4, 3.4, 4.3])),
        "the tilt list shrank to the cuts assembled so far"
    );
    assert_eq!(
        merged.timestamp,
        at(5),
        "but the timestamp is the new volume's"
    );
    assert_eq!(merged.status, "minute 5");
}

#[test]
fn a_partial_volume_keeps_the_level3_products_already_registered() {
    let existing = info(
        0,
        &[
            (RadarProduct::Reflectivity, &[0.5, 1.5]),
            (RadarProduct::StormRelativeVelocity, &[0.5]),
        ],
    );
    let mut gui = gui_with(existing);

    gui.apply_chunk_scan_info("KTLX", info(5, &[(RadarProduct::Reflectivity, &[0.5])]));

    let merged = gui.pane(0).unwrap().scan_info.clone().unwrap();
    assert!(
        merged
            .available_products
            .contains(&RadarProduct::StormRelativeVelocity),
        "the Level III product was dropped by a Level II cut completing"
    );
    assert_eq!(
        merged.product_elevations.get(RadarProduct::StormRelativeVelocity),
        Some(&degs(&[0.5])),
        "and its tilt list with it"
    );
}

#[test]
fn a_newly_seen_tilt_is_added_to_the_list() {
    let mut gui = gui_with(info(0, &[(RadarProduct::Reflectivity, &[0.5])]));
    gui.apply_chunk_scan_info(
        "KTLX",
        info(5, &[(RadarProduct::Reflectivity, &[0.5, 6.4])]),
    );
    assert_eq!(
        gui.pane(0)
            .unwrap()
            .scan_info
            .as_ref()
            .unwrap()
            .product_elevations.get(RadarProduct::Reflectivity),
        Some(&degs(&[0.5, 6.4]))
    );
}

#[test]
fn a_chunk_update_leaves_the_fetch_spinner_and_the_backoff_alone() {
    let mut gui = gui_with(info(0, &[(RadarProduct::Reflectivity, &[0.5])]));
    gui.radar.fetching = true;
    gui.auto_poll.on_error();
    let backed_off = gui.auto_poll.interval_secs;
    assert!(backed_off > 60, "the fixture must actually be backed off");

    gui.apply_chunk_scan_info("KTLX", info(5, &[(RadarProduct::Reflectivity, &[0.5])]));

    assert!(
        gui.radar.fetching,
        "a chunk update cancelled a manual fetch's spinner"
    );
    assert_eq!(
        gui.auto_poll.interval_secs, backed_off,
        "a chunk update reset the archive poll's backoff"
    );
}

#[test]
fn the_first_chunk_volume_of_a_session_still_claims_the_initial_zoom() {
    let mut gui = gui_with(info(0, &[(RadarProduct::Reflectivity, &[0.5])]));
    gui.map.initial_zoom_set = false;
    gui.apply_chunk_scan_info("KTLX", info(5, &[(RadarProduct::Reflectivity, &[0.5])]));
    assert!(gui.map.initial_zoom_set);
}

#[test]
fn a_chunk_update_only_reaches_its_own_site() {
    let mut gui = gui_with(info(0, &[(RadarProduct::Reflectivity, &[0.5])]));
    gui.pane_mut(0).unwrap().site = "KOUN".to_string();
    gui.apply_chunk_scan_info("KTLX", info(5, &[(RadarProduct::Reflectivity, &[0.5])]));
    assert_eq!(
        gui.pane(0).unwrap().scan_info.as_ref().unwrap().timestamp,
        at(0)
    );
}

#[test]
fn live_sites_are_distinct_and_exclude_historic_panes() {
    let mut gui = fresh();
    show_panes(&mut gui, 3);
    for (idx, site) in ["KTLX", "KTLX", "KOUN"].iter().enumerate() {
        let pane = gui.pane_mut(idx).unwrap();
        pane.site = (*site).to_string();
        pane.viewing_live = true;
    }
    assert_eq!(gui.live_sites(), vec!["KTLX", "KOUN"]);

    gui.pane_mut(2).unwrap().viewing_live = false;
    assert_eq!(gui.live_sites(), vec!["KTLX"]);
}
