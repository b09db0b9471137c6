use rustdar_egui::frames::{LoopFrame, RadarSite};
use rustdar_egui::kinds::{RadarProduct, RenderView};
use rustdar_egui::loop_state::LoopPlaybackState;
use rustdar_egui::measure::Measure;
use rustdar_egui::pane::PaneState;
use rustdar_egui::scan::{ScanInfo, TiltMap};
use rustdar_egui::stamp::Stamp;

fn deg(x: f64) -> i64 {
    (x * 1e6).round() as i64
}

fn angle(x: f64) -> Measure {
    Measure::Micro(deg(x))
}

fn stamp(moment: chrono::NaiveDateTime) -> Stamp {
    let moment = moment.and_utc();
    Stamp::new(moment.timestamp(), moment.timestamp_subsec_nanos()).unwrap()
}

fn site() -> RadarSite {
    RadarSite { name: "KTLX".to_owned(), lat: deg(35.33), lon: deg(-97.27) }
}

/// A pane whose scan lists `products` with the angles given.
fn pane_listing(products: &[(RadarProduct, &[f64])]) -> PaneState {
    let mut pane = PaneState::with_site("KTLX".to_string());
    let mut product_elevations = TiltMap::new();
    for (product, angles) in products {
        product_elevations.insert(*product, angles.iter().map(|a| deg(*a)).collect());
    }
    pane.scan_info = Some(ScanInfo {
        site: site(),
        timestamp: stamp(
            chrono::NaiveDate::from_ymd_opt(2026, 7, 26)
                .unwrap()
                .and_hms_opt(1, 48, 0)
                .unwrap(),
        ),
        vcp_number: 212,
        available_products: products.iter().map(|(p, _)| *p).collect(),
        product_elevations,
        status: String::new(),
    });
    pane
}

#[test]
fn a_selection_snaps_to_the_nearest_listed_tilt() {
    let mut pane = pane_listing(&[(RadarProduct::Reflectivity, &[0.5, 1.5, 2.4])]);
    pane.selected_elevation = angle(1.3);
    assert_eq!(
        pane.get_rendering_params(),
        Some((RadarProduct::Reflectivity, angle(1.5))),
    );
}

#[test]
fn a_listed_product_with_no_tilts_yet_still_renders_at_its_selection() {
    let mut pane = pane_listing(&[
        (RadarProduct::Reflectivity, &[0.5, 1.5]),
        (RadarProduct::EchoTops, &[]),
    ]);
    pane.selected_product = RadarProduct::EchoTops;
    pane.selected_elevation = angle(0.0);

    assert_eq!(
        pane.get_rendering_params(),
        Some((RadarProduct::EchoTops, angle(0.0))),
        "a product listed without angles must still resolve, or nothing is \
             ever dispatched for it",
    );

    pane.selected_elevation = angle(2.4);
    assert_eq!(
        pane.get_rendering_params(),
        Some((RadarProduct::EchoTops, angle(2.4))),
    );
}

#[test]
fn a_product_the_scan_does_not_list_resolves_to_nothing() {
    let pane = pane_listing(&[(RadarProduct::Reflectivity, &[0.5])]);
    let mut absent = pane;
    absent.selected_product = RadarProduct::Velocity;
    assert_eq!(absent.get_rendering_params(), None);

    let empty = PaneState::with_site("KTLX".to_string());
    assert_eq!(empty.get_rendering_params(), None);
}

#[test]
fn the_data_time_on_screen_follows_the_loop_when_one_is_running() {
    let moment = chrono::NaiveDate::from_ymd_opt(2026, 7, 26)
        .unwrap()
        .and_hms_opt(1, 48, 0)
        .unwrap();
    let volume = stamp(moment);
    let frame = stamp(moment - chrono::Duration::minutes(20));

    let mut pane = PaneState::with_site("KTLX".to_string());
    pane.data_time = Some(volume);
    assert_eq!(pane.data_time_on_screen(), Some(volume), "no loop running");

    pane.loop_state = LoopPlaybackState::new_for_loop(
        600,
        &site(),
        RenderView::PlanView,
    );
    assert_eq!(
        pane.data_time_on_screen(),
        None,
        "a loop with no frames yet has nothing on screen to date",
    );

    pane.loop_state.frames = vec![LoopFrame {
        timestamp: frame,
        image: None,
        render_in_flight: false,
        render_failed: false,
    }];
    assert_eq!(
        pane.data_time_on_screen(),
        Some(frame),
        "the animation's own frame, not the still it replaced",
    );
}
