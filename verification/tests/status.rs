use rustdar_egui::actions::{GuiAction, RadarConfig};
use rustdar_egui::chrome::{
    radar_controls, section_line_label, PollBlock, RadarControls, StatusTexts, TiltControl,
};
use rustdar_egui::frames::RadarSite;
use rustdar_egui::geo::{GeoPoint, SectionLine};
use rustdar_egui::gui::{Gui, Startup, WidthClass};
use rustdar_egui::kinds::{PaneKind, RadarProduct};
use rustdar_egui::measure::{Exact, Measure};
use rustdar_egui::overlays::{LayerHandlers, OverlayKind};
use rustdar_egui::pane::PaneState;
use rustdar_egui::poll::AutoPollState;
use rustdar_egui::scan::{ProductRanks, ScanInfo, TiltMap};
use rustdar_egui::stamp::{Age, Stamp};
use rustdar_egui::status::{
    data_line, format_product_age, pane_identity, poll_hover, poll_label, scan_line,
    ChunkFeedStatus, TiltFreshness,
};

const NOW: u64 = 10_000_000;
const MOMENT: i64 = 1_785_030_510;

fn stamp(secs: i64) -> Stamp {
    Stamp::new(secs, 0).unwrap()
}

fn fresh() -> Gui {
    let mut handlers = LayerHandlers::new();
    handlers.set_enabled(OverlayKind::Radar, true);
    let mut gui = Gui::new(Startup {
        config: RadarConfig { site: "KTLX".to_owned(), timestamp: stamp(MOMENT) },
        notifier_endpoint: String::new(),
        handlers,
        ranks: ProductRanks::new(),
        codes: ProductRanks::new(),
    });
    gui.platform.width = WidthClass::Expanded;
    gui
}

fn scan() -> ScanInfo {
    let mut product_elevations = TiltMap::new();
    product_elevations.insert(RadarProduct::Reflectivity, vec![500_000, 1_500_000]);
    product_elevations.insert(RadarProduct::EchoTops, Vec::new());
    ScanInfo {
        site: RadarSite { name: "KTLX".to_owned(), lat: 35_330_000, lon: -97_270_000 },
        timestamp: stamp(MOMENT),
        vcp_number: 212,
        available_products: vec![RadarProduct::Reflectivity, RadarProduct::EchoTops],
        product_elevations,
        status: String::new(),
    }
}

fn texts() -> StatusTexts {
    StatusTexts {
        elevation: "0.5".to_owned(),
        scan_time: "01:48".to_owned(),
        data_time: "01:50".to_owned(),
    }
}

fn running() -> AutoPollState {
    AutoPollState { last_fetch_time: Some(NOW - 12_000), ..AutoPollState::new() }
}

#[test]
fn an_age_of_half_a_second_to_come_is_still_to_come() {
    assert_eq!(format_product_age(Age { secs: 0, nanos: -500_000_000 }), "stamped ahead");
    assert_eq!(format_product_age(Age { secs: 0, nanos: 500_000_000 }), "0 min old");
}

#[test]
fn the_poll_control_says_which_transport_runs() {
    let idle = ChunkFeedStatus::default();
    assert_eq!(poll_label(&running(), &idle, "0.5", NOW), "Auto-poll (archive 48s)");
    assert_eq!(poll_label(&AutoPollState::new(), &idle, "0.5", NOW), "Auto-poll (archive off)");
    let off = AutoPollState { enabled: false, ..running() };
    assert_eq!(poll_label(&off, &idle, "0.5", NOW), "Auto-poll (archive off)");
    let retired = ChunkFeedStatus { retired: true, ..idle };
    assert_eq!(
        poll_label(&running(), &retired, "0.5", NOW),
        "\u{26a0} Live - real-time unavailable, archive 48s"
    );
    let waiting = ChunkFeedStatus { feeding: true, ..idle };
    assert_eq!(
        poll_label(&running(), &waiting, "0.5", NOW),
        "\u{26a1} Live - waiting for this tilt"
    );
    let live = ChunkFeedStatus {
        tilt: Some(TiltFreshness { elevation: 500_000, data_age_secs: 42 }),
        ..waiting
    };
    assert_eq!(poll_label(&running(), &live, "0.5", NOW), "\u{26a1} Live - 0.5\u{b0} 42s old");
}

#[test]
fn hovering_over_the_poll_control_explains_the_feed() {
    let idle = ChunkFeedStatus::default();
    assert_eq!(poll_hover(&idle), None);
    let pushed = ChunkFeedStatus { feeding: true, pushed: true, ..idle };
    assert!(poll_hover(&pushed)
        .unwrap()
        .starts_with("Assembled from the real-time chunk feed, fetched as each chunk"));
    let polled = ChunkFeedStatus { feeding: true, interval_secs: 5, ..idle };
    assert!(poll_hover(&polled).unwrap().contains("feed, checked every 5s. The age is"));
    let retired = ChunkFeedStatus { retired: true, ..idle };
    assert!(poll_hover(&retired).unwrap().ends_with("which are several minutes old."));
}

#[test]
fn the_scan_and_data_lines_have_a_long_and_a_short_form() {
    let scan = scan();
    assert_eq!(scan_line(Some(&scan), "T", true), "Scan: KTLX @ T (2 products)");
    assert_eq!(scan_line(Some(&scan), "T", false), "KTLX @ T");
    assert_eq!(scan_line(None, "T", true), "No scan loaded");
    let now = stamp(MOMENT + 300);
    assert_eq!(
        data_line(Some(stamp(MOMENT)), "T", now, true),
        Some("Data: T (5 min old)".to_owned())
    );
    assert_eq!(
        data_line(Some(stamp(MOMENT)), "T", now, false),
        Some("Data T (5 min old)".to_owned())
    );
    assert_eq!(data_line(None, "T", now, true), None);
}

#[test]
fn a_pane_says_whose_data_it_shows() {
    let mut pane = PaneState::with_site("KTLX".to_owned());
    assert_eq!(pane_identity(&pane), "KTLX \u{b7} Map");
    pane.set_kind(PaneKind::CrossSection);
    assert_eq!(pane_identity(&pane), "KTLX \u{b7} Cross-section");
    pane.set_kind(PaneKind::Volume);
    assert_eq!(pane_identity(&pane), "KTLX \u{b7} 3D volume");
}

#[test]
fn a_roomy_status_bar_shows_everything() {
    let mut gui = fresh();
    gui.auto_poll = running();
    gui.panes[0].scan_info = Some(scan());
    gui.panes[0].data_time = Some(stamp(MOMENT));
    gui.panes[0].hover_value = Some("45 dBZ".to_owned());
    let bar = gui.status_bar(&texts(), true, NOW, stamp(MOMENT + 60));
    assert!(bar.refresh);
    match bar.poll {
        PollBlock::Control { label, hover } => {
            assert_eq!(label, "Auto-poll (archive 48s)");
            assert_eq!(hover, None);
        }
        _ => panic!("the poll control is not drawn"),
    }
    assert_eq!(bar.scan, "Scan: KTLX @ 01:48 (2 products)");
    assert_eq!(bar.data.as_deref(), Some("Data: 01:50 (1 min old)"));
    let hover = bar.hover.unwrap();
    assert_eq!(hover.value.as_deref(), Some("45 dBZ"));
    assert_eq!(hover.overlay, None);
    assert_eq!(bar.error, None);
}

#[test]
fn a_compact_status_bar_has_room_for_a_spinner() {
    let mut gui = fresh();
    gui.platform.width = WidthClass::Compact;
    assert!(matches!(
        gui.status_bar(&texts(), false, NOW, stamp(MOMENT)).poll,
        PollBlock::Nothing
    ));
    gui.set_fetching(true);
    let bar = gui.status_bar(&texts(), false, NOW, stamp(MOMENT));
    assert!(matches!(bar.poll, PollBlock::Spinner));
    assert!(!bar.refresh);
    assert!(bar.hover.is_none());
    gui.platform.width = WidthClass::Medium;
    assert!(matches!(
        gui.status_bar(&texts(), false, NOW, stamp(MOMENT)).poll,
        PollBlock::Downloading
    ));
    gui.set_error("no network".to_owned());
    let bar = gui.status_bar(&texts(), false, NOW, stamp(MOMENT));
    assert_eq!(bar.error.as_deref(), Some("no network"));
    assert!(bar.refresh);
    gui.dismiss_error();
    assert_eq!(gui.radar.error_message, None);
}

#[test]
fn a_hidden_pane_reads_out_nothing() {
    let mut gui = fresh();
    assert!(gui.set_pane_count(3));
    gui.panes[1].overlay_hover_value = Some("Tornado Warning".to_owned());
    gui.panes[2].hover_value = Some("60 dBZ".to_owned());
    assert!(gui.set_pane_count(2));
    let hover = gui.status_bar(&texts(), true, NOW, stamp(MOMENT)).hover.unwrap();
    assert_eq!(hover.value, None);
    assert_eq!(hover.overlay.as_deref(), Some("Tornado Warning"));
}

#[test]
fn refreshing_asks_for_the_active_panes_site() {
    let mut gui = fresh();
    gui.panes[0].site = "KOUN".to_owned();
    let mut actions = Vec::new();
    gui.refresh(&mut actions);
    match &actions[0] {
        GuiAction::FetchRadarScan(config) => {
            assert_eq!(config.site, "KOUN");
            assert_eq!(config.timestamp, stamp(MOMENT));
        }
        _ => panic!("another request was made"),
    }
    gui.set_fetching(true);
    gui.refresh(&mut actions);
    assert_eq!(actions.len(), 1);
}

#[test]
fn a_pane_offers_the_tilts_it_has() {
    let mut gui = fresh();
    assert_eq!(radar_controls(&gui.panes[0]), RadarControls::NoScan);
    gui.panes[0].scan_info = Some(scan());
    gui.panes[0].selected_elevation = Measure::Micro(1_300_000);
    assert_eq!(
        radar_controls(&gui.panes[0]),
        RadarControls::Offered(TiltControl::Pick(1_500_000))
    );
    gui.panes[0].selected_product = RadarProduct::EchoTops;
    assert_eq!(
        radar_controls(&gui.panes[0]),
        RadarControls::Offered(TiltControl::Waiting(Measure::Micro(1_300_000)))
    );
    gui.panes[0].selected_product = RadarProduct::Velocity;
    assert_eq!(
        radar_controls(&gui.panes[0]),
        RadarControls::Offered(TiltControl::Absent)
    );
    gui.set_active_pane_overlay(OverlayKind::Radar, false);
    assert_eq!(radar_controls(&gui.panes[0]), RadarControls::Hidden);
    gui.panes[0].selected_product = RadarProduct::Reflectivity;
    gui.panes[0].set_kind(PaneKind::Volume);
    assert_eq!(
        radar_controls(&gui.panes[0]),
        RadarControls::Offered(TiltControl::Absent)
    );
}

#[test]
fn the_section_sidebar_states_its_line() {
    let mut pane = PaneState::new();
    pane.set_kind(PaneKind::CrossSection);
    assert_eq!(section_line_label(&pane, "120 km"), "No line drawn yet");
    let point = |lat: f64, lon: f64| GeoPoint {
        lat: Exact::At(lat.to_bits() as i64),
        lon: Exact::At(-(lon.abs().to_bits() as i64)),
    };
    pane.cross_section_mut().unwrap().line =
        SectionLine::new(point(35.0, -98.0), point(36.0, -97.0));
    assert_eq!(section_line_label(&pane, "120 km"), "A - B: 120 km");
}
