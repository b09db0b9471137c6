use rustdar_egui::camera::{Offsets, OrbitCamera, OrbitDelta, Pivot};
use rustdar_egui::content::{PaneContent, SectionTarget, SectionUnavailable, VolumePane};
use rustdar_egui::frames::VolumeStamp;
use rustdar_egui::geo::{CellSize, GeoPoint, SectionLine, VolumeRegion, MAX_LAT, MAX_LON};
use rustdar_egui::kinds::{PaneKind, RadarProduct, RenderView};
use rustdar_egui::measure::{clamp_micro, shift_clamped, shift_wrapped, within, Exact, Measure};
use rustdar_egui::stamp::Stamp;

fn micro(x: f64) -> i64 {
    (x * 1e6).round() as i64
}

fn num(x: f64) -> Measure {
    Measure::Micro(micro(x))
}

/// A number by its place among all floating-point numbers.
fn exact(x: f64) -> Exact {
    let place = x.abs().to_bits() as i64;
    Exact::At(if x < 0.0 { -place } else { place })
}

fn point(lat: f64, lon: f64) -> GeoPoint {
    GeoPoint { lat: exact(lat), lon: exact(lon) }
}

#[test]
fn a_measure_that_is_no_number_yields_to_the_fallback() {
    assert_eq!(num(2.5).or_micro(7), 2_500_000);
    assert_eq!(Measure::NotFinite.or_micro(7), 7);
    assert!(num(0.0).is_finite());
    assert!(!Measure::NotFinite.is_finite());
}

#[test]
fn measures_are_held_and_wrapped() {
    assert_eq!(clamp_micro(5, 10, 20), 10);
    assert_eq!(clamp_micro(25, 10, 20), 20);
    assert_eq!(clamp_micro(15, 10, 20), 15);
    assert_eq!(shift_clamped(15, i64::MAX, 10, 20), 20);
    assert_eq!(shift_clamped(15, i64::MIN, 10, 20), 10);
    assert_eq!(shift_wrapped(350, 20, 360), 10);
    assert_eq!(shift_wrapped(10, -20, 360), 350);
    assert!(within(100, 110, 10));
    assert!(!within(100, 111, 10));
    assert!(!within(i64::MIN, i64::MAX, 10));
}

#[test]
fn only_points_on_earth_exist() {
    assert!(point(90.0, 180.0).is_on_earth());
    assert!(point(-90.0, -180.0).is_on_earth());
    assert!(!point(90.00000000000001, 0.0).is_on_earth());
    assert!(point(89.99999999999999, -0.0).is_on_earth());
    assert_eq!(exact(90.0), Exact::At(MAX_LAT));
    assert_eq!(exact(180.0), Exact::At(MAX_LON));
    assert!(!point(0.0, -180.000001).is_on_earth());
    assert!(!GeoPoint { lat: Exact::NotFinite, lon: exact(0.0) }.is_on_earth());
    assert!(!GeoPoint { lat: exact(0.0), lon: Exact::NotFinite }.is_on_earth());
}

#[test]
fn a_line_needs_two_different_points_that_exist() {
    let line = SectionLine::new(point(35.0, -98.0), point(36.0, -97.0)).unwrap();
    assert_eq!(line.a(), point(35.0, -98.0));
    assert_eq!(line.b(), point(36.0, -97.0));
    assert!(SectionLine::new(point(35.0, -98.0), point(35.0, -98.0)).is_none());
    assert!(SectionLine::new(point(35.0, -98.0), point(35.0000001, -98.0)).is_some());
    assert!(SectionLine::new(point(0.0, -98.0), point(-0.0, -98.0)).is_none());
    assert!(SectionLine::new(point(0.0, -98.0), point(5e-324, -98.0)).is_some());
    assert!(SectionLine::new(point(95.0, -98.0), point(36.0, -97.0)).is_none());
    let nowhere = GeoPoint { lat: Exact::NotFinite, lon: exact(-97.0) };
    assert!(SectionLine::new(point(35.0, -98.0), nowhere).is_none());
}

#[test]
fn lines_with_the_same_ends_are_equal() {
    let line = SectionLine::new(point(35.0, -98.0), point(36.0, -97.0));
    assert_eq!(line, SectionLine::new(point(35.0, -98.0), point(36.0, -97.0)));
    assert_ne!(line, SectionLine::new(point(36.0, -97.0), point(35.0, -98.0)));
}

#[test]
fn a_region_is_held_to_the_resampled_range() {
    let at = point(35.0, -97.0);
    assert_eq!(VolumeRegion::new(at, num(40.0)).unwrap().half_width_km(), micro(40.0));
    assert_eq!(VolumeRegion::new(at, num(1.0)).unwrap().half_width_km(), micro(10.0));
    assert_eq!(VolumeRegion::new(at, num(1000.0)).unwrap().half_width_km(), micro(230.0));
    assert!(VolumeRegion::new(at, Measure::NotFinite).is_none());
    assert!(VolumeRegion::new(point(91.0, 0.0), num(40.0)).is_none());
}

#[test]
fn regions_of_the_same_extent_are_equal() {
    let at = point(35.0, -97.0);
    assert_eq!(VolumeRegion::centred_on(at), VolumeRegion::new(at, num(230.0)));
    assert_eq!(VolumeRegion::new(at, num(500.0)), VolumeRegion::new(at, num(230.0)));
    assert_ne!(VolumeRegion::new(at, num(40.0)), VolumeRegion::centred_on(at));
    assert!(VolumeRegion::centred_on(point(0.0, 181.0)).is_none());
    assert_eq!(VolumeRegion::centred_on(at).unwrap().centre(), at);
}

#[test]
fn a_region_knows_its_resolution() {
    let region = VolumeRegion::new(point(35.0, -97.0), num(40.0)).unwrap();
    assert_eq!(region.resolution_km(160), Some(CellSize { micro: 500_000, rest: 0, cells: 160 }));
    assert_eq!(region.resolution_km(7), Some(CellSize { micro: 11_428_571, rest: 3, cells: 7 }));
    assert_eq!(region.resolution_km(0), None);
}

#[test]
fn the_box_is_as_wide_as_its_region() {
    let mut pane = VolumePane::default();
    assert_eq!(pane.box_size_km(), (micro(460.0), micro(460.0), micro(18.0)));
    pane.region = VolumeRegion::new(point(35.0, -97.0), num(40.0));
    assert_eq!(pane.box_size_km(), (micro(80.0), micro(80.0), micro(18.0)));
}

#[test]
fn a_camera_turns_zooms_and_pans() {
    let mut camera = OrbitCamera::default();
    camera.nudge(OrbitDelta {
        yaw_deg: num(140.0),
        pitch_deg: num(10.0),
        zoom_factor: num(2.0),
        pan: Offsets { x: num(0.25), y: num(0.0), z: num(-0.5) },
    });
    assert_eq!(camera.yaw_deg(), micro(5.0));
    assert_eq!(camera.pitch_deg(), micro(35.0));
    assert_eq!(camera.eye_distance(), micro(1.25));
    assert_eq!(camera.pivot(), Pivot { x: micro(0.25), y: 0, z: micro(-0.5) });
    assert_eq!(camera.vertical_exaggeration(), micro(3.0));
}

#[test]
fn no_movement_leaves_its_limits() {
    let mut camera = OrbitCamera::default();
    camera.nudge(OrbitDelta {
        yaw_deg: num(-1000.0),
        pitch_deg: num(1000.0),
        zoom_factor: num(1000.0),
        pan: Offsets { x: num(9.0), y: num(-9.0), z: num(0.0) },
    });
    assert_eq!(camera.yaw_deg(), micro(305.0));
    assert_eq!(camera.pitch_deg(), micro(89.0));
    assert_eq!(camera.eye_distance(), micro(0.05));
    assert_eq!(camera.pivot(), Pivot { x: micro(1.0), y: micro(-1.0), z: 0 });
}

#[test]
fn a_movement_with_an_unusable_part_is_refused_whole() {
    let before = OrbitCamera::default();
    for delta in [
        OrbitDelta { yaw_deg: Measure::NotFinite, ..OrbitDelta::default() },
        OrbitDelta { zoom_factor: num(0.0), yaw_deg: num(10.0), ..OrbitDelta::default() },
        OrbitDelta { zoom_factor: num(-2.0), ..OrbitDelta::default() },
        OrbitDelta {
            pitch_deg: num(5.0),
            pan: Offsets { x: num(0.0), y: Measure::NotFinite, z: num(0.0) },
            ..OrbitDelta::default()
        },
    ] {
        let mut camera = before;
        camera.nudge(delta);
        assert_eq!(camera, before);
    }
}

#[test]
fn the_default_movement_moves_nothing() {
    let mut camera = OrbitCamera::default();
    camera.nudge(OrbitDelta::default());
    assert_eq!(camera, OrbitCamera::default());
}

#[test]
fn exaggeration_stops_at_its_stops() {
    let mut camera = OrbitCamera::default();
    camera.set_vertical_exaggeration(num(100.0));
    assert_eq!(camera.vertical_exaggeration(), micro(12.0));
    camera.set_vertical_exaggeration(num(0.0));
    assert_eq!(camera.vertical_exaggeration(), micro(1.0));
    camera.set_vertical_exaggeration(Measure::NotFinite);
    assert_eq!(camera.vertical_exaggeration(), micro(1.0));
}

#[test]
fn a_saved_camera_comes_back() {
    let mut camera = OrbitCamera::default();
    camera.nudge(OrbitDelta { yaw_deg: num(12.5), ..OrbitDelta::default() });
    let pivot = camera.pivot();
    let back = OrbitCamera::restore(
        Measure::Micro(camera.yaw_deg()),
        Measure::Micro(camera.pitch_deg()),
        Measure::Micro(camera.eye_distance()),
        Offsets {
            x: Measure::Micro(pivot.x),
            y: Measure::Micro(pivot.y),
            z: Measure::Micro(pivot.z),
        },
        Measure::Micro(camera.vertical_exaggeration()),
    );
    assert_eq!(back, Some(camera));
}

#[test]
fn a_camera_is_restored_to_the_nearest_legal_pose_or_not_at_all() {
    let centre = Offsets { x: num(0.0), y: num(0.0), z: num(0.0) };
    let camera =
        OrbitCamera::restore(num(-45.0), num(-120.0), num(99.0), centre, num(0.5)).unwrap();
    assert_eq!(camera.yaw_deg(), micro(315.0));
    assert_eq!(camera.pitch_deg(), micro(-89.0));
    assert_eq!(camera.eye_distance(), micro(8.0));
    assert_eq!(camera.vertical_exaggeration(), micro(1.0));
    assert!(
        OrbitCamera::restore(Measure::NotFinite, num(0.0), num(1.0), centre, num(1.0)).is_none()
    );
    let lost = Offsets { x: num(0.0), y: num(0.0), z: Measure::NotFinite };
    assert!(OrbitCamera::restore(num(0.0), num(0.0), num(1.0), lost, num(1.0)).is_none());
}

#[test]
fn a_section_answers_only_its_own_request() {
    let stamp = Stamp::new(1_785_000_000, 0).unwrap();
    let line = SectionLine::new(point(35.0, -98.0), point(36.0, -97.0)).unwrap();
    let other = SectionLine::new(point(35.0, -98.0), point(36.0, -96.0)).unwrap();
    let make = |site: &str, product, line, ladder| SectionTarget {
        volume: VolumeStamp { site: site.to_owned(), collected: stamp },
        product,
        line,
        ladder,
    };
    let wanted = make("KTLX", RadarProduct::Reflectivity, line, 7);
    assert!(wanted.matches(&make("KTLX", RadarProduct::Reflectivity, line, 7)));
    assert!(!wanted.matches(&make("KOUN", RadarProduct::Reflectivity, line, 7)));
    assert!(!wanted.matches(&make("KTLX", RadarProduct::Velocity, line, 7)));
    assert!(!wanted.matches(&make("KTLX", RadarProduct::Reflectivity, other, 7)));
    assert!(!wanted.matches(&make("KTLX", RadarProduct::Reflectivity, line, 8)));
}

#[test]
fn every_reason_for_an_empty_section_says_why() {
    let tops = RadarProduct::EchoTops;
    assert_eq!(
        SectionUnavailable::AwaitingVolume.message(""),
        "Downloading this site's first volume - the section appears the moment it lands"
    );
    assert_eq!(
        SectionUnavailable::AwaitingCoveragePattern.message(""),
        "This volume was joined mid-scan and its coverage pattern has not arrived yet, so there \
         is no tilt ladder to cut along. It will appear on the next volume."
    );
    assert_eq!(
        SectionUnavailable::ProductHasNoVerticalStructure(tops).message("Echo Tops"),
        "Echo Tops has no vertical structure to slice - pick a moment the radar measures tilt by \
         tilt"
    );
    assert_eq!(
        SectionUnavailable::RenderFailed.message(""),
        "The cross-section could not be cut from this volume"
    );
    assert_eq!(
        SectionUnavailable::ProductMissingFromVolume(tops).message("Echo Tops"),
        "This volume carries no Echo Tops to cut - the section appears as soon as one that does \
         arrives. Storm-relative velocity also needs a motion vector, from the volume's own winds \
         or the override."
    );
}

#[test]
fn each_kind_of_pane_has_its_view() {
    for (kind, view, whole) in [
        (PaneKind::MapView, RenderView::PlanView, false),
        (PaneKind::CrossSection, RenderView::CrossSection, true),
        (PaneKind::Volume, RenderView::Volume, true),
    ] {
        assert_eq!(kind.render_view(), view);
        assert_eq!(kind.consumes_whole_volume(), whole);
        assert_eq!(view.reads_whole_volume(), whole);
        assert_eq!(PaneContent::for_kind(kind).kind(), kind);
    }
}

#[test]
fn every_small_zoom_factor_takes_the_eye_out_to_its_limit() {
    for factor in [1, 10, 6_250] {
        let mut camera = OrbitCamera::default();
        camera.nudge(OrbitDelta { zoom_factor: num(1000.0), ..OrbitDelta::default() });
        camera.nudge(OrbitDelta { zoom_factor: Measure::Micro(factor), ..OrbitDelta::default() });
        assert_eq!(camera.eye_distance(), micro(8.0));
    }
}

#[test]
fn what_is_no_number_is_close_to_nothing() {
    assert!(num(0.5).is_close_to(num(0.51), 10_000));
    assert!(!num(0.5).is_close_to(num(0.510001), 10_000));
    assert!(!Measure::NotFinite.is_close_to(Measure::NotFinite, 10_000));
    assert!(!num(0.5).is_close_to(Measure::NotFinite, 10_000));
}
