use rustdar_egui::frames::{
    BroadcastSweep, LoopFrame, LoopFrameImage, MotionBits, RadarImageData, RadarSite, RenderTarget,
    SectionImageData, SectionLoopKey, VolumeFrameGrid, VolumeStamp, VolumeTarget,
};
use rustdar_egui::geo::{GeoPoint, SectionLine};
use rustdar_egui::kinds::{PaneKind, RadarProduct, RenderView};
use rustdar_egui::loop_state::{LoopPhase, LoopPlaybackState};
use rustdar_egui::measure::{Exact, Measure};
use rustdar_egui::pane::PaneState;
use rustdar_egui::stamp::Stamp;
use std::sync::Arc;

const SITE: &str = "KTLX";
const PRODUCT: RadarProduct = RadarProduct::Reflectivity;
const TILT: Measure = Measure::Micro(500_000);

fn micro(x: f64) -> i64 {
    (x * 1e6).round() as i64
}

/// A number by its place among all floating-point numbers.
fn exact(x: f64) -> Exact {
    let place = x.abs().to_bits() as i64;
    Exact::At(if x < 0.0 { -place } else { place })
}

fn point(lat: f64, lon: f64) -> GeoPoint {
    GeoPoint { lat: exact(lat), lon: exact(lon) }
}

fn motion(speed_kt: f32, direction_from_deg: f32) -> Option<MotionBits> {
    Some(MotionBits {
        speed_kt: speed_kt.to_bits(),
        direction_from_deg: direction_from_deg.to_bits(),
    })
}

fn site() -> RadarSite {
    RadarSite { name: SITE.to_owned(), lat: micro(35.33), lon: micro(-97.28) }
}

fn ts(minute: u32) -> Stamp {
    let moment = chrono::NaiveDate::from_ymd_opt(2026, 8, 10)
        .unwrap()
        .and_hms_opt(18, minute, 0)
        .unwrap()
        .and_utc();
    Stamp::new(moment.timestamp(), moment.timestamp_subsec_nanos()).unwrap()
}

/// The one target both loops of a test are keyed to.
fn shared_target() -> RenderTarget {
    RenderTarget::new(SITE, PRODUCT, TILT)
}

fn line() -> SectionLine {
    SectionLine::new(point(35.0, -98.0), point(36.0, -97.0)).expect("two distinct points on Earth")
}

fn key() -> SectionLoopKey {
    SectionLoopKey::new(line(), None)
}

/// A loop of `count` blank frames in the given view, already retargeted.
fn loop_in(view: RenderView, count: u32) -> LoopPlaybackState {
    let mut ls = LoopPlaybackState::new_for_loop(3600, &site(), view);
    ls.phase = LoopPhase::Rendering;
    ls.frames = (0..count)
        .map(|i| LoopFrame {
            timestamp: ts(i),
            image: None,
            render_in_flight: false,
            render_failed: false,
        })
        .collect();
    let section = if view == RenderView::CrossSection { Some(key()) } else { None };
    ls.retarget_renders_for(PRODUCT, TILT, section);
    ls
}

fn pixel(ctx: &egui::Context, name: &str) -> egui::TextureHandle {
    let image = egui::ColorImage::from_rgba_unmultiplied([1, 1], &[255, 255, 255, 255]);
    ctx.load_texture(name, image, egui::TextureOptions::NEAREST)
}

fn plan_view_picture(ctx: &egui::Context) -> LoopFrameImage {
    LoopFrameImage::PlanView(RadarImageData {
        texture: pixel(ctx, "plan"),
        lat: micro(35.33),
        lon: micro(-97.28),
        max_range_km: micro(230.0),
        value_data: Arc::new(Vec::new()),
    })
}

fn section_picture(ctx: &egui::Context, ladder: u64) -> LoopFrameImage {
    LoopFrameImage::Section(SectionImageData {
        texture: pixel(ctx, "section"),
        tilt_elevations_deg: vec![500_000],
        ladder,
    })
}

/// This loop's site, the default box about it, at one volume time.
fn volume_target() -> VolumeTarget {
    VolumeTarget {
        volume: VolumeStamp { site: SITE.to_owned(), collected: ts(1) },
        product: PRODUCT,
        region: None,
    }
}

#[test]
fn a_plan_view_result_finds_no_frame_in_a_section_loop_with_the_same_target() {
    let mut section = loop_in(RenderView::CrossSection, 3);
    section.frames[1].render_in_flight = true;
    let target = shared_target();

    assert!(
        section
            .rendered_for
            .as_ref()
            .expect("the loop was retargeted")
            .matches(&target),
        "precondition: the two loops agree on the whole RenderTarget, so the \
         refusal below can only come from the view"
    );
    assert_eq!(
        section.frame_awaiting_render_result(ts(1), &target),
        None,
        "a section loop accepted a plan-view raster into a frame it would then \
         animate inside a vertical slice's axes"
    );

    let mut plan = loop_in(RenderView::PlanView, 3);
    plan.frames[1].render_in_flight = true;
    assert_eq!(plan.frame_awaiting_render_result(ts(1), &target), Some(1));
}

#[test]
fn a_section_result_finds_no_frame_in_a_plan_view_loop_with_the_same_target() {
    let mut plan = loop_in(RenderView::PlanView, 3);
    plan.frames[1].render_in_flight = true;

    assert_eq!(
        plan.frame_awaiting_section_result(ts(1), &shared_target(), &key()),
        None,
        "a plan-view loop accepted a cross-section raster, which it would then \
         stretch across the map pane's geographic bounds"
    );

    let mut section = loop_in(RenderView::CrossSection, 3);
    section.frames[1].render_in_flight = true;
    assert_eq!(
        section.frame_awaiting_section_result(ts(1), &shared_target(), &key()),
        Some(1),
    );
}

#[test]
fn a_plan_view_broadcast_is_refused_by_a_section_loop_with_the_same_target() {
    let section = loop_in(RenderView::CrossSection, 3);
    let target = shared_target();
    let sweep = BroadcastSweep {
        rendered: TILT,
        own: Some(TILT),
    };

    assert!(
        section.is_rendered_for(&target),
        "precondition: the cheap refusal in the broadcast loop lets this \
         sibling through, so the authority below is what has to stop it"
    );
    assert!(sweep.agrees(), "precondition: the sweeps agree too");
    assert_eq!(
        section.frame_accepting_broadcast(ts(1), &target, sweep),
        None,
        "a section loop took a plan-view raster off a sibling map pane"
    );

    let plan = loop_in(RenderView::PlanView, 3);
    assert_eq!(
        plan.frame_accepting_broadcast(ts(1), &target, sweep),
        Some(1),
    );
}

#[test]
fn neither_kind_of_loop_donates_a_frame_to_the_other() {
    let ctx = egui::Context::default();
    let target = shared_target();

    let mut section = loop_in(RenderView::CrossSection, 3);
    section.frames[1].image = Some(section_picture(&ctx, 77));
    assert_eq!(
        section.frame_donatable_to(ts(1), &target),
        None,
        "a section loop offered its raster to a map pane's loop, which would \
         have suppressed that pane's own render and left the frame served by \
         a picture of the wrong thing"
    );

    let mut plan = loop_in(RenderView::PlanView, 3);
    plan.frames[1].image = Some(plan_view_picture(&ctx));
    assert_eq!(
        plan.section_frame_donatable_to(ts(1), &target, &key(), 77),
        None,
        "a map pane's loop offered a plan-view raster to a section loop"
    );

    assert_eq!(plan.frame_donatable_to(ts(1), &target), Some(1));
    assert_eq!(
        section.section_frame_donatable_to(ts(1), &target, &key(), 77),
        Some(1),
    );
}

#[test]
fn moving_the_line_discards_every_frame() {
    let ctx = egui::Context::default();
    let mut ls = loop_in(RenderView::CrossSection, 3);
    for frame in &mut ls.frames {
        frame.image = Some(section_picture(&ctx, 1));
    }

    let elsewhere = SectionLine::new(
        point(30.0, -99.0),
        point(31.0, -98.0),
    )
    .expect("two distinct points on Earth");
    assert!(
        ls.retarget_renders_for(PRODUCT, TILT, Some(SectionLoopKey::new(elsewhere, None))),
        "a redrawn line did not invalidate the loop, so every frame would go \
         on animating a slice of the ground the user moved away from"
    );
    assert!(ls.frames.iter().all(|f| f.image.is_none()));
    assert_eq!(ls.section_key().map(|k| k.line), Some(elsewhere));
}

#[test]
fn editing_the_storm_motion_vector_discards_every_frame() {
    let ctx = egui::Context::default();
    let mut ls = LoopPlaybackState::new_for_loop(3600, &site(), RenderView::CrossSection);
    ls.phase = LoopPhase::Rendering;
    ls.frames = (0..3)
        .map(|i| LoopFrame {
            timestamp: ts(i),
            image: None,
            render_in_flight: false,
            render_failed: false,
        })
        .collect();
    let srv = RadarProduct::StormRelativeVelocity;
    ls.retarget_renders_for(
        srv,
        TILT,
        Some(SectionLoopKey::new(line(), motion(30.0, 240.0))),
    );
    for frame in &mut ls.frames {
        frame.image = Some(section_picture(&ctx, 1));
    }

    assert!(
        ls.retarget_renders_for(
            srv,
            TILT,
            Some(SectionLoopKey::new(line(), motion(35.0, 240.0)))
        ),
        "the storm motion vector moved and the loop kept every frame, so the \
         whole animation goes on showing the earlier vector's field with nothing \
         saying so"
    );
    assert!(ls.frames.iter().all(|f| f.image.is_none()));
}

#[test]
fn rewriting_the_same_storm_motion_vector_invalidates_nothing() {
    let mut ls = LoopPlaybackState::new_for_loop(3600, &site(), RenderView::CrossSection);
    let srv = RadarProduct::StormRelativeVelocity;
    let vector = motion(30.0, 240.0);
    ls.retarget_renders_for(srv, TILT, Some(SectionLoopKey::new(line(), vector)));
    assert!(
        !ls.retarget_renders_for(srv, TILT, Some(SectionLoopKey::new(line(), vector))),
        "an unchanged vector counted as a change, so every frame is re-cut on \
         every dispatch pass with a hot CPU as the only symptom"
    );
}

#[test]
fn a_broadcast_cut_from_another_ladder_is_refused() {
    let ls = loop_in(RenderView::CrossSection, 3);
    let target = shared_target();

    assert_eq!(
        ls.frame_accepting_section_broadcast(ts(1), &target, &key(), 7, Some(7)),
        Some(1),
        "precondition: an agreeing ladder is accepted"
    );
    assert_eq!(
        ls.frame_accepting_section_broadcast(ts(1), &target, &key(), 7, Some(8)),
        None,
        "a raster cut from a ladder this loop's own volume no longer resolves \
         was accepted, so the frame shows a partial volume for ever"
    );
    assert_eq!(
        ls.frame_accepting_section_broadcast(ts(1), &target, &key(), 7, None),
        None,
        "an unverifiable hand-off was accepted; a local cut will follow, and \
         is better than a guess"
    );
}

#[test]
fn a_broadcast_cut_along_another_line_is_refused() {
    let ls = loop_in(RenderView::CrossSection, 3);
    let elsewhere = SectionLoopKey::new(
        SectionLine::new(
            point(30.0, -99.0),
            point(31.0, -98.0),
        )
        .expect("two distinct points on Earth"),
        None,
    );
    assert_eq!(
        ls.frame_accepting_section_broadcast(ts(1), &shared_target(), &elsewhere, 7, Some(7)),
        None,
        "a cut along a different line was accepted into this loop"
    );
}

#[test]
fn every_kind_can_loop_and_each_frame_is_its_own_shape() {
    assert!(PaneKind::MapView.can_loop());
    assert!(
        PaneKind::CrossSection.can_loop(),
        "a cross-section is a raster of one line through one volume, which is \
         exactly what a loop frame is"
    );
    assert!(
        PaneKind::Volume.can_loop(),
        "a 3D volume's loop frame is the resident grid rather than a \
         camera-specific raster, which is what makes orbiting a loop free \
         instead of invalidating every frame of it"
    );
    for (image, view) in [
        (
            LoopFrameImage::Volume(VolumeFrameGrid {
                id: 7,
                target: volume_target(),
            }),
            RenderView::Volume,
        ),
        (
            plan_view_picture(&egui::Context::default()),
            RenderView::PlanView,
        ),
    ] {
        assert_eq!(image.render_view(), view);
        assert_eq!(
            image.volume().is_some(),
            view == RenderView::Volume,
            "{view:?}: a consumer asking for a resident grid was handed \
             another kind's frame, or refused its own",
        );
        assert!(
            image.section().is_none(),
            "{view:?}: a section consumer was handed a frame that is not one",
        );
    }
}

#[test]
fn a_section_pane_cannot_loop_until_it_has_a_line() {
    let mut pane = PaneState::new();
    assert!(pane.can_loop(), "precondition: a map pane can");

    pane.set_kind(PaneKind::CrossSection);
    assert!(
        !pane.can_loop(),
        "an unaimed section pane offered a loop, which would fill with frames \
         nothing can cut and never settle"
    );

    pane.cross_section_mut().expect("it is a section pane").line = Some(line());
    assert!(
        pane.can_loop(),
        "an aimed section pane was still refused, so sections cannot loop at all"
    );
}

#[test]
fn converting_between_two_looping_kinds_tears_the_loop_down() {
    let mut pane = PaneState::new();
    pane.loop_state = LoopPlaybackState::new_for_loop(3600, &site(), RenderView::PlanView);
    assert!(pane.loop_state.is_active());

    pane.set_kind(PaneKind::CrossSection);
    assert!(
        !pane.loop_state.is_active(),
        "a map pane's plan-view frames survived the conversion to a section \
         pane, which would animate a list nothing can refill while holding \
         MAX_LOOP_RENDER_BUDGET textures alive to do it"
    );
    assert_eq!(pane.loop_state.view, RenderView::PlanView);
}

#[test]
fn the_playhead_answers_only_for_the_shape_it_holds() {
    let ctx = egui::Context::default();
    let mut pane = PaneState::new();
    pane.loop_state = loop_in(RenderView::CrossSection, 3);
    pane.loop_state.current_frame = 1;
    pane.loop_state.frames[1].image = Some(section_picture(&ctx, 5));

    assert!(
        pane.active_image().is_none(),
        "the map painter was handed a cross-section raster"
    );
    assert_eq!(
        pane.active_section_image().map(|s| s.ladder),
        Some(5),
        "the section painter was not handed the frame on the playhead"
    );

    pane.loop_state.frames[1].image = Some(plan_view_picture(&ctx));
    assert!(pane.active_image().is_some());
    assert!(
        pane.active_section_image().is_none(),
        "the section painter was handed a plan-view raster, which it would \
         draw under a height scale and a tilt ladder"
    );
}
