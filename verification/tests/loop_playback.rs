use rustdar_egui::frames::{
    BroadcastSweep, LoopFrame, LoopFrameImage, RadarImageData, RadarSite, RenderTarget,
};
use rustdar_egui::kinds::{RadarProduct, RenderView};
use rustdar_egui::loop_state::{LoopPhase, LoopPlaybackState};
use rustdar_egui::measure::Measure;
use rustdar_egui::stamp::Stamp;
use std::collections::HashSet;
use std::sync::Arc;

fn deg(x: f64) -> i64 {
    (x * 1e6).round() as i64
}

fn angle(x: f64) -> Measure {
    Measure::Micro(deg(x))
}

fn ts(minute: u32) -> Stamp {
    let moment = chrono::NaiveDate::from_ymd_opt(2024, 1, 1)
        .unwrap()
        .and_hms_opt(0, minute, 0)
        .unwrap()
        .and_utc();
    Stamp::new(moment.timestamp(), moment.timestamp_subsec_nanos()).unwrap()
}

/// A texture of one pixel. The context allocates it through its own texture
/// manager, so this needs no window.
fn dummy_texture(ctx: &egui::Context) -> LoopFrameImage {
    let image = egui::ColorImage::from_rgba_unmultiplied([1, 1], &[255, 255, 255, 255]);
    LoopFrameImage::PlanView(RadarImageData {
        texture: ctx.load_texture("test", image, egui::TextureOptions::NEAREST),
        lat: 0,
        lon: 0,
        max_range_km: deg(100.0),
        value_data: Arc::new(Vec::new()),
    })
}

const SITE: &str = "KTLX";

fn site(name: &str, lat: f64, lon: f64) -> RadarSite {
    RadarSite { name: name.to_owned(), lat: deg(lat), lon: deg(lon) }
}

fn loop_with_frames(count: usize, current_frame: usize) -> LoopPlaybackState {
    loop_for_site(&site(SITE, 35.0, -97.0), count, current_frame)
}

fn loop_for_site(site: &RadarSite, count: usize, current_frame: usize) -> LoopPlaybackState {
    let mut state = LoopPlaybackState::new_for_loop(3600, site, RenderView::PlanView);
    state.phase = LoopPhase::Rendering;
    state.frames = (0..count)
        .map(|i| LoopFrame {
            timestamp: ts(i as u32),
            image: None,
            render_in_flight: false,
            render_failed: false,
        })
        .collect();
    state.current_frame = current_frame;
    state
}

fn all_scans_available(_: &LoopFrame) -> bool {
    true
}

fn target(site: &str, product: RadarProduct, elevation: Measure) -> RenderTarget {
    RenderTarget::new(site, product, elevation)
}

/// The pair of sweeps a broadcast normally arrives with.
fn same_sweep() -> BroadcastSweep {
    BroadcastSweep {
        rendered: angle(0.48),
        own: Some(angle(0.48)),
    }
}

#[test]
fn render_set_walks_outward_from_playhead() {
    let state = loop_with_frames(8, 0);
    assert_eq!(state.render_set_indices(5), vec![0, 1, 7, 2, 6]);
}

#[test]
fn render_set_is_capped_and_deduplicated() {
    let state = loop_with_frames(4, 2);
    let indices = state.render_set_indices(12);
    assert_eq!(indices.len(), 4, "cannot exceed the frame count");
    assert_eq!(
        indices.iter().copied().collect::<HashSet<_>>(),
        (0..4).collect::<HashSet<_>>(),
        "every frame covered exactly once"
    );

    assert!(state.render_set_indices(0).is_empty());
    assert!(loop_with_frames(0, 0).render_set_indices(6).is_empty());
}

#[test]
fn starved_frames_block_readiness() {
    let ctx = egui::Context::default();
    let mut state = loop_with_frames(4, 0);
    state.frames[0].image = Some(dummy_texture(&ctx));

    assert!(
        !state.frames.iter().any(|f| f.render_in_flight),
        "precondition: nothing is in flight"
    );
    assert!(
        !state.render_set_settled(12, all_scans_available),
        "frames that are pending but not yet spawned must block readiness"
    );
}

#[test]
fn fully_rendered_batch_is_settled() {
    let ctx = egui::Context::default();
    let mut state = loop_with_frames(4, 0);
    for frame in &mut state.frames {
        frame.image = Some(dummy_texture(&ctx));
    }
    assert!(state.render_set_settled(12, all_scans_available));
}

#[test]
fn in_flight_frames_block_readiness() {
    let ctx = egui::Context::default();
    let mut state = loop_with_frames(3, 0);
    state.frames[0].image = Some(dummy_texture(&ctx));
    state.frames[1].image = Some(dummy_texture(&ctx));
    state.frames[2].render_in_flight = true;
    assert!(!state.render_set_settled(12, all_scans_available));
}

#[test]
fn undownloaded_frames_do_not_block_readiness() {
    let ctx = egui::Context::default();
    let mut state = loop_with_frames(3, 0);
    state.frames[0].image = Some(dummy_texture(&ctx));
    let downloaded = state.frames[0].timestamp;
    assert!(state.render_set_settled(12, |f| f.timestamp == downloaded));
}

#[test]
fn failed_frames_do_not_block_readiness() {
    let ctx = egui::Context::default();
    let mut state = loop_with_frames(3, 0);
    state.frames[0].image = Some(dummy_texture(&ctx));
    state.frames[1].render_failed = true;
    state.frames[2].render_failed = true;
    assert!(state.render_set_settled(12, all_scans_available));
}

#[test]
fn retarget_is_a_noop_before_the_first_dispatch() {
    let mut state = loop_with_frames(3, 0);
    assert!(state.rendered_for.is_none());
    assert!(!state.retarget_renders(RadarProduct::Reflectivity, angle(0.5)));
    let adopted = state.rendered_for.as_ref().expect("target adopted");
    assert!(adopted.matches(&target(SITE, RadarProduct::Reflectivity, angle(0.5))));
}

#[test]
fn retarget_keeps_frames_when_the_selection_is_unchanged() {
    let ctx = egui::Context::default();
    let mut state = loop_with_frames(3, 0);
    state.retarget_renders(RadarProduct::Reflectivity, angle(0.5));
    state.frames[0].image = Some(dummy_texture(&ctx));

    assert!(!state.retarget_renders(RadarProduct::Reflectivity, angle(0.5)));
    assert!(state.frames[0].image.is_some());
    assert!(!state.retarget_renders(RadarProduct::Reflectivity, angle(0.505)));
    assert!(state.frames[0].image.is_some());
}

#[test]
fn retarget_discards_frame_state_that_judged_the_old_product() {
    let ctx = egui::Context::default();
    let mut state = loop_with_frames(4, 0);
    state.retarget_renders(RadarProduct::Velocity, angle(0.5));
    state.frames[0].image = Some(dummy_texture(&ctx));
    state.frames[1].render_failed = true;
    state.frames[2].render_failed = true;
    state.frames[3].render_in_flight = true;

    assert!(state.retarget_renders(RadarProduct::Reflectivity, angle(0.5)));
    assert!(state.frames.iter().all(|f| f.image.is_none()));
    assert!(state.frames.iter().all(|f| !f.render_failed));
    assert!(state.frames.iter().all(|f| !f.render_in_flight));

    assert!(!state.render_set_settled(12, all_scans_available));
}

#[test]
fn retarget_reacts_to_an_elevation_change() {
    let ctx = egui::Context::default();
    let mut state = loop_with_frames(3, 0);
    state.retarget_renders(RadarProduct::Reflectivity, angle(0.5));
    state.frames[0].image = Some(dummy_texture(&ctx));

    assert!(state.retarget_renders(RadarProduct::Reflectivity, angle(1.5)));
    assert!(state.frames[0].image.is_none());
    let retargeted = state.rendered_for.as_ref().expect("target adopted");
    assert!(retargeted.matches(&target(SITE, RadarProduct::Reflectivity, angle(1.5))));
}

#[test]
fn a_result_rendered_for_another_site_is_rejected() {
    let mut state = loop_with_frames(3, 0);
    state.retarget_renders(RadarProduct::Reflectivity, angle(0.5));
    let frame_ts = state.frames[0].timestamp;
    state.frames[0].render_in_flight = true;

    assert_eq!(
        state
            .frame_awaiting_render_result(frame_ts, &target(SITE, RadarProduct::Reflectivity, angle(0.5))),
        Some(0),
        "the loop's own site is accepted"
    );
    assert_eq!(
        state.frame_awaiting_render_result(
            frame_ts,
            &target("KOUN", RadarProduct::Reflectivity, angle(0.5))
        ),
        None,
        "an image projected around another site's coordinates must be rejected"
    );
}

#[test]
fn a_rebuilt_loop_rejects_the_previous_sites_in_flight_result() {
    let mut old = loop_with_frames(3, 0);
    old.retarget_renders(RadarProduct::Reflectivity, angle(0.5));
    let frame_ts = old.frames[0].timestamp;
    old.frames[0].render_in_flight = true;
    let in_flight_target = old.rendered_for.clone().expect("dispatched target");

    let mut rebuilt = loop_for_site(&site("KOUN", 35.2, -97.5), 3, 0);
    rebuilt.retarget_renders(RadarProduct::Reflectivity, angle(0.5));
    rebuilt.frames[0].render_in_flight = true;

    assert_eq!(
        rebuilt.frames[0].timestamp, frame_ts,
        "precondition: the rebuilt loop lists a frame at the same timestamp"
    );
    assert_eq!(
        rebuilt.frame_awaiting_render_result(frame_ts, &in_flight_target),
        None,
        "the old site's render must not be painted onto the new site's frame"
    );
    assert_eq!(
        rebuilt.frame_awaiting_render_result(
            frame_ts,
            &target("KOUN", RadarProduct::Reflectivity, angle(0.5))
        ),
        Some(0),
        "the new site's own render is still accepted"
    );
}

#[test]
fn a_sibling_on_another_site_does_not_accept_the_broadcast() {
    let mut sibling = loop_for_site(&site("KOUN", 35.2, -97.5), 3, 0);
    sibling.retarget_renders(RadarProduct::Reflectivity, angle(0.5));

    assert!(
        !sibling.is_rendered_for(&target(SITE, RadarProduct::Reflectivity, angle(0.5))),
        "same product and elevation, different geometry"
    );
    assert!(sibling.is_rendered_for(&target("KOUN", RadarProduct::Reflectivity, angle(0.5))));
}

#[test]
fn a_loop_takes_its_code_and_its_coordinates_from_one_site() {
    let koun = site("KOUN", 35.23, -97.46);
    let state = LoopPlaybackState::new_for_loop(3600, &koun, RenderView::PlanView);

    assert_eq!(state.site, koun.name);
    assert_eq!(state.site_lat, koun.lat);
    assert_eq!(state.site_lon, koun.lon);
}

#[test]
fn a_donor_on_another_site_is_not_offered() {
    let ctx = egui::Context::default();
    let mut donor = loop_with_frames(3, 0);
    donor.retarget_renders(RadarProduct::Reflectivity, angle(0.5));
    donor.frames[0].image = Some(dummy_texture(&ctx));
    let frame_ts = donor.frames[0].timestamp;

    assert_eq!(
        donor.frame_donatable_to(frame_ts, &target(SITE, RadarProduct::Reflectivity, angle(0.5))),
        Some(0),
        "a pane on the same target may take this texture"
    );
    assert_eq!(
        donor.frame_donatable_to(frame_ts, &target("KOUN", RadarProduct::Reflectivity, angle(0.5))),
        None,
        "a pane whose loop is on another site must render its own"
    );
}

#[test]
fn donor_and_broadcast_agree_on_who_may_serve_a_frame() {
    let ctx = egui::Context::default();
    let mut donor = loop_with_frames(3, 0);
    donor.retarget_renders(RadarProduct::Reflectivity, angle(0.5));
    donor.frames[1].image = Some(dummy_texture(&ctx));
    let frame_ts = donor.frames[1].timestamp;

    let same_site = loop_with_frames(3, 0);
    let mut same_site = same_site;
    same_site.retarget_renders(RadarProduct::Reflectivity, angle(0.5));

    let mut other_site = loop_for_site(&site("KOUN", 35.2, -97.5), 3, 0);
    other_site.retarget_renders(RadarProduct::Reflectivity, angle(0.5));

    for (label, receiver) in [("same site", &same_site), ("other site", &other_site)] {
        let offered = donor
            .frame_donatable_to(frame_ts, receiver.rendered_for.as_ref().unwrap())
            .is_some();
        let accepted = receiver
            .frame_accepting_broadcast(frame_ts, donor.rendered_for.as_ref().unwrap(), same_sweep())
            .is_some();
        assert_eq!(
            offered, accepted,
            "{label}: donor offered={offered} but broadcast accepted={accepted}"
        );
    }

    assert!(
            same_site
                .frame_accepting_broadcast(
                    frame_ts,
                    donor.rendered_for.as_ref().unwrap(),
                    same_sweep(),
                )
                .is_some()
        );
}

#[test]
fn an_untextured_frame_is_not_donatable() {
    let ctx = egui::Context::default();
    let mut donor = loop_with_frames(3, 0);
    donor.retarget_renders(RadarProduct::Reflectivity, angle(0.5));
    let current = target(SITE, RadarProduct::Reflectivity, angle(0.5));
    let frame_ts = donor.frames[0].timestamp;

    assert_eq!(
        donor.frame_donatable_to(frame_ts, &current),
        None,
        "a blank frame has nothing to give"
    );
    donor.frames[0].render_in_flight = true;
    assert_eq!(donor.frame_donatable_to(frame_ts, &current), None);

    donor.frames[0].render_in_flight = false;
    donor.frames[0].image = Some(dummy_texture(&ctx));
    assert_eq!(donor.frame_donatable_to(frame_ts, &current), Some(0));
}

#[test]
fn a_textured_frame_does_not_accept_a_broadcast() {
    let ctx = egui::Context::default();
    let mut state = loop_with_frames(3, 0);
    state.retarget_renders(RadarProduct::Reflectivity, angle(0.5));
    let current = target(SITE, RadarProduct::Reflectivity, angle(0.5));
    let frame_ts = state.frames[0].timestamp;

    assert_eq!(
        state.frame_accepting_broadcast(frame_ts, &current, same_sweep()),
        Some(0)
    );
    state.frames[0].image = Some(dummy_texture(&ctx));
    assert_eq!(
        state.frame_accepting_broadcast(frame_ts, &current, same_sweep()),
        None
    );
}

#[test]
fn a_broadcast_of_a_different_sweep_is_refused() {
    let mut state = loop_with_frames(3, 0);
    state.retarget_renders(RadarProduct::Reflectivity, angle(0.5));
    let current = target(SITE, RadarProduct::Reflectivity, angle(0.5));
    let frame_ts = state.frames[0].timestamp;

    assert!(
        state.is_rendered_for(&current),
        "precondition: a target-only test accepts"
    );

    assert_eq!(
        state.frame_accepting_broadcast(
            frame_ts,
            &current,
            BroadcastSweep {
                rendered: angle(1.4),
                own: Some(angle(0.48))
            },
        ),
        None,
        "an image of the 1.4° sweep must not fill a frame whose scan snaps to 0.48°"
    );
    assert_eq!(
        state.frame_accepting_broadcast(
            frame_ts,
            &current,
            BroadcastSweep {
                rendered: angle(0.48),
                own: Some(angle(0.48))
            },
        ),
        Some(0),
        "the same sweep is still handed over — the point of the broadcast"
    );
    assert_eq!(
        state.frame_accepting_broadcast(
            frame_ts,
            &current,
            BroadcastSweep {
                rendered: angle(0.48),
                own: Some(angle(0.485))
            },
        ),
        Some(0),
        "jitter below the tolerance is the same sweep"
    );
}

#[test]
fn a_broadcast_is_refused_when_the_receiver_has_no_sweep_of_its_own() {
    let mut state = loop_with_frames(3, 0);
    state.retarget_renders(RadarProduct::Reflectivity, angle(0.5));
    let current = target(SITE, RadarProduct::Reflectivity, angle(0.5));
    let frame_ts = state.frames[0].timestamp;

    assert_eq!(
        state.frame_accepting_broadcast(
            frame_ts,
            &current,
            BroadcastSweep {
                rendered: angle(0.48),
                own: None
            },
        ),
        None
    );
}

#[test]
fn the_mutable_broadcast_accessor_applies_the_sweep_test() {
    let mut state = loop_with_frames(3, 0);
    state.retarget_renders(RadarProduct::Reflectivity, angle(0.5));
    let current = target(SITE, RadarProduct::Reflectivity, angle(0.5));
    let frame_ts = state.frames[0].timestamp;

    assert!(
        state
            .frame_accepting_broadcast_mut(
                frame_ts,
                &current,
                BroadcastSweep {
                    rendered: angle(1.4),
                    own: Some(angle(0.48))
                },
            )
            .is_none(),
        "no frame is handed back for an image of the wrong sweep"
    );
    assert!(
        state
            .frame_accepting_broadcast_mut(frame_ts, &current, same_sweep())
            .is_some()
    );
}

#[test]
fn an_inactive_loop_takes_nothing_from_any_path() {
    let ctx = egui::Context::default();
    let mut state = loop_with_frames(3, 0);
    state.retarget_renders(RadarProduct::Reflectivity, angle(0.5));
    let current = target(SITE, RadarProduct::Reflectivity, angle(0.5));
    let frame_ts = state.frames[0].timestamp;
    state.frames[0].render_in_flight = true;
    state.frames[1].image = Some(dummy_texture(&ctx));
    let textured_ts = state.frames[1].timestamp;

    assert!(
        state
            .frame_awaiting_render_result(frame_ts, &current)
            .is_some()
    );
    assert!(state.frame_donatable_to(textured_ts, &current).is_some());

    state.phase = LoopPhase::Inactive;

    assert_eq!(state.frame_awaiting_render_result(frame_ts, &current), None);
    assert_eq!(
        state.frame_accepting_broadcast(frame_ts, &current, same_sweep()),
        None
    );
    assert_eq!(state.frame_donatable_to(textured_ts, &current), None);
}

#[test]
fn the_mutable_accessors_hand_back_the_frame_that_was_chosen() {
    let mut state = loop_with_frames(3, 0);
    state.retarget_renders(RadarProduct::Reflectivity, angle(0.5));
    let current = target(SITE, RadarProduct::Reflectivity, angle(0.5));

    let shared = state.frames[0].timestamp;
    state.frames[2].timestamp = shared;
    state.frames[2].render_in_flight = true;

    let expected = state.frame_awaiting_render_result(shared, &current);
    assert_eq!(expected, Some(2));

    let frame = state
        .frame_awaiting_render_result_mut(shared, &current)
        .expect("frame handed back");
    frame.render_in_flight = false;
    assert!(!state.frames[2].render_in_flight);
    assert_eq!(state.frame_awaiting_render_result(shared, &current), None);
}

#[test]
fn the_broadcast_accessor_hands_back_the_frame_that_was_chosen() {
    let ctx = egui::Context::default();
    let mut state = loop_with_frames(3, 0);
    state.retarget_renders(RadarProduct::Reflectivity, angle(0.5));
    let current = target(SITE, RadarProduct::Reflectivity, angle(0.5));

    let shared = state.frames[0].timestamp;
    state.frames[2].timestamp = shared;
    state.frames[0].image = Some(dummy_texture(&ctx));

    assert_eq!(
        state.frames.iter().position(|f| f.timestamp == shared),
        Some(0),
        "precondition: a timestamp-only lookup lands on the textured frame"
    );
    assert_eq!(
        state.frame_accepting_broadcast(shared, &current, same_sweep()),
        Some(2)
    );

    let frame = state
        .frame_accepting_broadcast_mut(shared, &current, same_sweep())
        .expect("frame handed back");
    frame.image = Some(dummy_texture(&ctx));
    assert!(
        state.frames[2].image.is_some(),
        "frame 2 received the texture"
    );
    assert_eq!(
        state.frame_accepting_broadcast(shared, &current, same_sweep()),
        None,
        "and nothing at this timestamp wants another"
    );
}

#[test]
fn target_matching_tolerates_elevation_jitter_only() {
    let base = target(SITE, RadarProduct::Reflectivity, angle(0.5));
    assert!(base.matches(&target(SITE, RadarProduct::Reflectivity, angle(0.505))));
    assert!(!base.matches(&target(SITE, RadarProduct::Reflectivity, angle(1.5))));
    assert!(!base.matches(&target(SITE, RadarProduct::Velocity, angle(0.5))));
    assert!(!base.matches(&target("KOUN", RadarProduct::Reflectivity, angle(0.5))));
}

#[test]
fn the_accepted_frame_is_the_one_that_is_in_flight() {
    let mut state = loop_with_frames(3, 0);
    state.retarget_renders(RadarProduct::Reflectivity, angle(0.5));

    let shared = state.frames[0].timestamp;
    state.frames[2].timestamp = shared;
    state.frames[2].render_in_flight = true;

    assert_eq!(
        state.frames.iter().position(|f| f.timestamp == shared),
        Some(0),
        "precondition: a timestamp-only lookup lands on the wrong frame"
    );
    assert_eq!(
        state.frame_awaiting_render_result(shared, &target(SITE, RadarProduct::Reflectivity, angle(0.5))),
        Some(2),
        "the result must be written to the frame that was actually dispatched"
    );
}

#[test]
fn eviction_keeps_exactly_the_render_set() {
    let ctx = egui::Context::default();
    let mut state = loop_with_frames(10, 4);
    for frame in &mut state.frames {
        frame.image = Some(dummy_texture(&ctx));
    }

    state.evict_textures_outside_render_set(3);

    let textured: HashSet<usize> = state
        .frames
        .iter()
        .enumerate()
        .filter(|(_, f)| f.image.is_some())
        .map(|(i, _)| i)
        .collect();
    assert_eq!(
        textured,
        state
            .render_set_indices(3)
            .into_iter()
            .collect::<HashSet<_>>()
    );
    assert!(state.render_set_settled(3, all_scans_available));
}

#[test]
fn stale_result_is_rejected_after_the_frame_is_respawned() {
    let mut state = loop_with_frames(3, 0);
    state.retarget_renders(RadarProduct::Velocity, angle(0.5));
    let frame_ts = state.frames[0].timestamp;
    state.frames[0].render_in_flight = true;

    assert!(state.retarget_renders(RadarProduct::Reflectivity, angle(0.5)));
    state.frames[0].render_in_flight = true;

    assert!(
        state.frames[0].render_in_flight,
        "precondition: an in-flight-only guard would accept the stale result here"
    );
    assert_eq!(
        state.frame_awaiting_render_result(frame_ts, &target(SITE, RadarProduct::Velocity, angle(0.5))),
        None,
        "a result for the abandoned target must be rejected"
    );
    assert_eq!(
        state
            .frame_awaiting_render_result(frame_ts, &target(SITE, RadarProduct::Reflectivity, angle(0.5))),
        Some(0),
        "the re-dispatched render for the current target is still accepted"
    );
}

#[test]
fn results_for_frames_not_awaiting_one_are_rejected() {
    let ctx = egui::Context::default();
    let mut state = loop_with_frames(3, 0);
    state.retarget_renders(RadarProduct::Reflectivity, angle(0.5));
    let frame_ts = state.frames[0].timestamp;

    let current = target(SITE, RadarProduct::Reflectivity, angle(0.5));

    assert_eq!(state.frame_awaiting_render_result(frame_ts, &current), None);
    state.frames[0].image = Some(dummy_texture(&ctx));
    assert_eq!(state.frame_awaiting_render_result(frame_ts, &current), None);

    state.frames[1].render_in_flight = true;
    assert_eq!(state.frame_awaiting_render_result(ts(59), &current), None);
}

#[test]
fn eviction_drops_textured_frames_outside_the_render_set() {
    let ctx = egui::Context::default();
    let mut state = loop_with_frames(10, 0);
    for idx in [2, 3, 4, 5] {
        state.frames[idx].image = Some(dummy_texture(&ctx));
    }
    assert_eq!(state.render_set_indices(3), vec![0, 1, 9]);

    state.evict_textures_outside_render_set(3);

    assert!(
        state.frames.iter().all(|f| f.image.is_none()),
        "none of the textured frames were in the render set"
    );
}

#[test]
fn eviction_is_a_noop_within_budget() {
    let ctx = egui::Context::default();
    let mut state = loop_with_frames(10, 0);
    state.frames[5].image = Some(dummy_texture(&ctx));
    state.frames[6].image = Some(dummy_texture(&ctx));

    state.evict_textures_outside_render_set(3);

    assert!(state.frames[5].image.is_some());
    assert!(state.frames[6].image.is_some());
}

#[test]
fn frames_outside_the_render_set_do_not_block_readiness() {
    let ctx = egui::Context::default();
    let mut state = loop_with_frames(10, 0);
    for &idx in &state.render_set_indices(3) {
        state.frames[idx].image = Some(dummy_texture(&ctx));
    }
    assert!(state.render_set_settled(3, all_scans_available));
    assert!(
        !state.render_set_settled(10, all_scans_available),
        "widening the budget pulls blank frames back into the set"
    );
}
