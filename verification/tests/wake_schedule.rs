use rustdar_egui::actions::RadarConfig;
use rustdar_egui::gui::{Gui, Startup};
use rustdar_egui::overlays::{LayerFeed, LayerHandlers, OverlayKind};
use rustdar_egui::scan::ProductRanks;
use rustdar_egui::stamp::Stamp;
use std::time::Duration;

/// The moment of every test, in milliseconds on the monotonic clock.
const NOW: u64 = 10_000_000;

const SLACK: Duration = Duration::from_millis(500);

/// The poll interval of a poller that is not backed off.
const INTERVAL: Duration = Duration::from_secs(60);

fn fresh() -> Gui {
    let mut handlers = LayerHandlers::new();
    handlers.feeds.insert(
        OverlayKind::NwsAlerts,
        LayerFeed {
            auto_poll_interval: Some(120),
            fetching: false,
            fetched_at: None,
            has_data: false,
        },
    );
    Gui::new(Startup {
        config: RadarConfig {
            site: "KTLX".to_owned(),
            timestamp: Stamp::new(1_785_000_000, 0).unwrap(),
        },
        notifier_endpoint: "https://notify.example".to_owned(),
        handlers,
        ranks: ProductRanks::new(),
        codes: ProductRanks::new(),
    })
}

/// A poller that last fetched `ago` ago, as a frame that polled would leave it.
fn polled(gui: &mut Gui, ago: Duration) {
    gui.auto_poll.last_fetch_time = Some(NOW - ago.as_millis() as u64);
}

/// Every layer off, so that the radar poll is the only timer left.
fn only_the_radar_poll(gui: &mut Gui) {
    for kind in OverlayKind::all() {
        gui.pane_mut(0)
            .expect("a fresh Gui has one pane")
            .enabled_overlays
            .insert(kind, false);
    }
}

#[test]
fn an_idle_poller_sleeps_out_the_rest_of_its_interval() {
    let mut gui = fresh();
    only_the_radar_poll(&mut gui);
    polled(&mut gui, Duration::from_secs(5));

    let delay = gui
        .auto_poll_delay(NOW).map(Duration::from_millis)
        .expect("a live pane with auto-poll on is owed a poll");
    assert!(
        delay > INTERVAL - Duration::from_secs(5) - SLACK
            && delay <= INTERVAL - Duration::from_secs(5) + SLACK,
        "the wake is not the remainder of the interval: {delay:?}"
    );
}

#[test]
fn the_wake_lands_exactly_when_the_poll_would_fire() {
    for (ago, due) in [
        (Duration::from_millis(59_500), false),
        (INTERVAL, true),
        (INTERVAL + Duration::from_secs(30), true),
    ] {
        let mut gui = fresh();
        polled(&mut gui, ago);
        assert_eq!(
            gui.auto_poll.should_poll(NOW),
            due,
            "the premise moved: {ago:?} into a {INTERVAL:?} interval"
        );
        assert_eq!(
            gui.auto_poll
                .poll_delay(NOW).map(Duration::from_millis)
                .expect("a timer is running")
                .is_zero(),
            due,
            "at {ago:?} the schedule and the poll disagree about whether a \
             round is due, so a wake will be spent on a frame that polls \
             nothing"
        );
    }
}

#[test]
fn a_poll_no_pane_can_use_is_not_scheduled_for() {
    let mut gui = fresh();
    only_the_radar_poll(&mut gui);
    polled(&mut gui, INTERVAL * 4);
    gui.set_viewing_live_for_pane(0, false);

    assert!(
        !gui.is_any_pane_live(),
        "precondition: nothing on screen wants a live scan"
    );
    assert_eq!(
        gui.auto_poll_delay(NOW).map(Duration::from_millis),
        None,
        "an app whose panes are all historic is being woken for a poll that \
         `check_auto_polls` will refuse"
    );
}

#[test]
fn auto_poll_switched_off_asks_for_nothing() {
    let mut gui = fresh();
    only_the_radar_poll(&mut gui);
    polled(&mut gui, Duration::from_secs(5));
    gui.auto_poll.enabled = false;

    assert_eq!(gui.auto_poll_delay(NOW).map(Duration::from_millis), None);
    assert_eq!(
        gui.status_tick_delay(NOW).map(Duration::from_millis),
        None,
        "there is no countdown on screen to advance either"
    );
}

#[test]
fn a_fetch_in_flight_yields_the_wake_to_whatever_ends_it() {
    let mut gui = fresh();
    only_the_radar_poll(&mut gui);
    polled(&mut gui, INTERVAL * 2);
    gui.set_fetching(true);

    assert_eq!(gui.auto_poll_delay(NOW).map(Duration::from_millis), None);
}

#[test]
fn an_overlay_is_scheduled_for_only_while_a_pane_can_draw_it() {
    let kind = OverlayKind::NwsAlerts;
    let mut gui = fresh();
    let interval = gui
        .overlays
        .feed_of(kind)
        .auto_poll_interval
        .expect("NWS alerts auto-poll; this test needs a layer that does");

    gui.pane_mut(0)
        .unwrap()
        .enabled_overlays
        .insert(kind, false);
    assert_eq!(gui.overlay_poll_delay(kind, NOW).map(Duration::from_millis), None);

    gui.pane_mut(0).unwrap().enabled_overlays.insert(kind, true);
    assert_eq!(
        gui.overlay_poll_delay(kind, NOW).map(Duration::from_millis),
        Some(Duration::ZERO),
        "a layer that has never been fetched is due now"
    );

    let fetched = LayerFeed { fetched_at: Some(NOW), ..gui.overlays.feed_of(kind) };
    gui.overlays.feeds.insert(kind, fetched);
    let delay = gui.overlay_poll_delay(kind, NOW).map(Duration::from_millis).expect("still owed");
    let interval = Duration::from_secs(interval);
    assert!(
        delay > interval - SLACK && delay <= interval,
        "a layer fetched just now must be scheduled a whole interval out, \
         not {delay:?}"
    );

    gui.overlays.feeds.insert(kind, LayerFeed { fetching: true, ..fetched });
    assert_eq!(
        gui.overlay_poll_delay(kind, NOW).map(Duration::from_millis),
        None,
        "a refresh already in flight is being scheduled for a second time"
    );
}

#[test]
fn the_countdown_wake_lands_on_the_second_the_number_moves() {
    let mut gui = fresh();
    polled(&mut gui, Duration::from_millis(10_400));
    assert_eq!(
        gui.auto_poll.time_until_next(NOW),
        Some(50),
        "precondition: the bar is printing `archive 50s`"
    );

    let tick = gui
        .auto_poll
        .countdown_tick_delay(NOW).map(Duration::from_millis)
        .expect("the count is still moving");
    assert!(
        tick > Duration::from_millis(500)
            && tick <= Duration::from_millis(700),
        "the tick is not the remainder of this second: {tick:?}"
    );
}

#[test]
fn a_countdown_that_has_bottomed_out_asks_for_no_more_frames() {
    let mut gui = fresh();
    polled(&mut gui, INTERVAL * 3);
    assert_eq!(
        gui.auto_poll.time_until_next(NOW),
        Some(0),
        "precondition: the count has bottomed out"
    );

    assert_eq!(gui.auto_poll.countdown_tick_delay(NOW).map(Duration::from_millis), None);
}

#[test]
fn the_countdown_tick_is_never_a_zero_length_sleep() {
    for millis in [0, 1, 999, 1_000, 1_001, 30_000, 59_999] {
        let mut gui = fresh();
        polled(&mut gui, Duration::from_millis(millis));
        let tick = gui
            .auto_poll
            .countdown_tick_delay(NOW).map(Duration::from_millis)
            .expect("the count is still moving");
        assert!(
            !tick.is_zero() && tick <= Duration::from_secs(1),
            "at {millis}ms in, the countdown asked for a {tick:?} sleep"
        );
    }
}

#[test]
fn a_status_bar_that_never_drew_asks_for_no_frames() {
    let mut gui = fresh();
    polled(&mut gui, Duration::from_secs(5));

    assert_eq!(
        gui.status_tick_delay(NOW).map(Duration::from_millis),
        None,
        "a countdown nobody has drawn is holding the event loop awake"
    );
}
