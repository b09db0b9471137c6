//! When the interface asks for new data, and how long it may sleep.

use vstd::prelude::*;
use crate::actions::{
    asks_for_overlay, lemma_requests_push, requests, GuiAction, RadarConfig, Request,
};
use crate::gui::{Gui, RadarState, TimeDialogState};
use crate::overlays::{all_overlays, LayerFeed, OverlayKind};
use crate::pane::PaneState;
use crate::poll::{elapsed, elapsed_ms, rest, rest_ms, sooner, sooner_of, AutoPollState, COUNTABLE_SECS};
use crate::stamp::{date_text, read_typed, time_text, typed_moment, Stamp};

verus! {

/// The distinct sites of the panes that view live data, in the order in which
/// they first come.
pub open spec fn live_sites_of(panes: Seq<PaneState>) -> Seq<Seq<char>>
    decreases panes.len(),
{
    if panes.len() == 0 {
        Seq::empty()
    } else {
        let before = live_sites_of(panes.drop_last());
        let last = panes.last();
        if last.viewing_live && !before.contains(last.site@) {
            before.push(last.site@)
        } else {
            before
        }
    }
}

/// The texts of a list of strings.
pub open spec fn texts(list: Seq<String>) -> Seq<Seq<char>> {
    list.map_values(|s: String| s@)
}

/// A look for new scans of each of these sites.
pub open spec fn checks_for(sites: Seq<Seq<char>>, at: Stamp) -> Seq<Request> {
    sites.map_values(|site: Seq<char>| Request::NewScans { site, at })
}

/// Whether a text is among those of a list.
fn holds_site(list: &Vec<String>, site: &String) -> (r: bool)
    ensures
        r == texts(list@).contains(site@),
{
    let mut i: usize = 0;
    while i < list.len()
        invariant
            i <= list@.len(),
            forall|k: int| 0 <= k < i ==> (#[trigger] list@[k])@ != site@,
        decreases list@.len() - i,
    {
        if list[i] == *site {
            assert(texts(list@)[i as int] == site@);
            return true;
        }
        i = i + 1;
    }
    proof {
        if texts(list@).contains(site@) {
            let k = texts(list@).index_of(site@);
            assert(list@[k]@ == site@);
        }
    }
    false
}

/// Every live site of a list of panes is listed, and each only once.
pub proof fn law_live_sites_are_distinct(panes: Seq<PaneState>)
    ensures
        live_sites_of(panes).no_duplicates(),
        forall|i: int|
            0 <= i < panes.len() && (#[trigger] panes[i]).viewing_live ==> live_sites_of(
                panes,
            ).contains(panes[i].site@),
        forall|site: Seq<char>| #[trigger]
            live_sites_of(panes).contains(site) ==> exists|i: int|
                0 <= i < panes.len() && (#[trigger] panes[i]).viewing_live && panes[i].site@
                    == site,
    decreases panes.len(),
{
    if panes.len() > 0 {
        let front = panes.drop_last();
        law_live_sites_are_distinct(front);
        let before = live_sites_of(front);
        let sites = live_sites_of(panes);
        let last = panes.last();
        assert forall|i: int|
            0 <= i < panes.len() && (#[trigger] panes[i]).viewing_live implies sites.contains(
            panes[i].site@,
        ) by {
            if i < front.len() {
                assert(front[i] == panes[i]);
                let k = before.index_of(panes[i].site@);
                assert(sites[k] == panes[i].site@);
            } else if before.contains(last.site@) {
                assert(sites == before);
            } else {
                assert(sites[before.len() as int] == last.site@);
            }
        }
        assert forall|site: Seq<char>| #[trigger] sites.contains(site) implies exists|i: int|
            0 <= i < panes.len() && (#[trigger] panes[i]).viewing_live && panes[i].site@
                == site by {
            if before.contains(site) {
                let i = choose|i: int|
                    0 <= i < front.len() && (#[trigger] front[i]).viewing_live && front[i].site@
                        == site;
                assert(panes[i].viewing_live);
            } else {
                let k = sites.index_of(site);
                assert(k == before.len());
                assert(panes[panes.len() - 1].viewing_live);
            }
        }
    }
}

impl Gui {
    /// The distinct sites some shown pane is watching live.
    pub fn live_sites(&self) -> (r: Vec<String>)
        ensures
            texts(r@) == live_sites_of(self.shown_panes()),
    {
        let count: usize = self.visible_pane_count();
        let mut sites: Vec<String> = Vec::new();
        let ghost panes = self.shown_panes();
        let mut i: usize = 0;
        assert(panes.take(0).len() == 0);
        assert(texts(sites@) =~= live_sites_of(panes.take(0)));
        while i < count
            invariant
                count == self.shown(),
                count <= self.panes@.len(),
                panes == self.shown_panes(),
                i <= count,
                texts(sites@) == live_sites_of(panes.take(i as int)),
            decreases count - i,
        {
            proof {
                assert(panes.take(i + 1).drop_last() =~= panes.take(i as int));
                assert(panes.take(i + 1).last() == self.panes@[i as int]);
            }
            if self.panes[i].viewing_live && !holds_site(&sites, &self.panes[i].site) {
                let ghost before = sites@;
                sites.push(self.panes[i].site.clone());
                assert(texts(sites@) =~= texts(before).push(self.panes@[i as int].site@));
            }
            i = i + 1;
        }
        assert(panes.take(i as int) =~= panes);
        sites
    }

    /// The scan a fetch on behalf of the active pane is for: the shared moment,
    /// and the pane's own site.
    pub fn active_pane_fetch_config(&self) -> (r: RadarConfig)
        requires
            self.wf(),
        ensures
            r.site@ == self.panes@[self.active_pane as int].site@,
            r.timestamp == self.radar.config.timestamp,
    {
        RadarConfig {
            site: self.panes[self.active_pane].site.clone(),
            timestamp: self.radar.config.timestamp,
        }
    }

    /// Whether a layer is due for a refresh: it refreshes on its own, a shown
    /// map draws it, no refresh is in flight, and its interval has passed or it
    /// was never fetched.
    pub open spec fn overlay_due(self, kind: OverlayKind, now: int) -> bool {
        let feed = self.overlays.feed(kind);
        &&& feed.auto_poll_interval is Some
        &&& exists|i: int| 0 <= i < self.shown() && #[trigger] self.draws_overlay(i, kind)
        &&& !feed.fetching
        &&& feed.fetched_at matches Some(then) ==> elapsed_ms(then as int, now) / 1000
            >= feed.auto_poll_interval->0
    }

    /// The first shown map that draws the layer.
    pub open spec fn first_drawing(self, kind: OverlayKind) -> int {
        choose|i: int|
            {
                &&& 0 <= i < self.shown()
                &&& #[trigger] self.draws_overlay(i, kind)
                &&& forall|k: int| 0 <= k < i ==> !#[trigger] self.draws_overlay(k, kind)
            }
    }

    /// The refreshes that are due among the first `n` kinds of layer.
    pub open spec fn overlay_requests(self, n: int, now: int) -> Seq<Request>
        decreases n,
    {
        if n <= 0 {
            Seq::empty()
        } else {
            let before = self.overlay_requests(n - 1, now);
            let kind = all_overlays()[n - 1];
            if self.overlay_due(kind, now) {
                before.push(
                    Request::Overlay { kind, pane_idx: self.first_drawing(kind) as usize },
                )
            } else {
                before
            }
        }
    }

    /// Whether the first fetch of the session is still to be asked for.
    pub open spec fn first_fetch_due(self) -> bool {
        !self.auto_poll.initial_fetch_done && !self.radar.fetching
    }

    /// The interface after the first fetch of the session, where that is due.
    pub open spec fn after_first_fetch(self, now: u64) -> Gui {
        if self.first_fetch_due() {
            Gui {
                radar: RadarState { fetching: true, ..self.radar },
                auto_poll: AutoPollState {
                    initial_fetch_done: true,
                    last_fetch_time: Some(now),
                    ..self.auto_poll
                },
                ..self
            }
        } else {
            self
        }
    }

    /// Whether a look for new scans is due: some shown pane is live, the timer
    /// has run out, and no fetch is in flight.
    pub open spec fn scan_check_due(self, now: int) -> bool {
        self.any_live() && self.auto_poll.enabled && self.auto_poll.due(now)
            && !self.radar.fetching
    }

    /// What the timers ask for at `now`.
    pub open spec fn poll_requests(self, now: u64, at: Stamp) -> Seq<Request> {
        let started = self.after_first_fetch(now);
        let first = if self.first_fetch_due() {
            seq![
                Request::Scan {
                    site: self.panes@[self.active_pane as int].site@,
                    at: self.radar.config.timestamp,
                },
            ]
        } else {
            Seq::empty()
        };
        let checks = if started.scan_check_due(now as int) {
            checks_for(live_sites_of(self.shown_panes()), at)
        } else {
            Seq::empty()
        };
        first + checks + self.overlay_requests(all_overlays().len() as int, now as int)
    }

    /// The interface once the timers have been looked at.
    pub open spec fn polled(self, now: u64) -> Gui {
        let started = self.after_first_fetch(now);
        if started.scan_check_due(now as int) {
            Gui {
                auto_poll: AutoPollState { last_fetch_time: Some(now), ..started.auto_poll },
                ..started
            }
        } else {
            started
        }
    }
}

/// Look for new scans of each of these sites.
fn push_checks(actions: &mut Vec<GuiAction>, sites: &Vec<String>, at: Stamp)
    ensures
        requests(final(actions)@) == requests(old(actions)@) + checks_for(texts(sites@), at),
{
    let ghost asked = requests(actions@);
    let ghost wanted = checks_for(texts(sites@), at);
    let mut i: usize = 0;
    assert(asked + wanted.take(0) =~= asked);
    while i < sites.len()
        invariant
            i <= sites@.len(),
            wanted == checks_for(texts(sites@), at),
            asked == requests(old(actions)@),
            requests(actions@) == asked + wanted.take(i as int),
        decreases sites@.len() - i,
    {
        let config = RadarConfig { site: sites[i].clone(), timestamp: at };
        proof {
            lemma_requests_push(actions@, GuiAction::CheckForNewScans(config));
            assert(wanted[i as int] == Request::NewScans { site: sites@[i as int]@, at });
            assert(asked + wanted.take(i + 1) =~= (asked + wanted.take(i as int)).push(
                wanted[i as int],
            ));
        }
        actions.push(GuiAction::CheckForNewScans(config));
        i = i + 1;
    }
    assert(wanted.take(i as int) =~= wanted);
}

impl Gui {
    /// Whether a layer is due for a refresh, and on behalf of which pane.
    fn overlay_refresh(&self, kind: OverlayKind, now: u64) -> (r: Option<usize>)
        ensures
            r is Some <==> self.overlay_due(kind, now as int),
            r matches Some(idx) ==> idx == self.first_drawing(kind),
    {
        let feed: LayerFeed = self.overlays.feed_of(kind);
        let interval: u64 = match feed.auto_poll_interval {
            Some(interval) => interval,
            None => {
                return None;
            },
        };
        let idx: usize = match self.first_pane_with_overlay_enabled(kind) {
            Some(idx) => idx,
            None => {
                return None;
            },
        };
        proof {
            assert(self.draws_overlay(idx as int, kind));
            let first = self.first_drawing(kind);
            assert(self.draws_overlay(first, kind));
            assert(first == idx);
        }
        if feed.fetching {
            return None;
        }
        match feed.fetched_at {
            Some(then) => if elapsed(then, now) / 1000 < interval {
                return None;
            },
            None => {},
        }
        Some(idx)
    }

    /// Ask for the refreshes of every layer that is due.
    fn push_refreshes(&self, now: u64, actions: &mut Vec<GuiAction>)
        ensures
            requests(final(actions)@) == requests(old(actions)@) + self.overlay_requests(
                all_overlays().len() as int,
                now as int,
            ),
    {
        let kinds: Vec<OverlayKind> = OverlayKind::all();
        let ghost asked = requests(actions@);
        let mut i: usize = 0;
        assert(asked + self.overlay_requests(0, now as int) =~= asked);
        while i < kinds.len()
            invariant
                i <= kinds@.len(),
                kinds@ == all_overlays(),
                asked == requests(old(actions)@),
                requests(actions@) == asked + self.overlay_requests(i as int, now as int),
            decreases kinds@.len() - i,
        {
            let kind: OverlayKind = kinds[i];
            let ghost so_far = self.overlay_requests(i as int, now as int);
            match self.overlay_refresh(kind, now) {
                Some(pane_idx) => {
                    proof {
                        lemma_requests_push(
                            actions@,
                            GuiAction::FetchOverlay { kind, pane_idx },
                        );
                        assert(asked + so_far.push(Request::Overlay { kind, pane_idx }) =~= (asked
                            + so_far).push(Request::Overlay { kind, pane_idx }));
                    }
                    actions.push(GuiAction::FetchOverlay { kind, pane_idx });
                },
                None => {},
            }
            i = i + 1;
        }
    }

    /// Look at every timer at `now`, and ask for what is due: the first fetch of
    /// the session, new scans of each live site, and layers whose interval has
    /// passed. `clock` is the time of day.
    pub fn check_auto_polls(&mut self, now: u64, clock: Stamp, actions: &mut Vec<GuiAction>)
        requires
            old(self).wf(),
        ensures
            *final(self) == old(self).polled(now),
            exists|at: Stamp|
                {
                    &&& #[trigger] at.seconds() == clock.seconds() - clock.seconds() % 60
                    &&& at.nanoseconds() == 0
                    &&& clock.minute_began(at)
                    &&& requests(final(actions)@) == requests(old(actions)@) + old(
                        self,
                    ).poll_requests(now, at)
                },
    {
        let at: Stamp = clock.to_minute();
        let ghost asked = requests(actions@);
        let ghost first = if self.first_fetch_due() {
            seq![
                Request::Scan {
                    site: self.panes@[self.active_pane as int].site@,
                    at: self.radar.config.timestamp,
                },
            ]
        } else {
            Seq::empty()
        };
        assert(asked + Seq::<Request>::empty() =~= asked);
        if !self.auto_poll.initial_fetch_done && !self.radar.fetching {
            let config: RadarConfig = self.active_pane_fetch_config();
            self.radar.fetching = true;
            self.auto_poll =
            AutoPollState {
                last_fetch_time: Some(now),
                enabled: self.auto_poll.enabled,
                initial_fetch_done: true,
                interval_secs: self.auto_poll.interval_secs,
            };
            proof {
                lemma_requests_push(actions@, GuiAction::FetchRadarScan(config));
                assert(asked.push(first[0]) =~= asked + first);
            }
            actions.push(GuiAction::FetchRadarScan(config));
        }
        assert(*self == old(self).after_first_fetch(now));
        assert(requests(actions@) == asked + first);
        let ghost started = *self;
        let ghost checks = if started.scan_check_due(now as int) {
            checks_for(live_sites_of(old(self).shown_panes()), at)
        } else {
            Seq::empty()
        };
        assert((asked + first) + Seq::<Request>::empty() =~= asked + first);
        if self.is_any_pane_live() && self.auto_poll.should_poll(now) && !self.radar.fetching {
            let sites: Vec<String> = self.live_sites();
            push_checks(actions, &sites, at);
            self.auto_poll.record_fetch(now);
        }
        assert(requests(actions@) == asked + first + checks);
        self.push_refreshes(now, actions);
        proof {
            let refreshes = old(self).overlay_requests(all_overlays().len() as int, now as int);
            self.lemma_same_overlay_requests(*old(self), all_overlays().len() as int, now as int);
            assert(asked + first + checks + refreshes =~= asked + (first + checks + refreshes));
            assert(at.nanoseconds() == 0);
        }
    }

    /// The refreshes that are due rest on the panes, the layout and the handlers
    /// alone.
    proof fn lemma_same_overlay_requests(self, other: Gui, n: int, now: int)
        requires
            self.panes == other.panes,
            self.pane_layout == other.pane_layout,
            self.overlays == other.overlays,
        ensures
            self.overlay_requests(n, now) == other.overlay_requests(n, now),
        decreases n,
    {
        if n > 0 {
            self.lemma_same_overlay_requests(other, n - 1, now);
            let kind = all_overlays()[n - 1];
            assert forall|i: int| #[trigger]
                self.draws_overlay(i, kind) == other.draws_overlay(i, kind) by {}
            assert(self.overlay_due(kind, now) == other.overlay_due(kind, now)) by {
                if exists|i: int| 0 <= i < self.shown() && #[trigger] self.draws_overlay(i, kind) {
                    let i = choose|i: int|
                        0 <= i < self.shown() && #[trigger] self.draws_overlay(i, kind);
                    assert(other.draws_overlay(i, kind));
                }
                if exists|i: int| 0 <= i < other.shown() && #[trigger] other.draws_overlay(i, kind) {
                    let i = choose|i: int|
                        0 <= i < other.shown() && #[trigger] other.draws_overlay(i, kind);
                    assert(self.draws_overlay(i, kind));
                }
            }
            if self.overlay_due(kind, now) {
                self.lemma_first_drawing(kind);
                other.lemma_first_drawing(kind);
                let a = self.first_drawing(kind);
                let b = other.first_drawing(kind);
                assert(other.draws_overlay(a, kind));
                assert(self.draws_overlay(b, kind));
            }
        }
    }

    /// Where a layer is drawn, there is a first pane that draws it.
    proof fn lemma_first_drawing(self, kind: OverlayKind)
        requires
            exists|i: int| 0 <= i < self.shown() && #[trigger] self.draws_overlay(i, kind),
        ensures
            0 <= self.first_drawing(kind) < self.shown(),
            self.draws_overlay(self.first_drawing(kind), kind),
            forall|k: int|
                0 <= k < self.first_drawing(kind) ==> !#[trigger] self.draws_overlay(k, kind),
    {
        let some = choose|i: int| 0 <= i < self.shown() && #[trigger] self.draws_overlay(i, kind);
        let first = self.lemma_first_drawing_from(kind, some);
        assert(self.draws_overlay(first, kind));
    }

    proof fn lemma_first_drawing_from(self, kind: OverlayKind, n: int) -> (first: int)
        requires
            0 <= n < self.shown(),
            self.draws_overlay(n, kind),
        ensures
            0 <= first <= n,
            self.draws_overlay(first, kind),
            forall|k: int| 0 <= k < first ==> !#[trigger] self.draws_overlay(k, kind),
        decreases n,
    {
        if exists|k: int| 0 <= k < n && #[trigger] self.draws_overlay(k, kind) {
            let k = choose|k: int| 0 <= k < n && #[trigger] self.draws_overlay(k, kind);
            self.lemma_first_drawing_from(kind, k)
        } else {
            n
        }
    }
}

/// Having looked at the timers, a second look in the same moment asks for no
/// scan: no poll is sent twice.
pub proof fn law_poll_does_not_repeat(state: Gui, now: u64)
    requires
        state.auto_poll.interval_secs > 0,
    ensures
        !state.polled(now).first_fetch_due(),
        !state.polled(now).scan_check_due(now as int),
{
}

impl Gui {
    /// Whether every interval can be counted in milliseconds.
    pub open spec fn countable(self) -> bool {
        &&& self.auto_poll.interval_secs <= COUNTABLE_SECS
        &&& forall|kind: OverlayKind|
            (#[trigger] self.overlays.feed(kind)).auto_poll_interval matches Some(secs) ==> secs
                <= COUNTABLE_SECS
    }

    /// Milliseconds until a layer's refresh is due, or `None` where nothing will
    /// ask for it.
    pub open spec fn overlay_delay(self, kind: OverlayKind, now: int) -> Option<u64> {
        let feed = self.overlays.feed(kind);
        if feed.auto_poll_interval is None || feed.fetching || !exists|i: int|
            0 <= i < self.shown() && #[trigger] self.draws_overlay(i, kind) {
            None
        } else {
            match feed.fetched_at {
                None => Some(0),
                Some(then) => Some(
                    rest_ms(feed.auto_poll_interval->0 as int, then as int, now) as u64,
                ),
            }
        }
    }

    /// Milliseconds until a layer's refresh is due. None is owed to a layer that
    /// no shown map draws, or whose refresh is in flight.
    pub fn overlay_poll_delay(&self, kind: OverlayKind, now: u64) -> (r: Option<u64>)
        requires
            self.countable(),
        ensures
            r == self.overlay_delay(kind, now as int),
            r == Some(0u64) <==> self.overlay_due(kind, now as int),
    {
        let feed: LayerFeed = self.overlays.feed_of(kind);
        assert(feed == self.overlays.feed(kind));
        let interval: u64 = match feed.auto_poll_interval {
            Some(interval) => interval,
            None => {
                return None;
            },
        };
        if feed.fetching || !self.any_pane_has_overlay_enabled(kind) {
            return None;
        }
        match feed.fetched_at {
            Some(then) => Some(rest(interval, then, now)),
            None => Some(0),
        }
    }

    /// The soonest refresh among the first `n` kinds of layer.
    pub open spec fn overlays_delay(self, n: int, now: int) -> Option<u64>
        decreases n,
    {
        if n <= 0 {
            None
        } else {
            sooner(
                self.overlays_delay(n - 1, now),
                self.overlay_delay(all_overlays()[n - 1], now),
            )
        }
    }

    /// Milliseconds until the radar poll fires, or `None` where it cannot: it is
    /// off, no shown pane is live, or a fetch is in flight.
    pub open spec fn radar_delay(self, now: int) -> Option<u64> {
        if self.auto_poll.enabled && self.any_live() && !self.radar.fetching {
            match self.auto_poll.last_fetch_time {
                Some(then) => Some(
                    rest_ms(self.auto_poll.interval_secs as int, then as int, now) as u64,
                ),
                None => None,
            }
        } else {
            None
        }
    }

    /// Milliseconds the application may sleep before some poll is due, if one is
    /// coming.
    pub open spec fn sleep(self, now: int) -> Option<u64> {
        sooner(
            self.radar_delay(now),
            self.overlays_delay(all_overlays().len() as int, now),
        )
    }

    /// Milliseconds the application may sleep before some poll is due, or `None`
    /// where none is coming.
    pub fn auto_poll_delay(&self, now: u64) -> (r: Option<u64>)
        requires
            self.countable(),
        ensures
            r == self.sleep(now as int),
            r == sooner(
                self.radar_delay(now as int),
                self.overlays_delay(all_overlays().len() as int, now as int),
            ),
    {
        let radar: Option<u64> = if self.auto_poll.enabled && self.is_any_pane_live()
            && !self.radar.fetching {
            self.auto_poll.poll_delay(now)
        } else {
            None
        };
        let kinds: Vec<OverlayKind> = OverlayKind::all();
        let mut soonest: Option<u64> = None;
        let mut i: usize = 0;
        while i < kinds.len()
            invariant
                i <= kinds@.len(),
                kinds@ == all_overlays(),
                self.countable(),
                soonest == self.overlays_delay(i as int, now as int),
            decreases kinds@.len() - i,
        {
            soonest = sooner_of(soonest, self.overlay_poll_delay(kinds[i], now));
            i = i + 1;
        }
        sooner_of(radar, soonest)
    }

    /// Milliseconds until the status bar's countdown shows another number. None
    /// is owed to a bar that never drew one, or to a timer that is off.
    pub fn status_tick_delay(&self, now: u64) -> (r: Option<u64>)
        ensures
            r is Some <==> self.popups.countdown_drawn && self.auto_poll.enabled
                && self.auto_poll.ticking(now as int),
            r is Some <==> self.popups.countdown_drawn && self.auto_poll.enabled
                && self.auto_poll.last_fetch_time is Some && !self.auto_poll.due(now as int),
            r matches Some(tick) ==> tick == self.auto_poll.tick(now as int),
            r matches Some(tick) ==> tick == 1000 - elapsed_ms(
                self.auto_poll.last_fetch_time->0 as int,
                now as int,
            ) % 1000,
            r matches Some(tick) ==> 0 < tick <= 1000,
    {
        if self.popups.countdown_drawn && self.auto_poll.enabled {
            self.auto_poll.countdown_tick_delay(now)
        } else {
            None
        }
    }

    /// Whether the application has polls to wake for.
    pub open spec fn polls_pending(self, n: int) -> bool {
        exists|k: int|
            {
                &&& 0 <= k < n
                &&& self.overlays.feed(#[trigger] all_overlays()[k]).auto_poll_interval is Some
                &&& exists|i: int|
                    0 <= i < self.shown() && #[trigger] self.draws_overlay(i, all_overlays()[k])
            }
    }

    /// Whether auto-poll is active, for scans or for some layer.
    pub open spec fn polls(self) -> bool {
        (self.auto_poll.enabled && self.auto_poll.initial_fetch_done) || self.polls_pending(
            all_overlays().len() as int,
        )
    }

    /// Whether auto-poll is active, for scans or for some layer.
    pub fn is_auto_poll_active(&self) -> (r: bool)
        ensures
            r == self.polls(),
            r == ((self.auto_poll.enabled && self.auto_poll.initial_fetch_done)
                || self.polls_pending(all_overlays().len() as int)),
    {
        if self.auto_poll.is_active() {
            return true;
        }
        let kinds: Vec<OverlayKind> = OverlayKind::all();
        let mut i: usize = 0;
        while i < kinds.len()
            invariant
                i <= kinds@.len(),
                kinds@ == all_overlays(),
                !self.polls_pending(i as int),
            decreases kinds@.len() - i,
        {
            let kind: OverlayKind = kinds[i];
            let ghost kinds_seq = all_overlays();
            if self.overlays.feed_of(kind).auto_poll_interval.is_some()
                && self.any_pane_has_overlay_enabled(kind) {
                assert(kinds_seq[i as int] == kind);
                return true;
            }
            i = i + 1;
        }
        false
    }
}

/// The schedule and the polls agree: the radar's sleep is over exactly when the
/// next look at the timers would look for new scans.
pub proof fn law_wake_meets_poll(state: Gui, now: u64)
    requires
        state.countable(),
        state.auto_poll.initial_fetch_done,
    ensures
        state.radar_delay(now as int) == Some(0u64) <==> state.scan_check_due(now as int),
{
}

/// A sleep that is over finds something due, a scan or a layer, and a sleep of
/// any length is over no later than each of them.
pub proof fn law_sleep_covers_every_layer(state: Gui, k: int, now: u64)
    requires
        state.countable(),
        0 <= k < all_overlays().len(),
        state.overlay_delay(all_overlays()[k], now as int) is Some,
    ensures
        ({
            let sleep = state.sleep(now as int);
            sleep is Some && sleep->0 <= state.overlay_delay(all_overlays()[k], now as int)->0
        }),
{
    lemma_soonest(state, k, all_overlays().len() as int, now as int);
}

proof fn lemma_soonest(state: Gui, k: int, n: int, now: int)
    requires
        0 <= k < n <= all_overlays().len(),
        state.overlay_delay(all_overlays()[k], now) is Some,
    ensures
        state.overlays_delay(n, now) is Some,
        state.overlays_delay(n, now)->0 <= state.overlay_delay(all_overlays()[k], now)->0,
    decreases n,
{
    if k < n - 1 {
        lemma_soonest(state, k, n - 1, now);
    }
}

impl Gui {
    /// Whether the time dialog shows this moment.
    pub open spec fn dialog_reads(self, stamp: Stamp) -> bool {
        &&& self.time_dialog.date_string@ == date_text(stamp)
        &&& self.time_dialog.time_string@ == time_text(stamp)
    }

    /// Set the dialog and the radar config to the present.
    pub fn use_current_time(&mut self, now: Stamp)
        ensures
            *final(self) == (Gui {
                radar: RadarState {
                    config: RadarConfig { timestamp: now, ..old(self).radar.config },
                    ..old(self).radar
                },
                time_dialog: final(self).time_dialog,
                ..*old(self)
            }),
            final(self).dialog_reads(now),
            final(self).time_dialog.show == old(self).time_dialog.show,
    {
        self.radar.config.timestamp = now;
        self.time_dialog =
        TimeDialogState {
            date_string: crate::stamp::write_date(now),
            time_string: crate::stamp::write_time(now),
            show: self.time_dialog.show,
        };
    }

    /// Whether taking the typed date and time leads to `after` and asks for
    /// `asked`.
    pub open spec fn time_taken(self, asked: Option<Request>, after: Gui) -> bool {
        let typed = typed_moment(
            self.time_dialog.date_string@,
            self.time_dialog.time_string@,
        );
        let active = self.active_pane as int;
        let taken = after.radar.config.timestamp;
        let shut = TimeDialogState { show: false, ..self.time_dialog };
        match asked {
            None => typed is None && after == (Gui { time_dialog: shut, ..self }),
            Some(request) => {
                &&& typed == Some((taken.seconds(), taken.nanoseconds()))
                &&& request == (Request::Scan { site: self.radar.config.site@, at: taken })
                &&& after.panes@ == self.panes@.update(
                    active,
                    PaneState { viewing_live: false, ..self.panes@[active] },
                )
                &&& after == (Gui {
                    radar: RadarState {
                        config: RadarConfig { timestamp: taken, ..self.radar.config },
                        ..self.radar
                    },
                    time_dialog: shut,
                    panes: after.panes,
                    ..self
                })
            },
        }
    }

    /// Take the typed date and time: a moment becomes the radar config's, the
    /// active pane stops being live, and a fetch is asked for. Text that is no
    /// moment asks for nothing. The dialog closes either way.
    pub fn confirm_time(&mut self) -> (r: Option<GuiAction>)
        requires
            old(self).wf(),
        ensures
            old(self).time_taken(
                match r {
                    Some(action) => Some(action@),
                    None => None,
                },
                *final(self),
            ),
            ({
                let typed = typed_moment(
                    old(self).time_dialog.date_string@,
                    old(self).time_dialog.time_string@,
                );
                let active = old(self).active_pane as int;
                match r {
                    None => {
                        &&& typed is None
                        &&& *final(self) == (Gui {
                            time_dialog: TimeDialogState { show: false, ..old(self).time_dialog },
                            ..*old(self)
                        })
                    },
                    Some(action) => {
                        &&& typed == Some(
                            (
                                final(self).radar.config.timestamp.seconds(),
                                final(self).radar.config.timestamp.nanoseconds(),
                            ),
                        )
                        &&& action@ == (Request::Scan {
                            site: old(self).radar.config.site@,
                            at: final(self).radar.config.timestamp,
                        })
                        &&& final(self).panes@ == old(self).panes@.update(
                            active,
                            PaneState { viewing_live: false, ..old(self).panes@[active] },
                        )
                        &&& *final(self) == (Gui {
                            radar: RadarState {
                                config: RadarConfig {
                                    timestamp: final(self).radar.config.timestamp,
                                    ..old(self).radar.config
                                },
                                ..old(self).radar
                            },
                            time_dialog: TimeDialogState { show: false, ..old(self).time_dialog },
                            panes: final(self).panes,
                            ..*old(self)
                        })
                    },
                }
            }),
    {
        let typed: Option<Stamp> = read_typed(
            self.time_dialog.date_string.as_str(),
            self.time_dialog.time_string.as_str(),
        );
        self.time_dialog.show = false;
        match typed {
            Some(stamp) => {
                self.radar.config.timestamp = stamp;
                self.panes[self.active_pane].viewing_live = false;
                Some(GuiAction::FetchRadarScan(self.radar.config.clone()))
            },
            None => None,
        }
    }

    /// Put the dialog's texts back to the radar config's moment, and close it.
    pub fn cancel_time(&mut self)
        ensures
            *final(self) == (Gui { time_dialog: final(self).time_dialog, ..*old(self) }),
            final(self).dialog_reads(old(self).radar.config.timestamp),
            !final(self).time_dialog.show,
    {
        let stamp: Stamp = self.radar.config.timestamp;
        self.time_dialog =
        TimeDialogState {
            date_string: crate::stamp::write_date(stamp),
            time_string: crate::stamp::write_time(stamp),
            show: false,
        };
    }
}

impl Gui {
    /// The refreshes among the first `n` kinds are of layers that are due, on
    /// behalf of the first map that draws them, and each layer that is due is
    /// among them.
    proof fn lemma_refreshes(self, n: int, now: int, kind: OverlayKind)
        requires
            0 <= n <= all_overlays().len(),
        ensures
            forall|j: int|
                0 <= j < self.overlay_requests(n, now).len() ==> {
                    let request = #[trigger] self.overlay_requests(n, now)[j];
                    &&& request is Overlay
                    &&& self.overlay_due(request->Overlay_kind, now)
                    &&& request->Overlay_pane_idx as int == self.first_drawing(
                        request->Overlay_kind,
                    )
                },
            asks_for_overlay(self.overlay_requests(n, now), kind) <==> self.overlay_due(kind, now)
                && kind.place() < n,
        decreases n,
    {
        reveal(all_overlays);
        if n > 0 {
            self.lemma_refreshes(n - 1, now, kind);
            let last = all_overlays()[n - 1];
            let before = self.overlay_requests(n - 1, now);
            let asked = self.overlay_requests(n, now);
            assert(last.place() == n - 1);
            assert(kind.place() == n - 1 ==> kind == last);
            if self.overlay_due(last, now) {
                self.lemma_first_drawing(last);
                assert(self.panes.len() == self.panes@.len());
                assert(asked.last()->Overlay_pane_idx as int == self.first_drawing(last));
                assert(asked[before.len() as int] == asked.last());
            }
            assert forall|j: int| 0 <= j < asked.len() implies {
                let request = #[trigger] asked[j];
                &&& request is Overlay
                &&& self.overlay_due(request->Overlay_kind, now)
                &&& request->Overlay_pane_idx as int == self.first_drawing(request->Overlay_kind)
            } by {
                if j < before.len() {
                    assert(before[j] == asked[j]);
                }
            }
            if asks_for_overlay(before, kind) {
                let j = choose|j: int|
                    0 <= j < before.len() && (#[trigger] before[j]) is Overlay
                        && before[j]->Overlay_kind == kind;
                assert(asked[j] == before[j]);
            }
            if asks_for_overlay(asked, kind) {
                let j = choose|j: int|
                    0 <= j < asked.len() && (#[trigger] asked[j]) is Overlay
                        && asked[j]->Overlay_kind == kind;
                if j < before.len() {
                    assert(before[j] == asked[j]);
                }
            }
        }
    }

    /// A layer's sleep is over exactly when the layer is due.
    proof fn lemma_delay_is_over_when_due(self, kind: OverlayKind, now: int)
        requires
            self.countable(),
        ensures
            self.overlay_delay(kind, now) == Some(0u64) <==> self.overlay_due(kind, now),
    {
        let feed = self.overlays.feed(kind);
        assert(feed.auto_poll_interval matches Some(secs) ==> secs <= COUNTABLE_SECS);
        if let (Some(secs), Some(then)) = (feed.auto_poll_interval, feed.fetched_at) {
            let gone = elapsed_ms(then as int, now);
            let left = rest_ms(secs as int, then as int, now);
            assert(0 <= left <= secs * 1000 <= u64::MAX);
            assert(left == 0 <==> gone / 1000 >= secs);
        }
    }

    /// The refreshes are the last of what the timers ask for, and the only ones.
    proof fn lemma_polled_refreshes(self, now: u64, at: Stamp, kind: OverlayKind)
        ensures
            asks_for_overlay(self.poll_requests(now, at), kind) <==> self.overlay_due(
                kind,
                now as int,
            ),
            forall|j: int|
                0 <= j < self.poll_requests(now, at).len() && (#[trigger] self.poll_requests(
                    now,
                    at,
                )[j]) is Overlay ==> {
                    let request = self.poll_requests(now, at)[j];
                    &&& self.overlay_due(request->Overlay_kind, now as int)
                    &&& request->Overlay_pane_idx as int == self.first_drawing(
                        request->Overlay_kind,
                    )
                },
    {
        let n = all_overlays().len() as int;
        kind.law_all_is_complete();
        assert(kind.place() < n) by {
            reveal(all_overlays);
        }
        self.lemma_refreshes(n, now as int, kind);
        let refreshes = self.overlay_requests(n, now as int);
        let asked = self.poll_requests(now, at);
        let head = asked.len() - refreshes.len();
        assert forall|j: int| 0 <= j < head implies !((#[trigger] asked[j]) is Overlay) by {}
        assert forall|j: int| head <= j < asked.len() implies #[trigger] asked[j] == refreshes[j
            - head] by {}
        if asks_for_overlay(refreshes, kind) {
            let j = choose|j: int|
                0 <= j < refreshes.len() && (#[trigger] refreshes[j]) is Overlay
                    && refreshes[j]->Overlay_kind == kind;
            assert(asked[j + head] == refreshes[j]);
        }
    }
}

/// A look at the timers asks for a layer exactly where the layer refreshes on its
/// own, some map on screen has it on, no refresh is in flight, and it was never
/// fetched or its interval has passed since, however often it was fetched before.
pub proof fn law_layer_is_asked_for_when_its_interval_has_passed(
    state: Gui,
    now: u64,
    at: Stamp,
    kind: OverlayKind,
)
    requires
        state.overlays.feeds@.contains_key(kind),
    ensures
        asks_for_overlay(state.poll_requests(now, at), kind) <==> {
            let feed = state.overlays.feeds@[kind];
            &&& feed.auto_poll_interval is Some
            &&& !feed.fetching
            &&& exists|i: int|
                0 <= i < state.panes@.len() && i < state.pane_layout@.count && (
                #[trigger] state.panes@[i]).content is MapView
                    && state.panes@[i].enabled_overlays@.contains_key(kind)
                    && state.panes@[i].enabled_overlays@[kind]
            &&& match feed.fetched_at {
                None => true,
                Some(then) => now - then >= feed.auto_poll_interval->0 * 1000
                    || feed.auto_poll_interval->0 == 0,
            }
        },
{
    state.lemma_polled_refreshes(now, at, kind);
    let feed = state.overlays.feeds@[kind];
    assert(feed == state.overlays.feed(kind));
    if exists|i: int| 0 <= i < state.shown() && #[trigger] state.draws_overlay(i, kind) {
        let i = choose|i: int| 0 <= i < state.shown() && #[trigger] state.draws_overlay(i, kind);
        assert(state.panes@[i].content is MapView);
    }
    if exists|i: int|
        0 <= i < state.panes@.len() && i < state.pane_layout@.count && (
        #[trigger] state.panes@[i]).content is MapView
            && state.panes@[i].enabled_overlays@.contains_key(kind)
            && state.panes@[i].enabled_overlays@[kind] {
        let i = choose|i: int|
            0 <= i < state.panes@.len() && i < state.pane_layout@.count && (
            #[trigger] state.panes@[i]).content is MapView
                && state.panes@[i].enabled_overlays@.contains_key(kind)
                && state.panes@[i].enabled_overlays@[kind];
        assert(state.draws_overlay(i, kind));
    }
}

/// A layer that no handler knows of is never asked for.
pub proof fn law_unknown_layer_is_never_asked_for(
    state: Gui,
    now: u64,
    at: Stamp,
    kind: OverlayKind,
)
    requires
        !state.overlays.feeds@.contains_key(kind),
    ensures
        !asks_for_overlay(state.poll_requests(now, at), kind),
        state.overlay_delay(kind, now as int) is None,
{
    state.lemma_polled_refreshes(now, at, kind);
}

/// A refresh is asked for on behalf of the first map on screen that has the layer
/// on.
pub proof fn law_layer_is_asked_for_by_the_first_that_draws_it(
    state: Gui,
    now: u64,
    at: Stamp,
    j: int,
)
    requires
        0 <= j < state.poll_requests(now, at).len(),
        state.poll_requests(now, at)[j] is Overlay,
    ensures
        ({
            let kind = state.poll_requests(now, at)[j]->Overlay_kind;
            let pane = state.poll_requests(now, at)[j]->Overlay_pane_idx as int;
            &&& pane < state.panes@.len()
            &&& pane < state.pane_layout@.count
            &&& state.panes@[pane].content is MapView
            &&& state.panes@[pane].overlay_on(kind)
            &&& forall|k: int|
                0 <= k < pane && (#[trigger] state.panes@[k]).content is MapView
                    ==> !state.panes@[k].overlay_on(kind)
        }),
{
    let kind = state.poll_requests(now, at)[j]->Overlay_kind;
    let pane = state.poll_requests(now, at)[j]->Overlay_pane_idx as int;
    state.lemma_polled_refreshes(now, at, kind);
    state.lemma_first_drawing(kind);
    assert forall|k: int|
        0 <= k < pane && (#[trigger] state.panes@[k]).content
            is MapView implies !state.panes@[k].overlay_on(kind) by {
        assert(!state.draws_overlay(k, kind));
    }
}

/// The timers and the sleep agree on every layer: a layer's sleep is over exactly
/// when the next look asks for it.
pub proof fn law_layer_wakes_when_it_is_asked_for(
    state: Gui,
    now: u64,
    at: Stamp,
    kind: OverlayKind,
)
    requires
        state.countable(),
    ensures
        state.overlay_delay(kind, now as int) == Some(0u64) <==> asks_for_overlay(
            state.poll_requests(now, at),
            kind,
        ),
{
    state.lemma_polled_refreshes(now, at, kind);
    state.lemma_delay_is_over_when_due(kind, now as int);
}

/// A layer sleeps for exactly as long as it takes: while any of its sleep is left
/// it is not due, and once that has passed it is.
pub proof fn law_layer_sleeps_until_it_is_due(
    state: Gui,
    kind: OverlayKind,
    now: u64,
    later: u64,
    at: Stamp,
)
    requires
        state.countable(),
        now <= later,
        state.overlays.feed(kind).fetched_at matches Some(then) ==> then <= now,
        state.overlay_delay(kind, now as int) is Some,
    ensures
        asks_for_overlay(state.poll_requests(later, at), kind) <==> later - now
            >= state.overlay_delay(kind, now as int)->0,
{
    state.lemma_polled_refreshes(later, at, kind);
    let feed = state.overlays.feed(kind);
    assert(feed.auto_poll_interval matches Some(secs) ==> secs <= COUNTABLE_SECS);
}

/// Whether a list of requests asks for new scans of this site.
pub open spec fn asks_for_new_scans(asked: Seq<Request>, site: Seq<char>) -> bool {
    exists|j: int|
        0 <= j < asked.len() && (#[trigger] asked[j]) is NewScans && asked[j]->NewScans_site
            == site
}

/// Whether a list of requests asks for a scan.
pub open spec fn asks_for_a_scan(asked: Seq<Request>) -> bool {
    exists|j: int| 0 <= j < asked.len() && (#[trigger] asked[j]) is Scan
}

/// Once the first fetch of the session is done, a look at the timers asks for new
/// scans of a site exactly where polling is on, a pane on screen views that site
/// live, no fetch is in flight, and the interval has passed since the last one.
pub proof fn law_live_sites_are_polled_when_the_interval_has_passed(
    state: Gui,
    now: u64,
    at: Stamp,
    site: Seq<char>,
)
    requires
        state.auto_poll.initial_fetch_done,
    ensures
        asks_for_new_scans(state.poll_requests(now, at), site) <==> {
            &&& state.auto_poll.enabled
            &&& !state.radar.fetching
            &&& exists|i: int|
                0 <= i < state.panes@.len() && i < state.pane_layout@.count && (
                #[trigger] state.panes@[i]).viewing_live && state.panes@[i].site@ == site
            &&& match state.auto_poll.last_fetch_time {
                None => false,
                Some(then) => now - then >= state.auto_poll.interval_secs * 1000
                    || state.auto_poll.interval_secs == 0,
            }
        },
        asks_for_new_scans(state.poll_requests(now, at), site) ==> state.polled(
            now,
        ).auto_poll.last_fetch_time == Some(now),
        !asks_for_a_scan(state.poll_requests(now, at)),
{
    let panes = state.shown_panes();
    let sites = live_sites_of(panes);
    let checks = checks_for(sites, at);
    let asked = state.poll_requests(now, at);
    let n = all_overlays().len() as int;
    let refreshes = state.overlay_requests(n, now as int);
    law_live_sites_are_distinct(panes);
    OverlayKind::Radar.law_all_is_complete();
    state.lemma_refreshes(n, now as int, OverlayKind::Radar);
    let due = state.scan_check_due(now as int);
    assert(asked =~= if due { checks + refreshes } else { refreshes });
    assert forall|j: int| 0 <= j < refreshes.len() implies #[trigger] refreshes[j] is Overlay by {}
    if due {
        assert forall|j: int| checks.len() <= j < asked.len() implies (#[trigger] asked[j])
            is Overlay by {
            assert(asked[j] == refreshes[j - checks.len()]);
        }
        if sites.contains(site) {
            let k = sites.index_of(site);
            assert(asked[k] == Request::NewScans { site, at });
            let i = choose|i: int|
                0 <= i < panes.len() && (#[trigger] panes[i]).viewing_live && panes[i].site@
                    == site;
            assert(state.panes@[i].viewing_live);
        }
        if asks_for_new_scans(asked, site) {
            let j = choose|j: int|
                0 <= j < asked.len() && (#[trigger] asked[j]) is NewScans
                    && asked[j]->NewScans_site == site;
            assert(checks[j] == asked[j]);
            assert(sites[j] == site);
            assert(sites.contains(site));
        }
    }
    if exists|i: int|
        0 <= i < state.panes@.len() && i < state.pane_layout@.count && (
        #[trigger] state.panes@[i]).viewing_live && state.panes@[i].site@ == site {
        let i = choose|i: int|
            0 <= i < state.panes@.len() && i < state.pane_layout@.count && (
            #[trigger] state.panes@[i]).viewing_live && state.panes@[i].site@ == site;
        assert(panes[i] == state.panes@[i]);
        assert(panes[i].viewing_live);
        assert(sites.contains(site));
    }
}

/// The first look of a session asks for one scan, of the site of the pane in front
/// at the moment the config names, and says that a fetch is in flight; a look while
/// one is in flight, or after the first, asks for none.
pub proof fn law_session_starts_with_one_fetch(state: Gui, now: u64, at: Stamp)
    requires
        state.wf(),
    ensures
        asks_for_a_scan(state.poll_requests(now, at)) <==> !state.auto_poll.initial_fetch_done
            && !state.radar.fetching,
        !state.auto_poll.initial_fetch_done && !state.radar.fetching ==> {
            &&& state.poll_requests(now, at)[0] == (Request::Scan {
                site: state.panes@[state.active_pane as int].site@,
                at: state.radar.config.timestamp,
            })
            &&& state.polled(now).radar.fetching
            &&& state.polled(now).auto_poll.initial_fetch_done
            &&& state.polled(now).auto_poll.last_fetch_time == Some(now)
        },
        state.auto_poll.initial_fetch_done || state.radar.fetching ==> {
            &&& state.polled(now).radar == state.radar
            &&& state.polled(now).auto_poll.initial_fetch_done
                == state.auto_poll.initial_fetch_done
        },
        state.polled(now).panes == state.panes,
        state.polled(now).overlays == state.overlays,
        state.polled(now).settings == state.settings,
        state.polled(now).auto_poll.enabled == state.auto_poll.enabled,
        state.polled(now).auto_poll.interval_secs == state.auto_poll.interval_secs,
{
    let asked = state.poll_requests(now, at);
    let n = all_overlays().len() as int;
    let refreshes = state.overlay_requests(n, now as int);
    OverlayKind::Radar.law_all_is_complete();
    state.lemma_refreshes(n, now as int, OverlayKind::Radar);
    assert forall|j: int| 0 <= j < refreshes.len() implies #[trigger] refreshes[j] is Overlay by {}
    let first_due = state.first_fetch_due();
    let checks = if state.after_first_fetch(now).scan_check_due(now as int) {
        checks_for(live_sites_of(state.shown_panes()), at)
    } else {
        Seq::empty()
    };
    if first_due {
        assert(asked[0] is Scan);
    } else {
        assert(asked =~= checks + refreshes);
        assert forall|j: int| 0 <= j < asked.len() implies !((#[trigger] asked[j]) is Scan) by {
            if j < checks.len() {
                assert(asked[j] == checks[j]);
            } else {
                assert(asked[j] == refreshes[j - checks.len()]);
            }
        }
    }
}

/// The radar sleeps for exactly as long as it takes: its poll is due once the
/// sleep has passed, and not before.
pub proof fn law_radar_sleeps_until_it_is_due(state: Gui, now: u64, later: u64)
    requires
        state.countable(),
        now <= later,
        state.auto_poll.last_fetch_time matches Some(then) ==> then <= now,
        state.radar_delay(now as int) is Some,
    ensures
        state.scan_check_due(later as int) <==> later - now >= state.radar_delay(now as int)->0,
{
}

/// No sleep is longer than it has to be: it ends with the radar's or with some
/// layer's, and there is one wherever either has one.
pub proof fn law_sleep_is_some_poll(state: Gui, now: u64)
    requires
        state.countable(),
    ensures
        ({
            let sleep = state.sleep(now as int);
            &&& sleep is Some ==> sleep == state.radar_delay(now as int) || exists|k: int|
                0 <= k < all_overlays().len() && sleep == #[trigger] state.overlay_delay(
                    all_overlays()[k],
                    now as int,
                )
            &&& state.radar_delay(now as int) is Some ==> sleep is Some && sleep->0
                <= state.radar_delay(now as int)->0
        }),
{
    lemma_soonest_is_some(state, all_overlays().len() as int, now as int);
}

proof fn lemma_soonest_is_some(state: Gui, n: int, now: int)
    requires
        0 <= n <= all_overlays().len(),
    ensures
        state.overlays_delay(n, now) is Some ==> exists|k: int|
            0 <= k < n && state.overlays_delay(n, now) == #[trigger] state.overlay_delay(
                all_overlays()[k],
                now,
            ),
    decreases n,
{
    if n > 0 {
        lemma_soonest_is_some(state, n - 1, now);
        assert(0 <= n - 1 < n);
        let last = state.overlay_delay(all_overlays()[n - 1], now);
        assert(state.overlays_delay(n, now) == last || state.overlays_delay(n, now)
            == state.overlays_delay(n - 1, now));
    }
}

/// A typed moment is taken: it becomes the moment that is looked at, the pane in front
/// stops being live, and a scan of that moment is asked for. Text that is no moment asks
/// for nothing and changes nothing. The dialog is shut either way, and no other pane is
/// touched.
pub proof fn law_typed_moment_is_looked_at(
    before: Gui,
    asked: Option<Request>,
    after: Gui,
    i: int,
)
    requires
        before.wf(),
        before.time_taken(asked, after),
        0 <= i < before.panes@.len(),
    ensures
        !after.time_dialog.show,
        after.panes@.len() == before.panes@.len(),
        asked is Some <==> typed_moment(
            before.time_dialog.date_string@,
            before.time_dialog.time_string@,
        ) is Some,
        asked is None ==> after.panes == before.panes && after.radar == before.radar,
        asked is Some ==> {
            let at = after.radar.config.timestamp;
            &&& typed_moment(
                before.time_dialog.date_string@,
                before.time_dialog.time_string@,
            ) == Some((at.seconds(), at.nanoseconds()))
            &&& asked == Some(Request::Scan { site: before.radar.config.site@, at })
            &&& !after.panes@[before.active_pane as int].viewing_live
            &&& i != before.active_pane ==> after.panes@[i] == before.panes@[i]
            &&& after.panes@[i].site == before.panes@[i].site
            &&& after.panes@[i].content == before.panes@[i].content
        },
{
}

/// Auto-poll is active once its first fetch is done while it is on, and while any map on
/// screen draws a layer that refreshes on its own.
pub proof fn law_polls_are_pending_for_drawn_layers(state: Gui, kind: OverlayKind, i: int)
    requires
        state.pane_layout@.count >= 0,
        0 <= i < state.panes@.len(),
        i < state.pane_layout@.count,
        state.panes@[i].content is MapView,
        state.panes@[i].overlay_on(kind),
        state.overlays.feed(kind).auto_poll_interval is Some,
    ensures
        state.polls_pending(all_overlays().len() as int),
        state.polls(),
{
    kind.law_all_is_complete();
    reveal(all_overlays);
    let k = kind.place();
    assert(all_overlays()[k] == kind);
    assert(state.draws_overlay(i, all_overlays()[k]));
}

/// Where no layer that refreshes on its own is drawn by a map on screen, no layer's poll
/// is pending.
pub proof fn law_no_polls_are_pending_for_hidden_layers(state: Gui)
    requires
        forall|kind: OverlayKind, i: int|
            0 <= i < state.shown() && (#[trigger] state.overlays.feed(kind)).auto_poll_interval
                is Some && (#[trigger] state.panes@[i]).content is MapView
                ==> !state.panes@[i].overlay_on(kind),
    ensures
        !state.polls_pending(all_overlays().len() as int),
        state.polls() <==> state.auto_poll.enabled && state.auto_poll.initial_fetch_done,
{
    let n = all_overlays().len() as int;
    if state.polls_pending(n) {
        let k = choose|k: int|
            {
                &&& 0 <= k < n
                &&& state.overlays.feed(#[trigger] all_overlays()[k]).auto_poll_interval is Some
                &&& exists|i: int|
                    0 <= i < state.shown() && #[trigger] state.draws_overlay(i, all_overlays()[k])
            };
        let kind = all_overlays()[k];
        let i = choose|i: int| 0 <= i < state.shown() && #[trigger] state.draws_overlay(i, kind);
        assert(state.overlays.feed(kind).auto_poll_interval is Some);
        assert(state.panes@[i].content is MapView);
    }
}

/// The sites of live panes are listed as they first come: one more pane adds its site at
/// the end where it is live and the site is not listed yet, and nothing otherwise.
pub proof fn law_live_sites_are_in_order(panes: Seq<PaneState>, pane: PaneState)
    ensures
        live_sites_of(Seq::<PaneState>::empty()).len() == 0,
        pane.viewing_live && !live_sites_of(panes).contains(pane.site@) ==> live_sites_of(
            panes.push(pane),
        ) == live_sites_of(panes).push(pane.site@),
        !pane.viewing_live || live_sites_of(panes).contains(pane.site@) ==> live_sites_of(
            panes.push(pane),
        ) == live_sites_of(panes),
{
    assert(panes.push(pane).drop_last() =~= panes);
}

/// One look at the timers asks for no layer twice and for no site twice, and asks for new
/// scans as of the moment handed in.
pub proof fn law_one_look_asks_once(state: Gui, now: u64, at: Stamp, j: int, k: int)
    requires
        0 <= j < k < state.poll_requests(now, at).len(),
    ensures
        ({
            let asked = state.poll_requests(now, at);
            &&& asked[j] is Overlay && asked[k] is Overlay ==> asked[j]->Overlay_kind
                != asked[k]->Overlay_kind
            &&& asked[j] is NewScans && asked[k] is NewScans ==> asked[j]->NewScans_site
                != asked[k]->NewScans_site
            &&& asked[j] is NewScans ==> asked[j]->NewScans_at == at
            &&& asked[k] is NewScans ==> asked[k]->NewScans_at == at
            &&& !(asked[k] is Scan)
        }),
{
    let asked = state.poll_requests(now, at);
    let n = all_overlays().len() as int;
    let refreshes = state.overlay_requests(n, now as int);
    let sites = live_sites_of(state.shown_panes());
    law_live_sites_are_distinct(state.shown_panes());
    state.lemma_refreshes_in_order(n, now as int);
    let first: Seq<Request> = if state.first_fetch_due() {
        seq![
            Request::Scan {
                site: state.panes@[state.active_pane as int].site@,
                at: state.radar.config.timestamp,
            },
        ]
    } else {
        Seq::empty()
    };
    let checks = if state.after_first_fetch(now).scan_check_due(now as int) {
        checks_for(sites, at)
    } else {
        Seq::empty()
    };
    assert(asked == first + checks + refreshes);
    let a = first.len() as int;
    let b = a + checks.len();
    assert forall|m: int| 0 <= m < asked.len() implies #[trigger] asked[m] == if m < a {
        first[m]
    } else if m < b {
        checks[m - a]
    } else {
        refreshes[m - b]
    } by {}
    assert(asked[j] == asked[j]);
    assert(asked[k] == asked[k]);
    if a <= j < b && a <= k < b {
        assert(checks[j - a] == Request::NewScans { site: sites[j - a], at });
        assert(checks[k - a] == Request::NewScans { site: sites[k - a], at });
    }
    if j >= b {
        assert(refreshes[j - b] is Overlay);
    }
    if k >= b {
        assert(refreshes[k - b] is Overlay);
    }
}

impl Gui {
    /// The refreshes come in the order of the kinds of layer.
    proof fn lemma_refreshes_in_order(self, n: int, now: int)
        requires
            0 <= n <= all_overlays().len(),
        ensures
            forall|j: int|
                0 <= j < self.overlay_requests(n, now).len() ==> (#[trigger] self.overlay_requests(
                    n,
                    now,
                )[j]) is Overlay && self.overlay_requests(n, now)[j]->Overlay_kind.place() < n,
            forall|j: int, k: int|
                0 <= j < k < self.overlay_requests(n, now).len() ==> (
                #[trigger] self.overlay_requests(n, now)[j])->Overlay_kind.place() < (
                #[trigger] self.overlay_requests(n, now)[k])->Overlay_kind.place(),
        decreases n,
    {
        if n > 0 {
            self.lemma_refreshes_in_order(n - 1, now);
            let before = self.overlay_requests(n - 1, now);
            let after = self.overlay_requests(n, now);
            let last = all_overlays()[n - 1];
            assert(last.place() == n - 1) by {
                reveal(all_overlays);
            }
            assert forall|j: int| 0 <= j < after.len() implies (#[trigger] after[j]) is Overlay
                && after[j]->Overlay_kind.place() < n by {
                if j < before.len() {
                    assert(after[j] == before[j]);
                }
            }
            assert forall|j: int, k: int| 0 <= j < k < after.len() implies (
            #[trigger] after[j])->Overlay_kind.place() < (
            #[trigger] after[k])->Overlay_kind.place() by {
                assert(after[j] == before[j]);
                if k < before.len() {
                    assert(after[k] == before[k]);
                }
            }
        }
    }
}

/// There is a sleep to wait for exactly where something is coming: for the radar while it
/// polls, a pane on screen is live, no fetch is in flight and one has been made; for a layer
/// while it refreshes on its own, a map on screen draws it and no refresh is in flight.
pub proof fn law_sleep_is_for_what_is_coming(state: Gui, kind: OverlayKind, now: u64)
    ensures
        state.radar_delay(now as int) is Some <==> state.auto_poll.enabled && state.any_live()
            && !state.radar.fetching && state.auto_poll.last_fetch_time is Some,
        state.overlay_delay(kind, now as int) is Some <==> state.overlays.feed(
            kind,
        ).auto_poll_interval is Some && !state.overlays.feed(kind).fetching && exists|i: int|
            0 <= i < state.shown() && (#[trigger] state.panes@[i]).content is MapView
                && state.panes@[i].overlay_on(kind),
{
    if exists|i: int| 0 <= i < state.shown() && #[trigger] state.draws_overlay(i, kind) {
        let i = choose|i: int| 0 <= i < state.shown() && #[trigger] state.draws_overlay(i, kind);
        assert(state.panes@[i].content is MapView);
    }
    if exists|i: int|
        0 <= i < state.shown() && (#[trigger] state.panes@[i]).content is MapView
            && state.panes@[i].overlay_on(kind) {
        let i = choose|i: int|
            0 <= i < state.shown() && (#[trigger] state.panes@[i]).content is MapView
                && state.panes@[i].overlay_on(kind);
        assert(state.draws_overlay(i, kind));
    }
}

/// A look at the timers moves the timers and the fetch, and nothing else of the interface.
pub proof fn law_poll_touches_nothing_else(state: Gui, now: u64)
    ensures
        ({
            let after = state.polled(now);
            &&& after == (Gui { radar: after.radar, auto_poll: after.auto_poll, ..state })
            &&& after.radar.config == state.radar.config
            &&& after.radar.error_message == state.radar.error_message
            &&& state.auto_poll.initial_fetch_done ==> after.auto_poll.initial_fetch_done
            &&& after.auto_poll.last_fetch_time == Some(now) || after.auto_poll.last_fetch_time
                == state.auto_poll.last_fetch_time
        }),
{
}

/// A dialog that shows a moment shows both its date and its time of day.
pub proof fn law_dialog_shows_date_and_time(state: Gui, stamp: Stamp)
    requires
        state.dialog_reads(stamp),
    ensures
        state.time_dialog.date_string@ == crate::stamp::moment_text(
            stamp.seconds(),
            stamp.nanoseconds(),
            "%Y-%m-%d"@,
        ),
        state.time_dialog.time_string@ == crate::stamp::clock_text(
            stamp.seconds() as int,
            stamp.nanoseconds() as int,
        ),
{
}

} // verus!
