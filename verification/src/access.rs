//! Reading panes and settings, and setting them one at a time.

use vstd::prelude::*;
use crate::actions::RadarConfig;
use crate::gui::{
    FeedState, GpsFix, Gui, Insets, InspectorSelection, LocationState, Panels, Platform,
    RadarState, SiteVolume, TimeDialogState, WidthClass,
};
use crate::kinds::{PaneKind, RadarProduct};
use crate::layout::Rect;
use crate::loop_state::{LoopPhase, LoopPlaybackState};
use crate::overlays::OverlayKind;
use crate::pane::PaneState;
use crate::poll::AutoPollState;
use crate::scan::ScanInfo;
use crate::stamp::{date_text, time_text, write_date, write_time};
use crate::status::{ChunkFeedStatus, CurrentVolumeStamp};
use crate::text::{same_text, trimmed, trimmed_text};

verus! {

impl Gui {
    /// The active pane.
    pub fn active_pane(&self) -> (r: &PaneState)
        requires
            self.wf(),
        ensures
            *r == self.panes@[self.active_pane as int],
    {
        &self.panes[self.active_pane]
    }

    /// The index of the active pane.
    pub fn active_pane_idx(&self) -> (r: usize)
        ensures
            r == self.active_pane,
    {
        self.active_pane
    }

    /// The active pane, to write to.
    pub fn active_pane_mut(&mut self) -> (r: &mut PaneState)
        requires
            old(self).wf(),
        ensures
            *r == old(self).panes@[old(self).active_pane as int],
            final(self).panes@ == old(self).panes@.update(old(self).active_pane as int, *final(r)),
            *final(self) == (Gui { panes: final(self).panes, ..*old(self) }),
    {
        &mut self.panes[self.active_pane]
    }

    /// How many panes are shown: the layout's count, as far as there are panes.
    pub fn visible_pane_count(&self) -> (r: usize)
        ensures
            r == self.shown(),
            r <= self.panes@.len(),
    {
        let count: usize = self.pane_layout.pane_count();
        if count < self.panes.len() {
            count
        } else {
            self.panes.len()
        }
    }

    /// Every pane that is shown, in order. Panes that are remembered without
    /// being shown are left out.
    pub fn panes(&self) -> (r: &[PaneState])
        ensures
            r@ == self.shown_panes(),
    {
        let count: usize = self.visible_pane_count();
        vstd::slice::slice_subrange(self.panes.as_slice(), 0, count)
    }

    /// [`Self::panes`], to write to.
    pub fn panes_mut(&mut self) -> (r: &mut [PaneState])
        ensures
            r@ == old(self).shown_panes(),
            final(r)@.len() == r@.len() ==> final(self).panes@ == final(r)@ + old(
                self,
            ).panes@.skip(old(self).shown()),
            *final(self) == (Gui { panes: final(self).panes, ..*old(self) }),
    {
        let count: usize = self.visible_pane_count();
        self.panes.as_mut_slice().split_at_mut(count).0
    }

    /// How many panes are remembered, shown or not.
    pub fn remembered_pane_count(&self) -> (r: usize)
        ensures
            r == self.panes@.len(),
    {
        self.panes.len()
    }

    /// How many panes the layout has.
    pub fn pane_count(&self) -> (r: usize)
        ensures
            r == self.pane_layout@.count,
    {
        self.pane_layout.pane_count()
    }

    /// A pane by its index, or `None`.
    pub fn pane(&self, idx: usize) -> (r: Option<&PaneState>)
        ensures
            r is Some <==> idx < self.panes@.len(),
            r matches Some(pane) ==> *pane == self.panes@[idx as int],
    {
        if idx < self.panes.len() {
            Some(&self.panes[idx])
        } else {
            None
        }
    }

    /// A pane by its index, to write to, or `None`.
    pub fn pane_mut(&mut self, idx: usize) -> (r: Option<&mut PaneState>)
        ensures
            match r {
                Some(pane) => {
                    &&& idx < old(self).panes@.len()
                    &&& *pane == old(self).panes@[idx as int]
                    &&& final(self).panes@ == old(self).panes@.update(idx as int, *final(pane))
                    &&& *final(self) == (Gui { panes: final(self).panes, ..*old(self) })
                },
                None => idx >= old(self).panes@.len() && *final(self) == *old(self),
            },
    {
        if idx < self.panes.len() {
            Some(&mut self.panes[idx])
        } else {
            None
        }
    }

    /// Where each shown pane stands inside `panel`.
    pub fn pane_rects(&self, panel: Rect) -> (r: Vec<Rect>)
        ensures
            r@.len() == self.shown(),
            forall|i: int|
                0 <= i < r@.len() ==> #[trigger] r@[i] == self.pane_layout@.rect(i, panel),
    {
        let count: usize = self.visible_pane_count();
        let mut rects: Vec<Rect> = Vec::new();
        let mut i: usize = 0;
        while i < count
            invariant
                count == self.shown(),
                i <= count,
                rects@.len() == i,
                forall|k: int|
                    0 <= k < i ==> #[trigger] rects@[k] == self.pane_layout@.rect(k, panel),
            decreases count - i,
        {
            rects.push(self.pane_layout.pane_rect(i, panel));
            i = i + 1;
        }
        rects
    }

    /// Whether a pane exists and is not a map, so that the plan-view pipeline
    /// must skip it.
    pub fn pane_has_no_plan_view(&self, idx: usize) -> (r: bool)
        ensures
            r == (idx < self.panes@.len() && self.panes@[idx as int].kind_of()
                != PaneKind::MapView),
    {
        match self.pane(idx) {
            Some(pane) => !pane.is_map(),
            None => false,
        }
    }

    /// Whether a pane exists and has no picture a loop can hold.
    pub fn pane_cannot_loop(&self, idx: usize) -> (r: bool)
        ensures
            r == (idx < self.panes@.len() && self.panes@[idx as int].unaimed_section()),
    {
        match self.pane(idx) {
            Some(pane) => !pane.can_loop(),
            None => false,
        }
    }

    /// Whether a pane needs every cut of its site's volume because of its kind.
    pub fn pane_consumes_whole_volume(&self, idx: usize) -> (r: bool)
        ensures
            r == (idx < self.panes@.len() && self.panes@[idx as int].kind_of()
                != PaneKind::MapView),
    {
        match self.pane(idx) {
            Some(pane) => pane.kind().consumes_whole_volume(),
            None => false,
        }
    }

    /// What to render for a pane.
    pub fn get_rendering_params_for_pane(&self, pane_idx: usize) -> (r: Option<
        (RadarProduct, crate::measure::Measure),
    >)
        ensures
            r is Some <==> pane_idx < self.panes@.len() && self.panes@[pane_idx as int].offered_tilts()
                is Some,
            r matches Some(params) ==> params.0 == self.panes@[pane_idx as int].selected_product
                && self.panes@[pane_idx as int].renders_at(params.1),
    {
        match self.pane(pane_idx) {
            Some(pane) => pane.get_rendering_params(),
            None => None,
        }
    }

    /// Whether the active pane is showing the latest scan.
    pub fn is_viewing_live(&self) -> (r: bool)
        ensures
            r == (self.active_pane < self.panes@.len() && self.panes@[self.active_pane as int].viewing_live),
    {
        match self.pane(self.active_pane) {
            Some(pane) => pane.viewing_live,
            None => false,
        }
    }

    /// Whether some shown pane is viewing the latest scan.
    pub open spec fn any_live(self) -> bool {
        exists|i: int| 0 <= i < self.shown() && (#[trigger] self.panes@[i]).viewing_live
    }

    /// Whether some shown pane is viewing the latest scan.
    pub fn is_any_pane_live(&self) -> (r: bool)
        ensures
            r == self.any_live(),
    {
        let count: usize = self.visible_pane_count();
        let mut i: usize = 0;
        while i < count
            invariant
                count == self.shown(),
                count <= self.panes@.len(),
                i <= count,
                forall|k: int| 0 <= k < i ==> !(#[trigger] self.panes@[k]).viewing_live,
            decreases count - i,
        {
            if self.panes[i].viewing_live {
                return true;
            }
            i = i + 1;
        }
        false
    }

    /// Set whether a pane views the latest scan.
    pub fn set_viewing_live_for_pane(&mut self, pane_idx: usize, live: bool)
        ensures
            final(self).panes@ == if pane_idx < old(self).panes@.len() {
                old(self).panes@.update(
                    pane_idx as int,
                    PaneState { viewing_live: live, ..old(self).panes@[pane_idx as int] },
                )
            } else {
                old(self).panes@
            },
            *final(self) == (Gui { panes: final(self).panes, ..*old(self) }),
    {
        if pane_idx < self.panes.len() {
            self.panes[pane_idx].viewing_live = live;
        }
    }

    /// The scan info of the active pane.
    pub fn get_scan_info(&self) -> (r: Option<&ScanInfo>)
        ensures
            match r {
                Some(info) => self.active_pane < self.panes@.len()
                    && self.panes@[self.active_pane as int].scan_info == Some(*info),
                None => self.active_pane >= self.panes@.len()
                    || self.panes@[self.active_pane as int].scan_info is None,
            },
    {
        self.get_scan_info_for_pane(self.active_pane)
    }

    /// The scan info of a pane.
    pub fn get_scan_info_for_pane(&self, pane_idx: usize) -> (r: Option<&ScanInfo>)
        ensures
            match r {
                Some(info) => pane_idx < self.panes@.len()
                    && self.panes@[pane_idx as int].scan_info == Some(*info),
                None => pane_idx >= self.panes@.len()
                    || self.panes@[pane_idx as int].scan_info is None,
            },
    {
        match self.pane(pane_idx) {
            Some(pane) => pane.scan_info.as_ref(),
            None => None,
        }
    }

    /// Whether some pane, shown or not, has an animation that needs frames.
    pub open spec fn any_loop_busy(self) -> bool {
        exists|i: int| 0 <= i < self.panes@.len() && (#[trigger] self.panes@[i]).loop_state.busy()
    }

    /// Whether any pane has a loop that is playing or has work in flight.
    pub fn any_loop_active(&self) -> (r: bool)
        ensures
            r == self.any_loop_busy(),
    {
        let mut i: usize = 0;
        while i < self.panes.len()
            invariant
                i <= self.panes@.len(),
                forall|k: int| 0 <= k < i ==> !(#[trigger] self.panes@[k]).loop_state.busy(),
            decreases self.panes@.len() - i,
        {
            if self.panes[i].loop_state.is_busy() {
                return true;
            }
            i = i + 1;
        }
        false
    }

    /// Whether the layer is drawn on the `i`-th pane: it is a map, and the layer
    /// is on.
    pub open spec fn draws_overlay(self, i: int, kind: OverlayKind) -> bool {
        self.panes@[i].kind_of() == PaneKind::MapView && self.panes@[i].overlay_on(kind)
    }

    /// Whether some shown map pane draws the layer. A pane without a map keeps
    /// its switches and draws none of them.
    pub fn any_pane_has_overlay_enabled(&self, kind: OverlayKind) -> (r: bool)
        ensures
            r == exists|i: int| 0 <= i < self.shown() && #[trigger] self.draws_overlay(i, kind),
    {
        self.first_pane_with_overlay_enabled(kind).is_some()
    }

    /// The first shown map pane that draws the layer.
    pub fn first_pane_with_overlay_enabled(&self, kind: OverlayKind) -> (r: Option<usize>)
        ensures
            match r {
                Some(idx) => {
                    &&& idx < self.shown()
                    &&& self.draws_overlay(idx as int, kind)
                    &&& forall|k: int| 0 <= k < idx ==> !#[trigger] self.draws_overlay(k, kind)
                },
                None => forall|k: int|
                    0 <= k < self.shown() ==> !#[trigger] self.draws_overlay(k, kind),
            },
    {
        let count: usize = self.visible_pane_count();
        let mut i: usize = 0;
        while i < count
            invariant
                count == self.shown(),
                count <= self.panes@.len(),
                i <= count,
                forall|k: int| 0 <= k < i ==> !#[trigger] self.draws_overlay(k, kind),
            decreases count - i,
        {
            if self.panes[i].is_map() && self.panes[i].is_overlay_enabled(kind) {
                return Some(i);
            }
            i = i + 1;
        }
        None
    }

    /// Whether a fetch someone is waiting on is in flight.
    pub fn fetching(&self) -> (r: bool)
        ensures
            r == self.radar.fetching,
    {
        self.radar.fetching
    }

    /// Set whether a fetch someone is waiting on is in flight.
    pub fn set_fetching(&mut self, fetching: bool)
        ensures
            *final(self) == (Gui {
                radar: RadarState { fetching, ..old(self).radar },
                ..*old(self)
            }),
    {
        self.radar.fetching = fetching;
    }

    /// The interface once a fetch has failed: the error is shown, the fetch is
    /// over, and the next poll comes later.
    pub open spec fn failed(self, error: String) -> Gui {
        Gui {
            radar: RadarState { error_message: Some(error), fetching: false, ..self.radar },
            auto_poll: AutoPollState {
                interval_secs: crate::poll::backed_off(self.auto_poll.interval_secs),
                ..self.auto_poll
            },
            ..self
        }
    }

    /// Show an error. The fetch is over, and the next poll comes later.
    pub fn set_error(&mut self, error: String)
        ensures
            *final(self) == old(self).failed(error),
            *final(self) == (Gui {
                radar: RadarState {
                    error_message: Some(error),
                    fetching: false,
                    ..old(self).radar
                },
                auto_poll: AutoPollState {
                    interval_secs: crate::poll::backed_off(old(self).auto_poll.interval_secs),
                    ..old(self).auto_poll
                },
                ..*old(self)
            }),
    {
        self.radar.error_message = Some(error);
        self.radar.fetching = false;
        self.auto_poll.on_error();
    }

    /// Take the error away.
    pub fn dismiss_error(&mut self)
        ensures
            *final(self) == (Gui {
                radar: RadarState { error_message: None, ..old(self).radar },
                ..*old(self)
            }),
    {
        self.radar.error_message = None;
    }

    /// The radar config.
    pub fn get_radar_config(&self) -> (r: &RadarConfig)
        ensures
            *r == self.radar.config,
    {
        &self.radar.config
    }

    /// Set the radar config, and the time dialog's texts with it.
    pub fn set_radar_config(&mut self, config: RadarConfig)
        ensures
            *final(self) == (Gui {
                radar: RadarState { config, ..old(self).radar },
                time_dialog: final(self).time_dialog,
                ..*old(self)
            }),
            final(self).time_dialog.date_string@ == date_text(config.timestamp),
            final(self).time_dialog.time_string@ == time_text(config.timestamp),
            final(self).time_dialog.show == old(self).time_dialog.show,
    {
        let date_string: String = write_date(config.timestamp);
        let time_string: String = write_time(config.timestamp);
        let show: bool = self.time_dialog.show;
        self.radar.config = config;
        self.time_dialog = TimeDialogState { date_string, time_string, show };
    }

    /// Whether live panes are fed from the real-time chunks.
    pub fn live_chunks_enabled(&self) -> (r: bool)
        ensures
            r == self.feed.live_chunks,
    {
        self.feed.live_chunks
    }

    pub fn set_live_chunks(&mut self, enabled: bool)
        ensures
            *final(self) == (Gui {
                feed: FeedState { live_chunks: enabled, ..old(self).feed },
                ..*old(self)
            }),
    {
        self.feed.live_chunks = enabled;
    }

    /// Whether to subscribe to the push-notification service.
    pub fn chunk_notifications_enabled(&self) -> (r: bool)
        ensures
            r == self.feed.chunk_notifications,
    {
        self.feed.chunk_notifications
    }

    pub fn set_chunk_notifications(&mut self, enabled: bool)
        ensures
            *final(self) == (Gui {
                feed: FeedState { chunk_notifications: enabled, ..old(self).feed },
                ..*old(self)
            }),
    {
        self.feed.chunk_notifications = enabled;
    }

    /// Where the notifier service lives: where it was typed, or by default.
    pub open spec fn endpoint(self) -> Seq<char> {
        if trimmed_text(self.feed.notifier_endpoint@).len() == 0 {
            self.feed.default_endpoint@
        } else {
            trimmed_text(self.feed.notifier_endpoint@)
        }
    }

    /// Where the notifier service lives. A blank value falls back to the
    /// default: a cleared box is not an off switch.
    pub fn notifier_endpoint(&self) -> (r: &str)
        ensures
            r@ == self.endpoint(),
            r@ == if trimmed_text(self.feed.notifier_endpoint@).len() == 0 {
                self.feed.default_endpoint@
            } else {
                trimmed_text(self.feed.notifier_endpoint@)
            },
    {
        let typed: &str = trimmed(self.feed.notifier_endpoint.as_str());
        if typed.is_empty() {
            self.feed.default_endpoint.as_str()
        } else {
            typed
        }
    }

    pub fn set_notifier_endpoint(&mut self, endpoint: String)
        ensures
            *final(self) == (Gui {
                feed: FeedState { notifier_endpoint: endpoint, ..old(self).feed },
                ..*old(self)
            }),
    {
        self.feed.notifier_endpoint = endpoint;
    }

    /// Publish what the real-time feed is doing.
    pub fn set_chunk_status(&mut self, status: ChunkFeedStatus)
        ensures
            *final(self) == (Gui {
                feed: FeedState { chunk_status: status, ..old(self).feed },
                ..*old(self)
            }),
    {
        self.feed.chunk_status = status;
    }

    pub fn chunk_status(&self) -> (r: &ChunkFeedStatus)
        ensures
            *r == self.feed.chunk_status,
    {
        &self.feed.chunk_status
    }

    /// Publish each site's current volume.
    pub fn set_current_volumes(&mut self, volumes: Vec<SiteVolume>)
        ensures
            *final(self) == (Gui {
                feed: FeedState { current_volumes: volumes, ..old(self).feed },
                ..*old(self)
            }),
    {
        self.feed.current_volumes = volumes;
    }

    /// Whether this is the stamp of a site's current volume: the first entry of
    /// the site, if it has one.
    pub open spec fn is_current_volume(
        self,
        site: Seq<char>,
        stamp: Option<CurrentVolumeStamp>,
    ) -> bool {
        match stamp {
            Some(stamp) => exists|i: int|
                {
                    &&& 0 <= i < self.feed.current_volumes@.len()
                    &&& (#[trigger] self.feed.current_volumes@[i]).site@ == site
                    &&& self.feed.current_volumes@[i].stamp == stamp
                    &&& forall|k: int|
                        0 <= k < i ==> (#[trigger] self.feed.current_volumes@[k]).site@ != site
                },
            None => forall|k: int|
                0 <= k < self.feed.current_volumes@.len() ==> (
                #[trigger] self.feed.current_volumes@[k]).site@ != site,
        }
    }

    /// The stamp of a site's current volume, if there is one.
    pub fn current_volume_for(&self, site: &str) -> (r: Option<CurrentVolumeStamp>)
        ensures
            self.is_current_volume(site@, r),
            match r {
                Some(stamp) => exists|i: int|
                    {
                        &&& 0 <= i < self.feed.current_volumes@.len()
                        &&& (#[trigger] self.feed.current_volumes@[i]).site@ == site@
                        &&& self.feed.current_volumes@[i].stamp == stamp
                        &&& forall|k: int|
                            0 <= k < i ==> (#[trigger] self.feed.current_volumes@[k]).site@
                                != site@
                    },
                None => forall|k: int|
                    0 <= k < self.feed.current_volumes@.len() ==> (
                    #[trigger] self.feed.current_volumes@[k]).site@ != site@,
            },
    {
        let mut i: usize = 0;
        while i < self.feed.current_volumes.len()
            invariant
                i <= self.feed.current_volumes@.len(),
                forall|k: int|
                    0 <= k < i ==> (#[trigger] self.feed.current_volumes@[k]).site@ != site@,
            decreases self.feed.current_volumes@.len() - i,
        {
            if same_text(self.feed.current_volumes[i].site.as_str(), site) {
                return Some(self.feed.current_volumes[i].stamp);
            }
            i = i + 1;
        }
        None
    }

    /// Whether panes share one map viewport.
    pub fn is_viewport_sync(&self) -> (r: bool)
        ensures
            r == self.settings.viewport_sync,
    {
        self.settings.viewport_sync
    }

    /// Whether layer changes propagate between panes.
    pub fn is_sync_layers(&self) -> (r: bool)
        ensures
            r == self.settings.sync_layers,
    {
        self.settings.sync_layers
    }

    /// Whether the storm motion vector is being edited right now.
    pub fn storm_motion_mid_edit(&self) -> (r: bool)
        ensures
            r == self.settings.storm_motion_editing,
    {
        self.settings.storm_motion_editing
    }

    pub fn set_safe_area_insets(&mut self, top: i64, bottom: i64, left: i64, right: i64)
        ensures
            *final(self) == (Gui {
                platform: Platform {
                    safe_area_insets: Insets { top, bottom, left, right },
                    ..old(self).platform
                },
                ..*old(self)
            }),
    {
        self.platform.safe_area_insets = Insets { top, bottom, left, right };
    }

    pub fn safe_area_insets(&self) -> (r: Insets)
        ensures
            r == self.platform.safe_area_insets,
    {
        self.platform.safe_area_insets
    }

    /// Tell the interface whether this platform can quit.
    pub fn set_supports_exit(&mut self, supported: bool)
        ensures
            *final(self) == (Gui {
                platform: Platform { supports_exit: supported, ..old(self).platform },
                ..*old(self)
            }),
    {
        self.platform.supports_exit = supported;
    }

    pub fn supports_exit(&self) -> (r: bool)
        ensures
            r == self.platform.supports_exit,
    {
        self.platform.supports_exit
    }

    /// Tell the interface this build's loop frame cap.
    pub fn set_loop_frame_budget(&mut self, frames: usize)
        ensures
            *final(self) == (Gui {
                platform: Platform { loop_frame_budget: frames, ..old(self).platform },
                ..*old(self)
            }),
    {
        self.platform.loop_frame_budget = frames;
    }

    /// Set the user's own position, which arrived at `now`.
    pub fn set_gps_fix(&mut self, fix: GpsFix, now: u64)
        ensures
            *final(self) == (Gui {
                location: LocationState {
                    user_fix: Some(fix),
                    user_fix_at: Some(now),
                    ..old(self).location
                },
                ..*old(self)
            }),
    {
        self.location.user_fix = Some(fix);
        self.location.user_fix_at = Some(now);
    }

    pub fn gps_fix(&self) -> (r: Option<GpsFix>)
        ensures
            r == self.location.user_fix,
    {
        self.location.user_fix
    }

    /// Forget the user's own position, and when it arrived.
    pub fn clear_gps_fix(&mut self)
        ensures
            *final(self) == (Gui {
                location: LocationState {
                    user_fix: None,
                    user_fix_at: None,
                    ..old(self).location
                },
                ..*old(self)
            }),
    {
        self.location.user_fix = None;
        self.location.user_fix_at = None;
    }

    /// Keep what the platform's location service is doing.
    pub fn set_location_state(&mut self, permission: u8, active: bool)
        ensures
            *final(self) == (Gui {
                location: LocationState { permission, active, ..old(self).location },
                ..*old(self)
            }),
    {
        self.location = LocationState { permission, active, ..self.location };
    }

    pub fn location_permission(&self) -> (r: u8)
        ensures
            r == self.location.permission,
    {
        self.location.permission
    }

    pub fn location_active(&self) -> (r: bool)
        ensures
            r == self.location.active,
    {
        self.location.active
    }

    pub fn set_location_settings_available(&mut self, available: bool)
        ensures
            *final(self) == (Gui {
                location: LocationState { settings_available: available, ..old(self).location },
                ..*old(self)
            }),
    {
        self.location.settings_available = available;
    }

    pub fn location_settings_available(&self) -> (r: bool)
        ensures
            r == self.location.settings_available,
    {
        self.location.settings_available
    }

    /// Set the compass heading, in millionths of a degree.
    pub fn set_user_heading(&mut self, heading: i64)
        ensures
            *final(self) == (Gui {
                location: LocationState { heading: Some(heading), ..old(self).location },
                ..*old(self)
            }),
    {
        self.location.heading = Some(heading);
    }

    pub fn user_heading(&self) -> (r: Option<i64>)
        ensures
            r == self.location.heading,
    {
        self.location.heading
    }

    /// Whether the layers panel is on screen.
    pub open spec fn shows_layers(self) -> bool {
        if self.platform.width == WidthClass::Expanded {
            self.panels.stack_open.unwrap_or(true)
        } else {
            self.panels.drawer_open
        }
    }

    /// Whether the layers panel is on screen: the sidebar unless it was closed,
    /// or the drawer where there is no sidebar.
    pub fn layers_panel_visible(&self) -> (r: bool)
        ensures
            r == self.shows_layers(),
            r == if self.platform.width == WidthClass::Expanded {
                self.panels.stack_open.unwrap_or(true)
            } else {
                self.panels.drawer_open
            },
    {
        if self.platform.width.has_persistent_sidebar() {
            self.panels.stack_open.unwrap_or(true)
        } else {
            self.panels.drawer_open
        }
    }

    /// Open the inspector on a selection. A new selection starts at the top.
    fn inspect(&mut self, selection: InspectorSelection)
        ensures
            *final(self) == (Gui {
                panels: Panels {
                    insp_scroll_reset: old(self).panels.inspector_sel != selection,
                    inspector_sel: selection,
                    insp_open: true,
                    ..old(self).panels
                },
                ..*old(self)
            }),
    {
        self.panels =
        Panels {
            insp_scroll_reset: self.panels.inspector_sel != selection,
            inspector_sel: selection,
            insp_open: true,
            ..self.panels
        };
    }

    /// Open the inspector on a layer's options.
    pub fn select_layer(&mut self, kind: OverlayKind)
        ensures
            *final(self) == (Gui {
                panels: Panels {
                    insp_scroll_reset: old(self).panels.inspector_sel != InspectorSelection::Layer(
                        kind,
                    ),
                    inspector_sel: InspectorSelection::Layer(kind),
                    insp_open: true,
                    ..old(self).panels
                },
                ..*old(self)
            }),
    {
        self.inspect(InspectorSelection::Layer(kind));
    }

    /// Open the inspector on the active pane's properties.
    pub fn select_pane_props(&mut self)
        ensures
            *final(self) == (Gui {
                panels: Panels {
                    insp_scroll_reset: old(self).panels.inspector_sel
                        != InspectorSelection::PaneProps,
                    inspector_sel: InspectorSelection::PaneProps,
                    insp_open: true,
                    ..old(self).panels
                },
                ..*old(self)
            }),
    {
        self.inspect(InspectorSelection::PaneProps);
    }

    /// Open the inspector on the app's settings.
    pub fn open_settings(&mut self)
        ensures
            *final(self) == (Gui {
                panels: Panels {
                    insp_scroll_reset: old(self).panels.inspector_sel
                        != InspectorSelection::AppSettings,
                    inspector_sel: InspectorSelection::AppSettings,
                    insp_open: true,
                    ..old(self).panels
                },
                ..*old(self)
            }),
    {
        self.inspect(InspectorSelection::AppSettings);
    }

    /// Whether the settings are on screen.
    pub open spec fn shows_settings(self) -> bool {
        self.panels.insp_open && self.panels.inspector_sel == InspectorSelection::AppSettings
    }

    /// Whether the settings are on screen.
    pub fn settings_visible(&self) -> (r: bool)
        ensures
            r == self.shows_settings(),
    {
        self.panels.insp_open && self.panels.inspector_sel == InspectorSelection::AppSettings
    }
}

impl LoopPlaybackState {
    /// Whether the animation needs frames: it runs, and it is playing, listing
    /// or rendering.
    pub open spec fn busy(self) -> bool {
        self.active() && (self.phase == LoopPhase::Playing || self.phase
            == LoopPhase::FetchingScanList || exists|i: int|
            0 <= i < self.frames@.len() && (#[trigger] self.frames@[i]).render_in_flight)
    }

    /// Whether the animation needs frames.
    pub fn is_busy(&self) -> (r: bool)
        ensures
            r == self.busy(),
    {
        if !self.is_active() {
            return false;
        }
        if self.is_playing() || self.is_fetching() {
            return true;
        }
        let mut i: usize = 0;
        while i < self.frames.len()
            invariant
                i <= self.frames@.len(),
                self.active(),
                forall|k: int| 0 <= k < i ==> !(#[trigger] self.frames@[k]).render_in_flight,
            decreases self.frames@.len() - i,
        {
            if self.frames[i].render_in_flight {
                return true;
            }
            i = i + 1;
        }
        false
    }
}

/// A failed fetch is over, is shown, and puts the next poll off: twice as long, up to
/// five minutes. Polling stays on, and nothing else changes.
pub proof fn law_failure_ends_the_fetch(state: Gui, error: String)
    ensures
        ({
            let after = state.failed(error);
            &&& after.radar.error_message == Some(error)
            &&& !after.radar.fetching
            &&& after.radar.config == state.radar.config
            &&& state.auto_poll.interval_secs <= 150 ==> after.auto_poll.interval_secs == 2
                * state.auto_poll.interval_secs
            &&& state.auto_poll.interval_secs >= 150 ==> after.auto_poll.interval_secs == 300
            &&& after.auto_poll.enabled == state.auto_poll.enabled
            &&& after.auto_poll.last_fetch_time == state.auto_poll.last_fetch_time
            &&& after.panes == state.panes
            &&& after.settings == state.settings
        }),
{
}

/// The notifier is looked for where it was typed, without the white space around it, and
/// where nothing was typed at the default.
pub proof fn law_blank_endpoint_is_the_default(state: Gui)
    ensures
        state.feed.notifier_endpoint@.len() == 0 ==> state.endpoint()
            == state.feed.default_endpoint@,
        (forall|k: int|
            0 <= k < state.feed.notifier_endpoint@.len() ==> crate::text::is_white(
                #[trigger] state.feed.notifier_endpoint@[k],
            )) ==> state.endpoint() == state.feed.default_endpoint@,
        state.feed.notifier_endpoint@.len() > 0 && !crate::text::is_white(
            state.feed.notifier_endpoint@[0],
        ) && !crate::text::is_white(state.feed.notifier_endpoint@.last()) ==> state.endpoint()
            == state.feed.notifier_endpoint@,
{
    let typed = state.feed.notifier_endpoint@;
    crate::text::law_trimmed_text_stands(typed);
    crate::text::law_trimming_takes_white_space_from_the_ends(typed);
    if forall|k: int| 0 <= k < typed.len() ==> crate::text::is_white(#[trigger] typed[k]) {
        let inner = trimmed_text(typed);
        if inner.len() > 0 {
            let (front, back) = choose|front: Seq<char>, back: Seq<char>|
                {
                    &&& typed == #[trigger] (front + inner + back)
                    &&& forall|k: int|
                        0 <= k < front.len() ==> crate::text::is_white(#[trigger] front[k])
                    &&& forall|k: int|
                        0 <= k < back.len() ==> crate::text::is_white(#[trigger] back[k])
                };
            assert(typed[front.len() as int] == inner[0]);
        }
    }
}

/// A site's current volume is its own first entry, whichever other sites are listed.
pub proof fn law_current_volume_is_of_its_site(
    state: Gui,
    site: Seq<char>,
    stamp: Option<CurrentVolumeStamp>,
    i: int,
)
    requires
        state.is_current_volume(site, stamp),
        0 <= i < state.feed.current_volumes@.len(),
        state.feed.current_volumes@[i].site@ == site,
        forall|k: int| 0 <= k < i ==> (#[trigger] state.feed.current_volumes@[k]).site@ != site,
    ensures
        stamp == Some(state.feed.current_volumes@[i].stamp),
{
}

/// The layers are on screen beside a wide map unless the sidebar was closed, and
/// elsewhere while the drawer is open.
pub proof fn law_layers_panel_fits_the_width(state: Gui)
    ensures
        state.platform.width is Expanded ==> (state.shows_layers() <==> state.panels.stack_open
            != Some(false)),
        !(state.platform.width is Expanded) ==> state.shows_layers() == state.panels.drawer_open,
{
}

/// A loop needs frames while it plays or lists its scans, or while any render of it is
/// under way, and never while it is off; the interface does while any pane's loop does,
/// on screen or not.
pub proof fn law_busy_loops_need_frames(state: Gui, i: int, k: int)
    requires
        0 <= i < state.panes@.len(),
    ensures
        ({
            let pane = state.panes@[i].loop_state;
            &&& pane.phase == LoopPhase::Inactive ==> !pane.busy()
            &&& pane.phase == LoopPhase::Playing ==> pane.busy()
            &&& pane.phase == LoopPhase::FetchingScanList ==> pane.busy()
            &&& pane.phase != LoopPhase::Inactive && 0 <= k < pane.frames@.len()
                && pane.frames@[k].render_in_flight ==> pane.busy()
            &&& pane.busy() && pane.phase != LoopPhase::Playing && pane.phase
                != LoopPhase::FetchingScanList ==> exists|j: int|
                0 <= j < pane.frames@.len() && (#[trigger] pane.frames@[j]).render_in_flight
            &&& pane.busy() ==> state.any_loop_busy()
        }),
        state.any_loop_busy() ==> exists|j: int|
            0 <= j < state.panes@.len() && (#[trigger] state.panes@[j]).loop_state.busy(),
{
    let pane = state.panes@[i].loop_state;
    if pane.phase != LoopPhase::Inactive && 0 <= k < pane.frames@.len()
        && pane.frames@[k].render_in_flight {
        assert(pane.frames@[k].render_in_flight);
    }
}

/// Some pane is live exactly where one on screen is.
pub proof fn law_live_panes_are_on_screen(state: Gui, i: int)
    requires
        state.pane_layout@.count >= 0,
        0 <= i < state.panes@.len(),
    ensures
        i < state.pane_layout@.count && state.panes@[i].viewing_live ==> state.any_live(),
        state.any_live() ==> exists|j: int|
            0 <= j < state.panes@.len() && j < state.pane_layout@.count && (
            #[trigger] state.panes@[j]).viewing_live,
{
}

} // verus!
