//! One pane's animation loop.

use vstd::prelude::*;
use crate::frames::{
    BroadcastSweep, LoopFrame, LoopFrameImage, LoopViewKey, RadarSite, RenderTarget,
    SectionLoopKey, VolumeLoopKey,
};
use crate::kinds::{RadarProduct, RenderView};
use crate::measure::Measure;
use crate::stamp::Stamp;

verus! {

/// The phases of a radar loop.
#[derive(Clone, Copy, Debug, PartialEq, Eq, Structural)]
pub enum LoopPhase {
    /// Loop mode is off.
    Inactive,
    /// Waiting for the scan listing.
    FetchingScanList,
    /// Scans listed, downloads and renders under way.
    Rendering,
    /// Enough frames have rendered, but playing has not started.
    Ready,
    /// Animating.
    Playing,
    /// Paused by the user.
    Paused,
}

/// Per-pane loop playback state. Present on every pane; with the phase
/// `Inactive` the pane shows a single picture.
pub struct LoopPlaybackState {
    pub phase: LoopPhase,
    /// Index of the currently displayed frame.
    pub current_frame: usize,
    /// Frames, oldest first.
    pub frames: Vec<LoopFrame>,
    /// The requested lookback.
    pub lookback_secs: u64,
    /// When the playhead last moved, in milliseconds on the monotonic clock.
    pub last_advance: Option<u64>,
    /// The code of the site the loop's geometry belongs to.
    pub site: String,
    /// Latitude of that site, in millionths of a degree.
    pub site_lat: i64,
    /// Longitude of that site, in millionths of a degree.
    pub site_lon: i64,
    /// What every frame's render state was produced for, or `None` before the
    /// first dispatch.
    pub rendered_for: Option<RenderTarget>,
    /// Which kind of picture the frames are.
    pub view: RenderView,
    /// The view-specific half of the render key, written together with
    /// `rendered_for`.
    pub view_key: Option<LoopViewKey>,
}

/// What a frame has to be to answer a lookup.
pub enum FrameWanted {
    /// A render is in progress for it.
    InFlight,
    /// It has no picture.
    Blank,
    /// It has a plan-view picture.
    PlanView,
    /// It has a section picture cut from the ladder with this fingerprint.
    SectionOf(u64),
}

impl FrameWanted {
    /// Whether `frame` is the one of `timestamp` and is as wanted.
    pub open spec fn suits(self, frame: LoopFrame, timestamp: Stamp) -> bool {
        frame.timestamp == timestamp && match self {
            FrameWanted::InFlight => frame.render_in_flight,
            FrameWanted::Blank => frame.image is None,
            FrameWanted::PlanView => frame.image matches Some(image) && image is PlanView,
            FrameWanted::SectionOf(ladder) => frame.image matches Some(image) && image is Section
                && image->Section_0.ladder == ladder,
        }
    }

    fn is_met_by(&self, frame: &LoopFrame, timestamp: Stamp) -> (r: bool)
        ensures
            r == self.suits(*frame, timestamp),
    {
        frame.timestamp == timestamp && match self {
            FrameWanted::InFlight => frame.render_in_flight,
            FrameWanted::Blank => frame.image.is_none(),
            FrameWanted::PlanView => match &frame.image {
                Some(LoopFrameImage::PlanView(_)) => true,
                _ => false,
            },
            FrameWanted::SectionOf(ladder) => match &frame.image {
                Some(LoopFrameImage::Section(image)) => image.ladder == *ladder,
                _ => false,
            },
        }
    }
}

/// Whether `found` is the first frame of `timestamp` that is as wanted.
pub open spec fn first_suiting(
    frames: Seq<LoopFrame>,
    wanted: FrameWanted,
    timestamp: Stamp,
    found: Option<usize>,
) -> bool {
    match found {
        Some(i) => {
            &&& i < frames.len()
            &&& wanted.suits(frames[i as int], timestamp)
            &&& forall|k: int| 0 <= k < i ==> !wanted.suits(#[trigger] frames[k], timestamp)
        },
        None => forall|k: int|
            0 <= k < frames.len() ==> !wanted.suits(#[trigger] frames[k], timestamp),
    }
}

/// The first frame of `timestamp` that is as wanted.
fn position(frames: &Vec<LoopFrame>, wanted: FrameWanted, timestamp: Stamp) -> (r: Option<usize>)
    ensures
        first_suiting(frames@, wanted, timestamp, r),
{
    let mut i: usize = 0;
    while i < frames.len()
        invariant
            i <= frames@.len(),
            forall|k: int| 0 <= k < i ==> !wanted.suits(#[trigger] frames@[k], timestamp),
        decreases frames@.len() - i,
    {
        if wanted.is_met_by(&frames[i], timestamp) {
            return Some(i);
        }
        i = i + 1;
    }
    None
}

/// The place that comes `k`-th when walking outward from `current` round a ring
/// of `n`: the playhead itself, one forward, one back, two forward, two back.
pub open spec fn ring_place(current: int, n: int, k: int) -> int {
    if k % 2 == 1 {
        (current + (k + 1) / 2) % n
    } else {
        (current - k / 2) % n
    }
}

/// How many frames of a loop of `n` are meant to be textured.
pub open spec fn render_set_len(n: nat, budget: nat) -> nat {
    if budget < n { budget } else { n }
}

/// The frames of a loop of `n` that are meant to be textured, in the order in
/// which they are wanted.
pub open spec fn render_set(current: int, n: nat, budget: nat) -> Seq<int> {
    Seq::new(render_set_len(n, budget), |k: int| ring_place(current, n as int, k))
}

/// How many frames have a picture.
pub open spec fn textured(frames: Seq<LoopFrame>) -> nat
    decreases frames.len(),
{
    if frames.len() == 0 {
        0
    } else {
        textured(frames.drop_last()) + (if frames.last().image is Some { 1nat } else { 0nat })
    }
}

impl LoopPlaybackState {
    /// The state of a pane that is not looping and never was.
    pub open spec fn is_fresh(self) -> bool {
        &&& self.phase == LoopPhase::Inactive
        &&& self.current_frame == 0
        &&& self.frames@.len() == 0
        &&& self.lookback_secs == 0
        &&& self.last_advance is None
        &&& self.site@.len() == 0
        &&& self.site_lat == 0
        &&& self.site_lon == 0
        &&& self.rendered_for is None
        &&& self.view == RenderView::PlanView
        &&& self.view_key is None
    }

    /// Whether the loop is running at all.
    pub open spec fn active(self) -> bool {
        self.phase != LoopPhase::Inactive
    }

    /// Whether the frames' render state is keyed to `target`.
    pub open spec fn keyed_to(self, target: RenderTarget) -> bool {
        self.rendered_for matches Some(t) && t.same_image(target)
    }

    /// Whether the frames are cut for `target` along and under `key`.
    pub open spec fn cut_for(self, target: RenderTarget, key: SectionLoopKey) -> bool {
        self.keyed_to(target) && self.view_key == Some(LoopViewKey::Section(key))
    }

    /// Whether plan-view pictures of `target` may enter or leave this loop.
    pub open spec fn trades_plan_views(self, target: RenderTarget) -> bool {
        self.view == RenderView::PlanView && self.active() && self.keyed_to(target)
    }

    /// Whether sections of `target` under `key` may enter or leave this loop.
    pub open spec fn trades_sections(self, target: RenderTarget, key: SectionLoopKey) -> bool {
        self.view == RenderView::CrossSection && self.active() && self.cut_for(target, key)
    }

    /// Whether `found` is the frame that awaits a plan view of `target`.
    pub open spec fn awaits_plan_view(
        self,
        timestamp: Stamp,
        target: RenderTarget,
        found: Option<usize>,
    ) -> bool {
        if self.trades_plan_views(target) {
            first_suiting(self.frames@, FrameWanted::InFlight, timestamp, found)
        } else {
            found is None
        }
    }

    /// Whether `found` is the frame that takes another pane's plan view of
    /// `target`, drawn from `sweep`.
    pub open spec fn takes_plan_view(
        self,
        timestamp: Stamp,
        target: RenderTarget,
        sweep: BroadcastSweep,
        found: Option<usize>,
    ) -> bool {
        if self.trades_plan_views(target) && sweep.agreeing() {
            first_suiting(self.frames@, FrameWanted::Blank, timestamp, found)
        } else {
            found is None
        }
    }

    /// Whether `found` is the frame that gives a plan view of `target`.
    pub open spec fn gives_plan_view(
        self,
        timestamp: Stamp,
        target: RenderTarget,
        found: Option<usize>,
    ) -> bool {
        if self.trades_plan_views(target) {
            first_suiting(self.frames@, FrameWanted::PlanView, timestamp, found)
        } else {
            found is None
        }
    }

    /// Whether `found` is the frame that awaits a section of `target` under
    /// `key`.
    pub open spec fn awaits_section(
        self,
        timestamp: Stamp,
        target: RenderTarget,
        key: SectionLoopKey,
        found: Option<usize>,
    ) -> bool {
        if self.trades_sections(target, key) {
            first_suiting(self.frames@, FrameWanted::InFlight, timestamp, found)
        } else {
            found is None
        }
    }

    /// Whether `found` is the frame that takes another pane's section of
    /// `target` under `key`, cut from `ladder`.
    pub open spec fn takes_section(
        self,
        timestamp: Stamp,
        target: RenderTarget,
        key: SectionLoopKey,
        ladder: u64,
        own_ladder: Option<u64>,
        found: Option<usize>,
    ) -> bool {
        if self.trades_sections(target, key) && own_ladder == Some(ladder) {
            first_suiting(self.frames@, FrameWanted::Blank, timestamp, found)
        } else {
            found is None
        }
    }

    /// Whether `found` is the frame that gives a section of `target` under
    /// `key`, cut from `ladder`.
    pub open spec fn gives_section(
        self,
        timestamp: Stamp,
        target: RenderTarget,
        key: SectionLoopKey,
        ladder: u64,
        found: Option<usize>,
    ) -> bool {
        if self.trades_sections(target, key) {
            first_suiting(self.frames@, FrameWanted::SectionOf(ladder), timestamp, found)
        } else {
            found is None
        }
    }

    /// Whether enough frames have rendered for playback.
    pub open spec fn render_ready(self) -> bool {
        self.phase == LoopPhase::Ready || self.phase == LoopPhase::Playing || self.phase
            == LoopPhase::Paused
    }

    /// Whether playback was started, and may be paused since.
    pub open spec fn playback_started(self) -> bool {
        self.phase == LoopPhase::Playing || self.phase == LoopPhase::Paused
    }

    /// The frames that the renderer means to have textured.
    pub open spec fn wanted_frames(self, budget: nat) -> Seq<int> {
        render_set(self.current_frame as int, self.frames@.len(), budget)
    }

    /// A single-picture state: no loop, no frames.
    pub fn new() -> (r: Self)
        ensures
            r.is_fresh(),
    {
        LoopPlaybackState {
            phase: LoopPhase::Inactive,
            current_frame: 0,
            frames: Vec::new(),
            lookback_secs: 0,
            last_advance: None,
            site: String::new(),
            site_lat: 0,
            site_lon: 0,
            rendered_for: None,
            view: RenderView::PlanView,
            view_key: None,
        }
    }

    /// A loop that starts by listing scans. The code and the coordinates come
    /// from one site, so they cannot describe two.
    pub fn new_for_loop(lookback_secs: u64, site: &RadarSite, view: RenderView) -> (r: Self)
        ensures
            r.phase == LoopPhase::FetchingScanList,
            r.current_frame == 0,
            r.frames@.len() == 0,
            r.lookback_secs == lookback_secs,
            r.last_advance is None,
            r.site@ == site.name@,
            r.site_lat == site.lat,
            r.site_lon == site.lon,
            r.rendered_for is None,
            r.view == view,
            r.view_key is None,
    {
        LoopPlaybackState {
            phase: LoopPhase::FetchingScanList,
            current_frame: 0,
            frames: Vec::new(),
            lookback_secs,
            last_advance: None,
            site: site.name.clone(),
            site_lat: site.lat,
            site_lon: site.lon,
            rendered_for: None,
            view,
            view_key: None,
        }
    }

    /// True if the loop is active.
    pub fn is_active(&self) -> (r: bool)
        ensures
            r == self.active(),
    {
        match self.phase {
            LoopPhase::Inactive => false,
            _ => true,
        }
    }

    /// True if actively playing back frames.
    pub fn is_playing(&self) -> (r: bool)
        ensures
            r == (self.phase == LoopPhase::Playing),
    {
        self.phase == LoopPhase::Playing
    }

    /// True if enough frames have rendered for playback to be enabled.
    pub fn is_render_ready(&self) -> (r: bool)
        ensures
            r == self.render_ready(),
            r == (self.phase == LoopPhase::Ready || self.phase == LoopPhase::Playing || self.phase
                == LoopPhase::Paused),
    {
        match self.phase {
            LoopPhase::Ready | LoopPhase::Playing | LoopPhase::Paused => true,
            _ => false,
        }
    }

    /// True during the initial scan list fetch.
    pub fn is_fetching(&self) -> (r: bool)
        ensures
            r == (self.phase == LoopPhase::FetchingScanList),
    {
        self.phase == LoopPhase::FetchingScanList
    }

    /// True if playback was previously started.
    pub fn has_playback_started(&self) -> (r: bool)
        ensures
            r == self.playback_started(),
            r == (self.phase == LoopPhase::Playing || self.phase == LoopPhase::Paused),
    {
        match self.phase {
            LoopPhase::Playing | LoopPhase::Paused => true,
            _ => false,
        }
    }

    /// True if the frames' render state is keyed to exactly this target.
    pub fn is_rendered_for(&self, target: &RenderTarget) -> (r: bool)
        ensures
            r == self.keyed_to(*target),
    {
        match &self.rendered_for {
            Some(t) => t.matches(target),
            None => false,
        }
    }

    /// The index of the frame a finished plan-view render must be written to,
    /// or `None` if the result has to be dropped: the loop shows another view,
    /// is off or is keyed to something else, or no frame of `timestamp` expects
    /// a result.
    pub fn frame_awaiting_render_result(&self, timestamp: Stamp, target: &RenderTarget) -> (r:
        Option<usize>)
        ensures
            self.awaits_plan_view(timestamp, *target, r),
            self.trades_plan_views(*target) ==> first_suiting(
                self.frames@,
                FrameWanted::InFlight,
                timestamp,
                r,
            ),
            !self.trades_plan_views(*target) ==> r is None,
    {
        if self.view != RenderView::PlanView || !self.is_active() || !self.is_rendered_for(target) {
            return None;
        }
        position(&self.frames, FrameWanted::InFlight, timestamp)
    }

    /// The index of the frame that should receive a plan view finished by
    /// another pane, or `None` if this loop cannot use it. Only a frame without
    /// a picture qualifies, and only for the sweep this loop would have drawn.
    pub fn frame_accepting_broadcast(
        &self,
        timestamp: Stamp,
        target: &RenderTarget,
        sweep: BroadcastSweep,
    ) -> (r: Option<usize>)
        ensures
            self.takes_plan_view(timestamp, *target, sweep, r),
            self.trades_plan_views(*target) && sweep.agreeing() ==> first_suiting(
                self.frames@,
                FrameWanted::Blank,
                timestamp,
                r,
            ),
            !(self.trades_plan_views(*target) && sweep.agreeing()) ==> r is None,
    {
        if self.view != RenderView::PlanView || !self.is_active() || !self.is_rendered_for(target)
            || !sweep.agrees() {
            return None;
        }
        position(&self.frames, FrameWanted::Blank, timestamp)
    }

    /// The index of a frame this loop can hand to a pane keyed to `target`,
    /// letting that pane skip a render.
    pub fn frame_donatable_to(&self, timestamp: Stamp, target: &RenderTarget) -> (r: Option<usize>)
        ensures
            self.gives_plan_view(timestamp, *target, r),
            self.trades_plan_views(*target) ==> first_suiting(
                self.frames@,
                FrameWanted::PlanView,
                timestamp,
                r,
            ),
            !self.trades_plan_views(*target) ==> r is None,
    {
        if self.view != RenderView::PlanView || !self.is_active() || !self.is_rendered_for(target) {
            return None;
        }
        position(&self.frames, FrameWanted::PlanView, timestamp)
    }

    /// Whether this loop's frames are cut for `target` and `key`, both halves.
    pub fn is_cut_for(&self, target: &RenderTarget, key: &SectionLoopKey) -> (r: bool)
        ensures
            r == self.cut_for(*target, *key),
    {
        self.is_rendered_for(target) && match self.view_key {
            Some(LoopViewKey::Section(own)) => own == *key,
            _ => false,
        }
    }

    /// The section half of this loop's key, or `None`.
    pub fn section_key(&self) -> (r: Option<&SectionLoopKey>)
        ensures
            r is Some <==> self.view_key matches Some(LoopViewKey::Section(_)),
            r matches Some(key) ==> self.view_key == Some(LoopViewKey::Section(*key)),
    {
        match &self.view_key {
            Some(LoopViewKey::Section(key)) => Some(key),
            _ => None,
        }
    }

    /// The volume half of this loop's key, or `None`.
    pub fn volume_key(&self) -> (r: Option<&VolumeLoopKey>)
        ensures
            r is Some <==> self.view_key matches Some(LoopViewKey::Volume(_)),
            r matches Some(key) ==> self.view_key == Some(LoopViewKey::Volume(*key)),
    {
        match &self.view_key {
            Some(LoopViewKey::Volume(key)) => Some(key),
            _ => None,
        }
    }

    /// The index of the frame awaiting a section result, or `None`.
    pub fn frame_awaiting_section_result(
        &self,
        timestamp: Stamp,
        target: &RenderTarget,
        key: &SectionLoopKey,
    ) -> (r: Option<usize>)
        ensures
            self.awaits_section(timestamp, *target, *key, r),
            self.trades_sections(*target, *key) ==> first_suiting(
                self.frames@,
                FrameWanted::InFlight,
                timestamp,
                r,
            ),
            !self.trades_sections(*target, *key) ==> r is None,
    {
        if self.view != RenderView::CrossSection || !self.is_active() || !self.is_cut_for(
            target,
            key,
        ) {
            return None;
        }
        position(&self.frames, FrameWanted::InFlight, timestamp)
    }

    /// The index of the frame that should receive a section finished by another
    /// pane, or `None`. A section has no single sweep to agree on; the ladder it
    /// was cut from has to be the one this loop's own scan resolves to.
    pub fn frame_accepting_section_broadcast(
        &self,
        timestamp: Stamp,
        target: &RenderTarget,
        key: &SectionLoopKey,
        ladder: u64,
        own_ladder: Option<u64>,
    ) -> (r: Option<usize>)
        ensures
            self.takes_section(timestamp, *target, *key, ladder, own_ladder, r),
            self.trades_sections(*target, *key) && own_ladder == Some(ladder) ==> first_suiting(
                self.frames@,
                FrameWanted::Blank,
                timestamp,
                r,
            ),
            !(self.trades_sections(*target, *key) && own_ladder == Some(ladder)) ==> r is None,
    {
        if self.view != RenderView::CrossSection || !self.is_active() || !self.is_cut_for(
            target,
            key,
        ) || own_ladder != Some(ladder) {
            return None;
        }
        position(&self.frames, FrameWanted::Blank, timestamp)
    }

    /// The index of a section frame this loop can hand to a pane keyed to
    /// `target` and `key`, cut from the ladder that pane wants.
    pub fn section_frame_donatable_to(
        &self,
        timestamp: Stamp,
        target: &RenderTarget,
        key: &SectionLoopKey,
        wanted_ladder: u64,
    ) -> (r: Option<usize>)
        ensures
            self.gives_section(timestamp, *target, *key, wanted_ladder, r),
            self.trades_sections(*target, *key) ==> first_suiting(
                self.frames@,
                FrameWanted::SectionOf(wanted_ladder),
                timestamp,
                r,
            ),
            !self.trades_sections(*target, *key) ==> r is None,
    {
        if self.view != RenderView::CrossSection || !self.is_active() || !self.is_cut_for(
            target,
            key,
        ) {
            return None;
        }
        position(&self.frames, FrameWanted::SectionOf(wanted_ladder), timestamp)
    }
}

/// Whether lending `frame` out of `before` leaves `after`: `frame` is the first
/// one of `timestamp` that is as wanted, and only it can change.
pub open spec fn lends(
    before: LoopPlaybackState,
    after: LoopPlaybackState,
    wanted: FrameWanted,
    timestamp: Stamp,
    lent: LoopFrame,
    returned: LoopFrame,
) -> bool {
    &&& after == (LoopPlaybackState { frames: after.frames, ..before })
    &&& exists|i: usize|
        {
            &&& #[trigger] first_suiting(before.frames@, wanted, timestamp, Some(i))
            &&& lent == before.frames@[i as int]
            &&& after.frames@ == before.frames@.update(i as int, returned)
        }
}

impl LoopPlaybackState {
    /// The frame that [`Self::frame_awaiting_render_result`] finds, to write to.
    pub fn frame_awaiting_render_result_mut(
        &mut self,
        timestamp: Stamp,
        target: &RenderTarget,
    ) -> (r: Option<&mut LoopFrame>)
        ensures
            match r {
                Some(frame) => old(self).trades_plan_views(*target) && lends(
                    *old(self),
                    *final(self),
                    FrameWanted::InFlight,
                    timestamp,
                    *frame,
                    *final(frame),
                ),
                None => {
                    &&& *final(self) == *old(self)
                    &&& old(self).trades_plan_views(*target) ==> first_suiting(
                        old(self).frames@,
                        FrameWanted::InFlight,
                        timestamp,
                        None,
                    )
                },
            },
    {
        match self.frame_awaiting_render_result(timestamp, target) {
            Some(idx) => Some(&mut self.frames[idx]),
            None => None,
        }
    }

    /// The frame that [`Self::frame_accepting_broadcast`] finds, to write to.
    pub fn frame_accepting_broadcast_mut(
        &mut self,
        timestamp: Stamp,
        target: &RenderTarget,
        sweep: BroadcastSweep,
    ) -> (r: Option<&mut LoopFrame>)
        ensures
            match r {
                Some(frame) => old(self).trades_plan_views(*target) && sweep.agreeing() && lends(
                    *old(self),
                    *final(self),
                    FrameWanted::Blank,
                    timestamp,
                    *frame,
                    *final(frame),
                ),
                None => {
                    &&& *final(self) == *old(self)
                    &&& old(self).trades_plan_views(*target) && sweep.agreeing() ==> first_suiting(
                        old(self).frames@,
                        FrameWanted::Blank,
                        timestamp,
                        None,
                    )
                },
            },
    {
        match self.frame_accepting_broadcast(timestamp, target, sweep) {
            Some(idx) => Some(&mut self.frames[idx]),
            None => None,
        }
    }

    /// The frame that [`Self::frame_awaiting_section_result`] finds, to write
    /// to.
    pub fn frame_awaiting_section_result_mut(
        &mut self,
        timestamp: Stamp,
        target: &RenderTarget,
        key: &SectionLoopKey,
    ) -> (r: Option<&mut LoopFrame>)
        ensures
            match r {
                Some(frame) => old(self).trades_sections(*target, *key) && lends(
                    *old(self),
                    *final(self),
                    FrameWanted::InFlight,
                    timestamp,
                    *frame,
                    *final(frame),
                ),
                None => {
                    &&& *final(self) == *old(self)
                    &&& old(self).trades_sections(*target, *key) ==> first_suiting(
                        old(self).frames@,
                        FrameWanted::InFlight,
                        timestamp,
                        None,
                    )
                },
            },
    {
        match self.frame_awaiting_section_result(timestamp, target, key) {
            Some(idx) => Some(&mut self.frames[idx]),
            None => None,
        }
    }

    /// The frame that [`Self::frame_accepting_section_broadcast`] finds, to
    /// write to.
    pub fn frame_accepting_section_broadcast_mut(
        &mut self,
        timestamp: Stamp,
        target: &RenderTarget,
        key: &SectionLoopKey,
        ladder: u64,
        own_ladder: Option<u64>,
    ) -> (r: Option<&mut LoopFrame>)
        ensures
            match r {
                Some(frame) => old(self).trades_sections(*target, *key) && own_ladder == Some(
                    ladder,
                ) && lends(
                    *old(self),
                    *final(self),
                    FrameWanted::Blank,
                    timestamp,
                    *frame,
                    *final(frame),
                ),
                None => {
                    &&& *final(self) == *old(self)
                    &&& old(self).trades_sections(*target, *key) && own_ladder == Some(ladder)
                        ==> first_suiting(
                        old(self).frames@,
                        FrameWanted::Blank,
                        timestamp,
                        None,
                    )
                },
            },
    {
        match self.frame_accepting_section_broadcast(timestamp, target, key, ladder, own_ladder) {
            Some(idx) => Some(&mut self.frames[idx]),
            None => None,
        }
    }
}

impl LoopPlaybackState {
    /// Whether pointing the loop at `product`, `elevation` and `key` asks for
    /// nothing new. A volume is resampled from every tilt, so under a volume
    /// key the elevation is not compared.
    pub open spec fn already_at(
        self,
        product: RadarProduct,
        elevation: Measure,
        key: Option<LoopViewKey>,
    ) -> bool {
        &&& self.view_key == key
        &&& self.rendered_for matches Some(t) && if key matches Some(LoopViewKey::Volume(_)) {
            t.site@ == self.site@ && t.product == product
        } else {
            t.names(self.site@, product, elevation)
        }
    }

    /// Whether `after` is this loop pointed at `product`, `elevation` and `key`:
    /// untouched if it was there already, and otherwise with the new key and,
    /// where the frames had been rendered for another, every frame blank.
    pub open spec fn retargeted(
        self,
        after: LoopPlaybackState,
        product: RadarProduct,
        elevation: Measure,
        key: Option<LoopViewKey>,
    ) -> bool {
        if self.already_at(product, elevation, key) {
            after == self
        } else {
            &&& after == (LoopPlaybackState {
                frames: after.frames,
                rendered_for: after.rendered_for,
                view_key: key,
                ..self
            })
            &&& after.rendered_for matches Some(t) && t.site@ == self.site@ && t.product == product
                && t.elevation == elevation
            &&& after.frames@ =~= if self.rendered_for is Some {
                self.frames@.map_values(|f: LoopFrame| f.blank())
            } else {
                self.frames@
            }
        }
    }

    /// Point the loop's frame renders at `product` and `elevation`, discarding
    /// every frame's render state if that differs from what the frames were last
    /// rendered for. Returns `true` if frames were invalidated.
    pub fn retarget_renders(&mut self, product: RadarProduct, elevation: Measure) -> (r: bool)
        ensures
            old(self).retargeted(*final(self), product, elevation, None),
            r == (!old(self).already_at(product, elevation, None) && old(self).rendered_for
                is Some),
    {
        self.retarget_renders_for(product, elevation, None)
    }

    /// Whether `after` is this loop pointed at `product`, `elevation` and the
    /// section half of a key, if there is one.
    pub open spec fn retargeted_along(
        self,
        after: LoopPlaybackState,
        product: RadarProduct,
        elevation: Measure,
        section: Option<SectionLoopKey>,
    ) -> bool {
        self.retargeted(
            after,
            product,
            elevation,
            match section {
                Some(k) => Some(LoopViewKey::Section(k)),
                None => None,
            },
        )
    }

    /// [`Self::retarget_renders`] with the section half of the key.
    pub fn retarget_renders_for(
        &mut self,
        product: RadarProduct,
        elevation: Measure,
        section: Option<SectionLoopKey>,
    ) -> (r: bool)
        ensures
            old(self).retargeted_along(*final(self), product, elevation, section),
            ({
                let key = match section {
                    Some(k) => Some(LoopViewKey::Section(k)),
                    None => None,
                };
                &&& old(self).retargeted(*final(self), product, elevation, key)
                &&& r == (!old(self).already_at(product, elevation, key) && old(
                    self,
                ).rendered_for is Some)
            }),
    {
        let key: Option<LoopViewKey> = match section {
            Some(k) => Some(LoopViewKey::Section(k)),
            None => None,
        };
        self.retarget_renders_keyed(product, elevation, key)
    }

    /// [`Self::retarget_renders`] with whichever view half this loop has. The
    /// only writer of either half of the key.
    pub fn retarget_renders_keyed(
        &mut self,
        product: RadarProduct,
        elevation: Measure,
        key: Option<LoopViewKey>,
    ) -> (r: bool)
        ensures
            old(self).retargeted(*final(self), product, elevation, key),
            r == (!old(self).already_at(product, elevation, key) && old(self).rendered_for
                is Some),
    {
        let tilt_matters: bool = match key {
            Some(LoopViewKey::Volume(_)) => false,
            _ => true,
        };
        let same_target: bool = match &self.rendered_for {
            Some(t) => if tilt_matters {
                t.matches_parts(self.site.as_str(), product, elevation)
            } else {
                t.site == self.site && t.product == product
            },
            None => false,
        };
        if same_target && self.view_key == key {
            return false;
        }
        let had_previous_target: bool = self.rendered_for.is_some();
        self.rendered_for = Some(RenderTarget::new(self.site.as_str(), product, elevation));
        self.view_key = key;
        if !had_previous_target {
            return false;
        }
        let ghost before = self.frames@;
        let mut i: usize = 0;
        while i < self.frames.len()
            invariant
                i <= self.frames@.len(),
                self.frames@.len() == before.len(),
                forall|k: int| 0 <= k < i ==> #[trigger] self.frames@[k] == before[k].blank(),
                forall|k: int| i <= k < before.len() ==> #[trigger] self.frames@[k] == before[k],
                *self == (LoopPlaybackState {
                    frames: self.frames,
                    rendered_for: self.rendered_for,
                    view_key: key,
                    ..*old(self)
                }),
                before == old(self).frames@,
                self.rendered_for matches Some(t) && t.site@ == old(self).site@ && t.product
                    == product && t.elevation == elevation,
            decreases self.frames@.len() - i,
        {
            let timestamp = self.frames[i].timestamp;
            self.frames[i] = LoopFrame {
                timestamp,
                image: None,
                render_in_flight: false,
                render_failed: false,
            };
            i = i + 1;
        }
        true
    }

    /// Asking for the same thing twice changes nothing the second time. An
    /// elevation that is no number is never the same, except for a volume.
    pub proof fn law_retarget_settles(
        before: LoopPlaybackState,
        after: LoopPlaybackState,
        product: RadarProduct,
        elevation: Measure,
        key: Option<LoopViewKey>,
    )
        requires
            before.retargeted(after, product, elevation, key),
            elevation.finite() || key matches Some(LoopViewKey::Volume(_)),
        ensures
            after.already_at(product, elevation, key),
    {
    }

    /// A loop pointed elsewhere owes nothing and has nothing: a result of the
    /// earlier target finds no frame to land on, and no frame is counted as
    /// failed for the new one.
    pub proof fn law_retarget_discards(
        before: LoopPlaybackState,
        after: LoopPlaybackState,
        product: RadarProduct,
        elevation: Measure,
        key: Option<LoopViewKey>,
        i: int,
    )
        requires
            before.retargeted(after, product, elevation, key),
            before.rendered_for is Some,
            !before.already_at(product, elevation, key),
            0 <= i < before.frames@.len(),
        ensures
            after.frames@.len() == before.frames@.len(),
            after.frames@[i] == before.frames@[i].blank(),
    {
    }
}

/// Every place on the walk is a frame.
proof fn lemma_ring_in_range(current: int, n: int, k: int)
    requires
        n > 0,
    ensures
        0 <= ring_place(current, n, k) < n,
{
    vstd::arithmetic::div_mod::lemma_mod_bound(current + (k + 1) / 2, n);
    vstd::arithmetic::div_mod::lemma_mod_bound(current - k / 2, n);
}

/// How far from the playhead the `k`-th place on the walk lies, with its sign.
spec fn ring_step(k: int) -> int {
    if k % 2 == 1 { (k + 1) / 2 } else { -(k / 2) }
}

/// Two different steps of the walk reach two different places.
proof fn lemma_ring_distinct(current: int, n: int, j: int, k: int)
    requires
        0 <= j < k < n,
    ensures
        ring_place(current, n, j) != ring_place(current, n, k),
{
    let a = current + ring_step(j);
    let b = current + ring_step(k);
    assert(ring_place(current, n, j) == a % n);
    assert(ring_place(current, n, k) == b % n);
    assert(a != b && -n < a - b < n);
    if a % n == b % n {
        vstd::arithmetic::div_mod::lemma_fundamental_div_mod(a, n);
        vstd::arithmetic::div_mod::lemma_fundamental_div_mod(b, n);
        let p = a / n;
        let q = b / n;
        assert(a - b == n * (p - q)) by (nonlinear_arith)
            requires
                a == n * p + a % n,
                b == n * q + b % n,
                a % n == b % n,
        {}
        assert(false) by (nonlinear_arith)
            requires
                a - b == n * (p - q),
                a != b,
                -n < a - b < n,
                n > 0,
        {}
    }
}

/// The place `off` steps after `base` on a ring of `n`.
fn forward(base: usize, n: usize, off: usize) -> (r: usize)
    requires
        base < n,
        off < n,
    ensures
        r == (base + off) % (n as int),
{
    if off < n - base {
        proof {
            vstd::arithmetic::div_mod::lemma_small_mod((base + off) as nat, n as nat);
        }
        base + off
    } else {
        let r: usize = off - (n - base);
        proof {
            vstd::arithmetic::div_mod::lemma_fundamental_div_mod_converse(
                base + off,
                n as int,
                1,
                r as int,
            );
        }
        r
    }
}

/// The place `off` steps before `base` on a ring of `n`.
fn backward(base: usize, n: usize, off: usize) -> (r: usize)
    requires
        base < n,
        off < n,
    ensures
        r == (base - off) % (n as int),
{
    if off <= base {
        proof {
            vstd::arithmetic::div_mod::lemma_small_mod((base - off) as nat, n as nat);
        }
        base - off
    } else {
        let r: usize = n - (off - base);
        proof {
            vstd::arithmetic::div_mod::lemma_fundamental_div_mod_converse(
                base - off,
                n as int,
                -1,
                r as int,
            );
        }
        r
    }
}

/// Walking from a place and from the same place some whole turns on is the same.
proof fn lemma_ring_from_remainder(current: int, n: int, step: int)
    requires
        n > 0,
    ensures
        (current % n + step) % n == (current + step) % n,
{
    vstd::arithmetic::div_mod::lemma_add_mod_noop(current, step, n);
    vstd::arithmetic::div_mod::lemma_add_mod_noop(current % n, step, n);
    vstd::arithmetic::div_mod::lemma_mod_twice(current, n);
}

impl LoopPlaybackState {
    /// Indices of the frames the renderer intends to have textured: up to
    /// `budget` of them, walking outward from the playhead, forward first. The
    /// dispatcher, the readiness check and the eviction all go by this set.
    pub fn render_set_indices(&self, budget: usize) -> (r: Vec<usize>)
        ensures
            r@.map_values(|i: usize| i as int) =~= self.wanted_frames(budget as nat),
            forall|k: int| 0 <= k < r@.len() ==> #[trigger] r@[k] < self.frames@.len(),
    {
        let n: usize = self.frames.len();
        let wanted: usize = if budget < n { budget } else { n };
        let mut indices: Vec<usize> = Vec::with_capacity(wanted);
        if n == 0 {
            return indices;
        }
        let base: usize = self.current_frame % n;
        let mut k: usize = 0;
        while k < wanted
            invariant
                n == self.frames@.len(),
                n > 0,
                wanted == render_set_len(n as nat, budget as nat),
                base == self.current_frame % n,
                base < n,
                k <= wanted,
                indices@.len() == k,
                forall|j: int|
                    0 <= j < k ==> #[trigger] indices@[j] == ring_place(
                        self.current_frame as int,
                        n as int,
                        j,
                    ),
                forall|j: int| 0 <= j < k ==> #[trigger] indices@[j] < n,
            decreases wanted - k,
        {
            proof {
                lemma_ring_from_remainder(
                    self.current_frame as int,
                    n as int,
                    ring_step(k as int),
                );
                lemma_ring_in_range(self.current_frame as int, n as int, k as int);
            }
            let place: usize = if k % 2 == 1 {
                forward(base, n, k / 2 + 1)
            } else {
                backward(base, n, k / 2)
            };
            indices.push(place);
            k = k + 1;
        }
        indices
    }

    /// The render set never holds more than the budget or the frame count, never
    /// names a frame twice, and never names one that is not there.
    pub proof fn law_render_set_is_a_set(self, budget: nat)
        ensures
            self.wanted_frames(budget).len() <= budget,
            self.wanted_frames(budget).len() <= self.frames@.len(),
            self.wanted_frames(budget).no_duplicates(),
            forall|k: int|
                0 <= k < self.wanted_frames(budget).len() ==> 0 <= #[trigger] self.wanted_frames(
                    budget,
                )[k] < self.frames@.len(),
    {
        let current = self.current_frame as int;
        let n = self.frames@.len() as int;
        let set = self.wanted_frames(budget);
        assert forall|j: int, k: int| 0 <= j < set.len() && 0 <= k < set.len() && j != k implies
            set[j] != set[k] by {
            if j < k {
                lemma_ring_distinct(current, n, j, k);
            } else {
                lemma_ring_distinct(current, n, k, j);
            }
        }
        assert forall|k: int| 0 <= k < set.len() implies 0 <= #[trigger] set[k]
            < self.frames@.len() by {
            lemma_ring_in_range(current, n, k);
        }
    }

    /// With room for one frame at least, the first frame wanted is the one on
    /// screen.
    pub proof fn law_render_set_starts_at_playhead(self, budget: nat)
        requires
            budget > 0,
            self.current_frame < self.frames@.len(),
        ensures
            self.wanted_frames(budget).len() > 0,
            self.wanted_frames(budget)[0] == self.current_frame,
    {
        vstd::arithmetic::div_mod::lemma_small_mod(
            self.current_frame as nat,
            self.frames@.len(),
        );
    }

    /// A budget for every frame wants every frame.
    pub proof fn law_render_set_covers_all(self, budget: nat, i: int)
        requires
            budget >= self.frames@.len(),
            0 <= i < self.frames@.len(),
        ensures
            self.wanted_frames(budget).contains(i),
    {
        let n = self.frames@.len();
        let set = self.wanted_frames(budget);
        self.law_render_set_is_a_set(budget);
        let all = vstd::set_lib::set_int_range(0, n as int);
        vstd::set_lib::lemma_int_range(0, n as int);
        set.unique_seq_to_set();
        let reached = set.to_set();
        assert(reached.subset_of(all));
        vstd::set_lib::lemma_subset_equality(reached, all);
        assert(all.contains(i));
        assert(reached.contains(i));
    }

    /// A smaller budget wants the beginning of what a larger one wants.
    pub proof fn law_render_set_grows_outward(self, small: nat, large: nat)
        requires
            small <= large,
        ensures
            self.wanted_frames(small).is_prefix_of(self.wanted_frames(large)),
    {
    }
}

/// Counting frame by frame from the front gives the whole count.
proof fn lemma_textured_push(frames: Seq<LoopFrame>, n: int)
    requires
        0 <= n < frames.len(),
    ensures
        textured(frames.take(n + 1)) == textured(frames.take(n)) + (if frames[n].image is Some {
            1nat
        } else {
            0nat
        }),
{
    assert(frames.take(n + 1).drop_last() =~= frames.take(n));
}

/// The count of textured frames is the size of the set of their indices.
proof fn lemma_textured_is_a_size(frames: Seq<LoopFrame>) -> (places: Set<int>)
    ensures
        places.finite(),
        places.len() == textured(frames),
        forall|i: int|
            #[trigger] places.contains(i) <==> 0 <= i < frames.len() && frames[i].image is Some,
    decreases frames.len(),
{
    if frames.len() == 0 {
        let none = Set::<int>::empty();
        none
    } else {
        let before = lemma_textured_is_a_size(frames.drop_last());
        let last = frames.len() - 1;
        assert(!before.contains(last));
        if frames.last().image is Some {
            before.insert(last)
        } else {
            before
        }
    }
}

/// How many frames have a picture.
fn count_textured(frames: &Vec<LoopFrame>) -> (r: usize)
    ensures
        r == textured(frames@),
{
    let mut count: usize = 0;
    let mut i: usize = 0;
    while i < frames.len()
        invariant
            i <= frames@.len(),
            count <= i,
            count == textured(frames@.take(i as int)),
        decreases frames@.len() - i,
    {
        proof {
            lemma_textured_push(frames@, i as int);
        }
        if frames[i].image.is_some() {
            count = count + 1;
        }
        i = i + 1;
    }
    assert(frames@.take(i as int) =~= frames@);
    count
}

/// Whether `idx` is among `indices`.
fn holds_index(indices: &Vec<usize>, idx: usize) -> (r: bool)
    ensures
        r == indices@.contains(idx),
{
    let mut i: usize = 0;
    while i < indices.len()
        invariant
            i <= indices@.len(),
            forall|k: int| 0 <= k < i ==> indices@[k] != idx,
        decreases indices@.len() - i,
    {
        if indices[i] == idx {
            return true;
        }
        i = i + 1;
    }
    false
}

impl LoopPlaybackState {
    /// The frames after eviction: with no more than `budget` pictures nothing
    /// goes, and otherwise every picture outside the render set does.
    pub open spec fn evicted(self, budget: nat) -> Seq<LoopFrame> {
        if textured(self.frames@) <= budget {
            self.frames@
        } else {
            Seq::new(
                self.frames@.len(),
                |i: int|
                    if self.wanted_frames(budget).contains(i) {
                        self.frames@[i]
                    } else {
                        self.frames@[i].untextured()
                    },
            )
        }
    }

    /// Drop pictures outside the render set once more than `budget` frames have
    /// one.
    pub fn evict_textures_outside_render_set(&mut self, budget: usize)
        ensures
            final(self).frames@ =~= old(self).evicted(budget as nat),
            *final(self) == (LoopPlaybackState { frames: final(self).frames, ..*old(self) }),
    {
        if count_textured(&self.frames) <= budget {
            return;
        }
        let keep: Vec<usize> = self.render_set_indices(budget);
        let ghost wanted = self.wanted_frames(budget as nat);
        let mut i: usize = 0;
        while i < self.frames.len()
            invariant
                i <= self.frames@.len(),
                self.frames@.len() == old(self).frames@.len(),
                keep@.map_values(|k: usize| k as int) =~= wanted,
                forall|k: int|
                    0 <= k < i ==> #[trigger] self.frames@[k] == if wanted.contains(k) {
                        old(self).frames@[k]
                    } else {
                        old(self).frames@[k].untextured()
                    },
                forall|k: int|
                    i <= k < self.frames@.len() ==> #[trigger] self.frames@[k] == old(
                        self,
                    ).frames@[k],
                *self == (LoopPlaybackState { frames: self.frames, ..*old(self) }),
            decreases self.frames@.len() - i,
        {
            let kept: bool = holds_index(&keep, i);
            proof {
                let as_ints = keep@.map_values(|k: usize| k as int);
                if keep@.contains(i) {
                    let at = choose|k: int| 0 <= k < keep@.len() && keep@[k] == i;
                    assert(as_ints[at] == i);
                }
                if wanted.contains(i as int) {
                    let at = choose|k: int| 0 <= k < wanted.len() && wanted[k] == i;
                    assert(as_ints[at] == i);
                    assert(keep@[at] == i);
                }
            }
            if !kept {
                self.frames[i].image = None;
            }
            i = i + 1;
        }
    }

    /// Eviction brings the number of pictures down to the budget.
    pub proof fn law_eviction_meets_budget(self, budget: nat)
        ensures
            textured(self.evicted(budget)) <= budget,
    {
        if textured(self.frames@) > budget {
            let places = lemma_textured_is_a_size(self.evicted(budget));
            let wanted = self.wanted_frames(budget).to_set();
            vstd::seq_lib::seq_to_set_is_finite(self.wanted_frames(budget));
            self.wanted_frames(budget).lemma_cardinality_of_set();
            assert(places.subset_of(wanted));
            vstd::set_lib::lemma_len_subset(places, wanted);
        }
    }

    /// Eviction never drops a picture of the render set, so it never undoes what
    /// the dispatcher renders.
    pub proof fn law_eviction_spares_render_set(self, budget: nat, i: int)
        requires
            0 <= i < self.frames@.len(),
            self.wanted_frames(budget).contains(i),
        ensures
            self.evicted(budget)[i] == self.frames@[i],
    {
    }

    /// Whether nothing more is coming for frame `i`: it has a picture, or no
    /// render is under way and there is either nothing to make or nothing to
    /// make it from.
    pub open spec fn frame_settled(self, i: int, scan_available: bool) -> bool {
        let frame = self.frames@[i];
        frame.image is Some || (!frame.render_in_flight && (frame.render_failed
            || !scan_available))
    }

    /// True when no frame in the intended render set is still waiting on a
    /// picture. `scan_available` says whether a frame's scan has been
    /// downloaded.
    pub fn render_set_settled<F: Fn(&LoopFrame) -> bool>(
        &self,
        budget: usize,
        scan_available: F,
    ) -> (r: bool)
        requires
            forall|frame: &LoopFrame| call_requires(scan_available, (frame,)),
        ensures
            r ==> forall|k: int|
                0 <= k < self.wanted_frames(budget as nat).len() ==> {
                    let i = #[trigger] self.wanted_frames(budget as nat)[k];
                    self.frame_settled(i, true) || (call_ensures(
                        scan_available,
                        (&self.frames@[i],),
                        false,
                    ) && self.frame_settled(i, false))
                },
            !r ==> exists|k: int|
                0 <= k < self.wanted_frames(budget as nat).len() && {
                    let i = #[trigger] self.wanted_frames(budget as nat)[k];
                    !self.frame_settled(i, false) || (call_ensures(
                        scan_available,
                        (&self.frames@[i],),
                        true,
                    ) && !self.frame_settled(i, true))
                },
    {
        let wanted: Vec<usize> = self.render_set_indices(budget);
        let ghost set = self.wanted_frames(budget as nat);
        let mut k: usize = 0;
        while k < wanted.len()
            invariant
                k <= wanted@.len(),
                set == self.wanted_frames(budget as nat),
                wanted@.map_values(|i: usize| i as int) =~= set,
                forall|j: int| 0 <= j < wanted@.len() ==> #[trigger] wanted@[j] < self.frames@.len(),
                forall|frame: &LoopFrame| call_requires(scan_available, (frame,)),
                forall|j: int|
                    0 <= j < k ==> {
                        let i = #[trigger] set[j];
                        self.frame_settled(i, true) || (call_ensures(
                            scan_available,
                            (&self.frames@[i],),
                            false,
                        ) && self.frame_settled(i, false))
                    },
            decreases wanted@.len() - k,
        {
            let i: usize = wanted[k];
            let frame: &LoopFrame = &self.frames[i];
            assert(wanted@.map_values(|i: usize| i as int)[k as int] == i);
            assert(set[k as int] == i);
            if frame.image.is_none() {
                if frame.render_in_flight {
                    assert(!self.frame_settled(set[k as int], false));
                    return false;
                }
                if !frame.render_failed {
                    let available: bool = scan_available(frame);
                    if available {
                        assert(!self.frame_settled(set[k as int], true));
                        return false;
                    }
                }
            }
            k = k + 1;
        }
        true
    }
}

/// A loop in another view than the picture's takes it from no path and gives it
/// to none: no target and no key makes one loop trade in both plan views and
/// sections.
pub proof fn law_views_do_not_mix(
    state: LoopPlaybackState,
    target: RenderTarget,
    other: RenderTarget,
    key: SectionLoopKey,
)
    ensures
        !(state.trades_plan_views(target) && state.trades_sections(other, key)),
{
}

/// A loop that is off takes nothing and gives nothing.
pub proof fn law_inactive_loop_trades_nothing(
    state: LoopPlaybackState,
    target: RenderTarget,
    key: SectionLoopKey,
)
    requires
        !state.active(),
    ensures
        !state.trades_plan_views(target),
        !state.trades_sections(target, key),
{
}

/// A donor and a receiver weigh the same target: what one loop may hand to a
/// second under the second's key, the second may take under the first's.
pub proof fn law_donor_and_receiver_agree(donor: LoopPlaybackState, receiver: LoopPlaybackState)
    requires
        donor.rendered_for is Some,
        receiver.rendered_for is Some,
        donor.active(),
        receiver.active(),
        donor.view == RenderView::PlanView,
        receiver.view == RenderView::PlanView,
    ensures
        donor.trades_plan_views(receiver.rendered_for->0) == receiver.trades_plan_views(
            donor.rendered_for->0,
        ),
{
}

/// Wherever a loop is pointed, its key says so afterwards, under every key: its
/// own site, the product, the view's half and, except for a volume, the angle to
/// within a hundredth of a degree. What the loop is doing, and when its frames
/// are from, stays.
pub proof fn law_retarget_names_what_was_asked(
    before: LoopPlaybackState,
    after: LoopPlaybackState,
    product: RadarProduct,
    elevation: Measure,
    key: Option<LoopViewKey>,
)
    requires
        before.retargeted(after, product, elevation, key),
    ensures
        after.rendered_for is Some,
        after.rendered_for->0.site@ == before.site@,
        after.rendered_for->0.product == product,
        after.view_key == key,
        !(key matches Some(LoopViewKey::Volume(_))) ==> {
            ||| after.rendered_for->0.elevation == elevation
            ||| after.rendered_for->0.elevation matches Measure::Micro(a) && elevation
                matches Measure::Micro(b) && a - b <= 10_000 && b - a <= 10_000
        },
        after.site == before.site,
        after.site_lat == before.site_lat,
        after.site_lon == before.site_lon,
        after.phase == before.phase,
        after.current_frame == before.current_frame,
        after.last_advance == before.last_advance,
        after.lookback_secs == before.lookback_secs,
        after.view == before.view,
        after.frames@.len() == before.frames@.len(),
        forall|i: int|
            0 <= i < before.frames@.len() ==> (#[trigger] after.frames@[i]).timestamp
                == before.frames@[i].timestamp,
{
}

/// Pointing a loop elsewhere keeps no picture of where it was pointed before, and
/// no render of it: not for another site, product, line, region or motion, nor,
/// except for a volume, for an angle more than a hundredth of a degree away.
/// Pointing it where it already is keeps them all, and so does the first time a
/// loop is pointed anywhere.
pub proof fn law_retarget_keeps_no_picture_out_of_place(
    before: LoopPlaybackState,
    after: LoopPlaybackState,
    product: RadarProduct,
    elevation: Measure,
    key: Option<LoopViewKey>,
    i: int,
)
    requires
        before.retargeted(after, product, elevation, key),
        0 <= i < before.frames@.len(),
    ensures
        before.rendered_for is None ==> after.frames@[i] == before.frames@[i]
            && !before.already_at(product, elevation, key),
        before.rendered_for matches Some(old) ==> {
            let far = match (old.elevation, elevation) {
                (Measure::Micro(a), Measure::Micro(b)) => a - b > 10_000 || b - a > 10_000,
                _ => true,
            };
            let all_tilts = key matches Some(LoopViewKey::Volume(_));
            if old.site@ != before.site@ || old.product != product || before.view_key != key || (far
                && !all_tilts) {
                &&& after.frames@[i].image is None
                &&& !after.frames@[i].render_in_flight
                &&& !after.frames@[i].render_failed
                &&& !before.already_at(product, elevation, key)
            } else {
                &&& after.frames@[i] == before.frames@[i]
                &&& before.already_at(product, elevation, key)
            }
        },
{
}

/// A picture on a frame is always one that the key names: what survives a
/// retarget was made for the site, the product and the view's half that the loop
/// is pointed at now.
pub proof fn law_surviving_pictures_fit_the_key(
    before: LoopPlaybackState,
    after: LoopPlaybackState,
    product: RadarProduct,
    elevation: Measure,
    key: Option<LoopViewKey>,
    i: int,
)
    requires
        before.retargeted(after, product, elevation, key),
        before.rendered_for is Some,
        0 <= i < after.frames@.len(),
        after.frames@[i].image is Some,
    ensures
        before.rendered_for->0.product == product,
        before.rendered_for->0.site@ == before.site@,
        before.view_key == key,
        after.frames@[i].image == before.frames@[i].image,
{
}

/// Pointing a loop at one thing and then at another is pointing it at the other:
/// no trace of the first is left in the key, nor a picture of it on a frame.
pub proof fn law_last_retarget_decides(
    before: LoopPlaybackState,
    first: LoopPlaybackState,
    second: LoopPlaybackState,
    product: RadarProduct,
    other: RadarProduct,
    elevation: Measure,
    key: Option<LoopViewKey>,
)
    requires
        before.retargeted(first, product, elevation, key),
        first.retargeted(second, other, elevation, key),
        product != other,
    ensures
        second.rendered_for is Some,
        second.rendered_for->0.product == other,
        forall|i: int|
            0 <= i < before.frames@.len() ==> (#[trigger] second.frames@[i]).image is None,
{
}

/// The walk goes outward, forward first: with room for `2 * d` frames besides the
/// one on screen, the frames `d` steps ahead of it and `d` steps behind it are
/// wanted, in this order, counted round the ring.
pub proof fn law_render_set_walks_both_ways(state: LoopPlaybackState, budget: nat, d: int)
    requires
        d >= 1,
        state.current_frame < state.frames@.len(),
    ensures
        ({
            let n = state.frames@.len() as int;
            let set = state.wanted_frames(budget);
            &&& 2 * d - 1 < set.len() ==> exists|turns: int|
                set[2 * d - 1] == state.current_frame + d + #[trigger] (turns * n)
            &&& 2 * d < set.len() ==> exists|turns: int|
                set[2 * d] == state.current_frame - d + #[trigger] (turns * n)
        }),
{
    let n = state.frames@.len() as int;
    let c = state.current_frame as int;
    let set = state.wanted_frames(budget);
    lemma_ring_place_turns(c, n, 2 * d - 1);
    lemma_ring_place_turns(c, n, 2 * d);
    assert((2 * d - 1) % 2 == 1 && (2 * d - 1 + 1) / 2 == d);
    assert((2 * d) % 2 == 0 && (2 * d) / 2 == d);
}

proof fn lemma_ring_place_turns(current: int, n: int, k: int)
    requires
        n > 0,
        k >= 0,
    ensures
        exists|turns: int|
            ring_place(current, n, k) == current + ring_step(k) + #[trigger] (turns * n),
{
    let sum = current + ring_step(k);
    vstd::arithmetic::div_mod::lemma_fundamental_div_mod(sum, n);
    let turns = -(sum / n);
    assert(turns * n == -(n * (sum / n))) by (nonlinear_arith)
        requires
            turns == -(sum / n),
    ;
    assert(ring_place(current, n, k) == sum + turns * n);
}

/// As many frames are wanted as the budget and the loop allow.
pub proof fn law_render_set_uses_the_budget(state: LoopPlaybackState, budget: nat)
    ensures
        budget <= state.frames@.len() ==> state.wanted_frames(budget).len() == budget,
        budget >= state.frames@.len() ==> state.wanted_frames(budget).len() == state.frames@.len(),
{
}

/// Eviction takes pictures and nothing else, takes none while the budget holds
/// them all, and otherwise leaves none outside the render set.
pub proof fn law_eviction_takes_only_pictures(state: LoopPlaybackState, budget: nat, i: int)
    requires
        0 <= i < state.frames@.len(),
    ensures
        ({
            let after = state.evicted(budget);
            let before = state.frames@;
            &&& after.len() == before.len()
            &&& after[i].timestamp == before[i].timestamp
            &&& after[i].render_in_flight == before[i].render_in_flight
            &&& after[i].render_failed == before[i].render_failed
            &&& after[i].image is Some ==> after[i].image == before[i].image
            &&& before.len() <= budget ==> after[i] == before[i]
            &&& textured(before) <= budget ==> after == before
            &&& textured(before) > budget && !state.wanted_frames(budget).contains(i)
                ==> after[i].image is None
        }),
{
    if state.frames@.len() <= budget {
        let places = lemma_textured_is_a_size(state.frames@);
        let all = vstd::set_lib::set_int_range(0, state.frames@.len() as int);
        vstd::set_lib::lemma_int_range(0, state.frames@.len() as int);
        assert(places.subset_of(all));
        vstd::set_lib::lemma_len_subset(places, all);
    }
}

/// The number of textured frames is the number of frames with a picture: one
/// more frame adds one where it has a picture, and nothing where it has none.
pub proof fn law_textured_counts_pictures(frames: Seq<LoopFrame>, frame: LoopFrame)
    ensures
        textured(Seq::<LoopFrame>::empty()) == 0,
        frame.image is Some ==> textured(frames.push(frame)) == textured(frames) + 1,
        frame.image is None ==> textured(frames.push(frame)) == textured(frames),
{
    assert(frames.push(frame).drop_last() =~= frames);
}

/// A frame with a picture is settled, one whose render is under way and not yet
/// on screen is not, and otherwise a frame waits exactly while there is a scan to
/// render and no render of it has failed.
pub proof fn law_frames_settle(state: LoopPlaybackState, i: int, scan_available: bool)
    ensures
        state.frames@[i].image is Some ==> state.frame_settled(i, scan_available),
        state.frames@[i].image is None && state.frames@[i].render_in_flight
            ==> !state.frame_settled(i, scan_available),
        state.frames@[i].image is None && !state.frames@[i].render_in_flight ==> (
        state.frame_settled(i, scan_available) <==> state.frames@[i].render_failed
            || !scan_available),
{
}

/// A result lands on the earliest frame of its own moment that awaits one, and is
/// dropped only where none does.
pub proof fn law_result_lands_where_it_is_awaited(
    frames: Seq<LoopFrame>,
    timestamp: Stamp,
    found: Option<usize>,
    k: int,
)
    requires
        first_suiting(frames, FrameWanted::InFlight, timestamp, found),
        0 <= k < frames.len(),
    ensures
        found matches Some(i) ==> i < frames.len() && frames[i as int].timestamp == timestamp
            && frames[i as int].render_in_flight,
        frames[k].timestamp == timestamp && frames[k].render_in_flight ==> found is Some
            && found->0 <= k,
{
}

/// A picture from elsewhere lands on the earliest frame of its own moment that has
/// none.
pub proof fn law_gap_is_filled_first(
    frames: Seq<LoopFrame>,
    timestamp: Stamp,
    found: Option<usize>,
    k: int,
)
    requires
        first_suiting(frames, FrameWanted::Blank, timestamp, found),
        0 <= k < frames.len(),
    ensures
        found matches Some(i) ==> i < frames.len() && frames[i as int].timestamp == timestamp
            && frames[i as int].image is None,
        frames[k].timestamp == timestamp && frames[k].image is None ==> found is Some && found->0
            <= k,
{
}

/// A plan view is lent from the earliest frame of the moment asked for that has
/// one.
pub proof fn law_plan_view_is_lent(
    frames: Seq<LoopFrame>,
    timestamp: Stamp,
    found: Option<usize>,
    k: int,
)
    requires
        first_suiting(frames, FrameWanted::PlanView, timestamp, found),
        0 <= k < frames.len(),
    ensures
        found matches Some(i) ==> i < frames.len() && frames[i as int].timestamp == timestamp
            && frames[i as int].image is Some && frames[i as int].image->0 is PlanView,
        frames[k].timestamp == timestamp && frames[k].image is Some && frames[k].image->0
            is PlanView ==> found is Some && found->0 <= k,
{
}

/// A section is lent from the earliest frame of the moment asked for that was cut
/// from the ladder asked for.
pub proof fn law_section_is_lent(
    frames: Seq<LoopFrame>,
    timestamp: Stamp,
    ladder: u64,
    found: Option<usize>,
    k: int,
)
    requires
        first_suiting(frames, FrameWanted::SectionOf(ladder), timestamp, found),
        0 <= k < frames.len(),
    ensures
        found matches Some(i) ==> i < frames.len() && frames[i as int].timestamp == timestamp
            && frames[i as int].image is Some && frames[i as int].image->0 is Section
            && frames[i as int].image->0->Section_0.ladder == ladder,
        frames[k].timestamp == timestamp && frames[k].image is Some && frames[k].image->0 is Section
            && frames[k].image->0->Section_0.ladder == ladder ==> found is Some && found->0 <= k,
{
}

/// A loop trades plan views of exactly what it is showing: it is running, it is a
/// plan-view loop, and its frames are of that site and product at that angle, to
/// within a hundredth of a degree.
pub proof fn law_plan_views_are_traded_for_one_picture(
    state: LoopPlaybackState,
    target: RenderTarget,
)
    ensures
        state.trades_plan_views(target) <==> {
            &&& state.view == RenderView::PlanView
            &&& state.phase != LoopPhase::Inactive
            &&& state.rendered_for matches Some(own) && own.site@ == target.site@ && own.product
                == target.product && (own.elevation matches Measure::Micro(a) && target.elevation
                matches Measure::Micro(b) && a - b <= 10_000 && b - a <= 10_000)
        },
{
}

/// A loop trades sections of exactly what it is cutting: it is running, it is a
/// section loop, its frames are of that site, product and angle, and they are cut
/// along that line for that motion.
pub proof fn law_sections_are_traded_for_one_cut(
    state: LoopPlaybackState,
    target: RenderTarget,
    key: SectionLoopKey,
)
    ensures
        state.trades_sections(target, key) <==> {
            &&& state.view == RenderView::CrossSection
            &&& state.phase != LoopPhase::Inactive
            &&& state.rendered_for matches Some(own) && own.site@ == target.site@ && own.product
                == target.product && (own.elevation matches Measure::Micro(a) && target.elevation
                matches Measure::Micro(b) && a - b <= 10_000 && b - a <= 10_000)
            &&& state.view_key matches Some(LoopViewKey::Section(own)) && own.line == key.line
                && own.storm_motion == key.storm_motion
        },
{
}

/// A loop that has been pointed at something trades in that and, the moment it is
/// pointed at another product, no longer in it.
pub proof fn law_trade_follows_the_retarget(
    before: LoopPlaybackState,
    after: LoopPlaybackState,
    product: RadarProduct,
    elevation: Measure,
    target: RenderTarget,
)
    requires
        before.retargeted(after, product, elevation, None),
        before.view == RenderView::PlanView,
        before.phase != LoopPhase::Inactive,
    ensures
        target.product != product ==> !after.trades_plan_views(target),
        target.site@ != before.site@ ==> !after.trades_plan_views(target),
        elevation is Micro && after.rendered_for is Some ==> after.trades_plan_views(
            after.rendered_for->0,
        ),
{
}
/// A finished plan view lands on the earliest frame of its moment that awaits one, in a
/// running plan-view loop of its own site and product, and in no other.
pub proof fn law_plan_view_lands_only_where_it_belongs(
    state: LoopPlaybackState,
    timestamp: Stamp,
    target: RenderTarget,
    found: Option<usize>,
    k: int,
)
    requires
        state.awaits_plan_view(timestamp, target, found),
        0 <= k < state.frames@.len(),
    ensures
        found matches Some(i) ==> {
            &&& i < state.frames@.len()
            &&& state.frames@[i as int].timestamp == timestamp
            &&& state.frames@[i as int].render_in_flight
            &&& state.phase != LoopPhase::Inactive
            &&& state.rendered_for is Some
            &&& state.rendered_for->0.site@ == target.site@
            &&& state.rendered_for->0.product == target.product
            &&& state.view == RenderView::PlanView
        },
        ({
            let frame = state.frames@[k];
            state.trades_plan_views(target) && frame.timestamp == timestamp
                && frame.render_in_flight ==> found is Some && found->0 <= k
        }),
{
}

/// Another pane's plan view fills the earliest gap of its moment, in a running plan-view
/// loop of its own site and product whose own sweep is the one depicted.
pub proof fn law_borrowed_plan_view_fills_a_gap(
    state: LoopPlaybackState,
    timestamp: Stamp,
    target: RenderTarget,
    sweep: BroadcastSweep,
    found: Option<usize>,
    k: int,
)
    requires
        state.takes_plan_view(timestamp, target, sweep, found),
        0 <= k < state.frames@.len(),
    ensures
        found matches Some(i) ==> {
            &&& i < state.frames@.len()
            &&& state.frames@[i as int].timestamp == timestamp
            &&& state.frames@[i as int].image is None
            &&& state.phase != LoopPhase::Inactive
            &&& state.rendered_for is Some
            &&& state.rendered_for->0.site@ == target.site@
            &&& state.rendered_for->0.product == target.product
            &&& state.view == RenderView::PlanView
            &&& sweep.own is Some
        },
        ({
            let frame = state.frames@[k];
            state.trades_plan_views(target) && sweep.agreeing() && frame.timestamp == timestamp
                && frame.image is None ==> found is Some && found->0 <= k
        }),
{
}

/// A plan view is given from the earliest frame of its moment that has one, in a running
/// plan-view loop of that site and product.
pub proof fn law_plan_view_is_given_from_its_own_loop(
    state: LoopPlaybackState,
    timestamp: Stamp,
    target: RenderTarget,
    found: Option<usize>,
    k: int,
)
    requires
        state.gives_plan_view(timestamp, target, found),
        0 <= k < state.frames@.len(),
    ensures
        found matches Some(i) ==> {
            &&& i < state.frames@.len()
            &&& state.frames@[i as int].timestamp == timestamp
            &&& state.frames@[i as int].image is Some
            &&& state.frames@[i as int].image->0 is PlanView
            &&& state.phase != LoopPhase::Inactive
            &&& state.rendered_for is Some
            &&& state.rendered_for->0.site@ == target.site@
            &&& state.rendered_for->0.product == target.product
            &&& state.view == RenderView::PlanView
        },
        ({
            let frame = state.frames@[k];
            state.trades_plan_views(target) && frame.timestamp == timestamp
                && frame.image is Some && frame.image->0 is PlanView ==> found is Some && found->0
                <= k
        }),
{
}

/// A finished section lands on the earliest frame of its moment that awaits one, in a
/// running section loop of its own site, product, line and motion.
pub proof fn law_section_lands_only_where_it_belongs(
    state: LoopPlaybackState,
    timestamp: Stamp,
    target: RenderTarget,
    key: SectionLoopKey,
    found: Option<usize>,
    k: int,
)
    requires
        state.awaits_section(timestamp, target, key, found),
        0 <= k < state.frames@.len(),
    ensures
        found matches Some(i) ==> {
            &&& i < state.frames@.len()
            &&& state.frames@[i as int].timestamp == timestamp
            &&& state.frames@[i as int].render_in_flight
            &&& state.phase != LoopPhase::Inactive
            &&& state.rendered_for is Some
            &&& state.rendered_for->0.site@ == target.site@
            &&& state.rendered_for->0.product == target.product
            &&& state.view == RenderView::CrossSection
            &&& state.view_key == Some(LoopViewKey::Section(key))
        },
        ({
            let frame = state.frames@[k];
            state.trades_sections(target, key) && frame.timestamp == timestamp
                && frame.render_in_flight ==> found is Some && found->0 <= k
        }),
{
}

/// Another pane's section fills the earliest gap of its moment, in a running section loop
/// of its own site, product, line and motion that would cut from the same ladder.
pub proof fn law_borrowed_section_fills_a_gap(
    state: LoopPlaybackState,
    timestamp: Stamp,
    target: RenderTarget,
    key: SectionLoopKey,
    ladder: u64,
    own_ladder: Option<u64>,
    found: Option<usize>,
    k: int,
)
    requires
        state.takes_section(timestamp, target, key, ladder, own_ladder, found),
        0 <= k < state.frames@.len(),
    ensures
        found matches Some(i) ==> {
            &&& i < state.frames@.len()
            &&& state.frames@[i as int].timestamp == timestamp
            &&& state.frames@[i as int].image is None
            &&& state.phase != LoopPhase::Inactive
            &&& state.rendered_for is Some
            &&& state.rendered_for->0.site@ == target.site@
            &&& state.rendered_for->0.product == target.product
            &&& state.view == RenderView::CrossSection
            &&& state.view_key == Some(LoopViewKey::Section(key))
            &&& own_ladder == Some(ladder)
        },
        ({
            let frame = state.frames@[k];
            state.trades_sections(target, key) && own_ladder == Some(ladder) && frame.timestamp
                == timestamp && frame.image is None ==> found is Some && found->0 <= k
        }),
{
}

/// A section is given from the earliest frame of its moment that was cut from the ladder
/// wanted, in a running section loop of that site, product, line and motion.
pub proof fn law_section_is_given_from_its_own_loop(
    state: LoopPlaybackState,
    timestamp: Stamp,
    target: RenderTarget,
    key: SectionLoopKey,
    ladder: u64,
    found: Option<usize>,
    k: int,
)
    requires
        state.gives_section(timestamp, target, key, ladder, found),
        0 <= k < state.frames@.len(),
    ensures
        found matches Some(i) ==> {
            &&& i < state.frames@.len()
            &&& state.frames@[i as int].timestamp == timestamp
            &&& state.frames@[i as int].image is Some
            &&& state.frames@[i as int].image->0 is Section
            &&& state.frames@[i as int].image->0->Section_0.ladder == ladder
            &&& state.phase != LoopPhase::Inactive
            &&& state.rendered_for is Some
            &&& state.rendered_for->0.site@ == target.site@
            &&& state.rendered_for->0.product == target.product
            &&& state.view == RenderView::CrossSection
            &&& state.view_key == Some(LoopViewKey::Section(key))
        },
        ({
            let frame = state.frames@[k];
            state.trades_sections(target, key) && frame.timestamp == timestamp
                && frame.image is Some && frame.image->0 is Section
                && frame.image->0->Section_0.ladder == ladder ==> found is Some && found->0 <= k
        }),
{
}

/// A loop can be played once its frames have rendered, and has been once it plays or was
/// paused; while it lists scans or renders it can be neither, and off it is nothing.
pub proof fn law_phases_follow_each_other(state: LoopPlaybackState)
    ensures
        state.playback_started() ==> state.render_ready(),
        state.render_ready() ==> state.active(),
        state.render_ready() && !state.playback_started() <==> state.phase == LoopPhase::Ready,
        state.phase == LoopPhase::FetchingScanList || state.phase == LoopPhase::Rendering
            ==> state.active() && !state.render_ready(),
        state.phase == LoopPhase::Inactive <==> !state.active(),
        state.phase == LoopPhase::Playing || state.phase == LoopPhase::Paused
            ==> state.playback_started(),
{
}

/// A pane that is not looping has no frame, no key and nothing to play.
pub proof fn law_fresh_loop_is_empty(state: LoopPlaybackState)
    requires
        state.is_fresh(),
    ensures
        !state.active(),
        state.frames@.len() == 0,
        state.rendered_for is None,
        state.view_key is None,
        state.last_advance is None,
{
}

/// A frame that is lent is the earliest that suits, and lending it changes no other frame
/// and nothing else of the loop.
pub proof fn law_lending_changes_one_frame(
    before: LoopPlaybackState,
    after: LoopPlaybackState,
    wanted: FrameWanted,
    timestamp: Stamp,
    lent: LoopFrame,
    returned: LoopFrame,
)
    requires
        lends(before, after, wanted, timestamp, lent, returned),
    ensures
        lent.timestamp == timestamp,
        before.frames@.contains(lent),
        after.frames@.contains(returned),
        after.frames@.len() == before.frames@.len(),
        exists|i: int|
            {
                &&& 0 <= i < before.frames@.len()
                &&& #[trigger] before.frames@[i] == lent
                &&& after.frames@[i] == returned
                &&& forall|k: int|
                    0 <= k < before.frames@.len() && k != i ==> #[trigger] after.frames@[k]
                        == before.frames@[k]
            },
        after.phase == before.phase,
        after.current_frame == before.current_frame,
        after.rendered_for == before.rendered_for,
        after.view_key == before.view_key,
{
    let i = choose|i: usize|
        {
            &&& #[trigger] first_suiting(before.frames@, wanted, timestamp, Some(i))
            &&& lent == before.frames@[i as int]
            &&& after.frames@ == before.frames@.update(i as int, returned)
        };
    assert(before.frames@[i as int] == lent);
    assert(after.frames@[i as int] == returned);
}

/// A section loop is keyed to the line and the motion it was pointed at, and a new line or
/// motion leaves no picture of an earlier one.
pub proof fn law_new_line_leaves_no_old_cut(
    before: LoopPlaybackState,
    after: LoopPlaybackState,
    product: RadarProduct,
    elevation: Measure,
    section: Option<SectionLoopKey>,
    i: int,
)
    requires
        before.retargeted_along(after, product, elevation, section),
        0 <= i < before.frames@.len(),
    ensures
        section is Some ==> after.view_key == Some(LoopViewKey::Section(section->0)),
        section is None ==> after.view_key is None,
        after.rendered_for is Some && after.rendered_for->0.product == product,
        before.rendered_for is Some && section is Some && before.view_key != Some(
            LoopViewKey::Section(section->0),
        ) ==> after.frames@[i].image is None,
        before.rendered_for is Some && before.rendered_for->0.product != product
            ==> after.frames@[i].image is None,
{
}

} // verus!
