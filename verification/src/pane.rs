//! One pane: what it looks at and how it shows it.

use vstd::prelude::*;
use crate::content::{CrossSectionPane, PaneContent, VolumePane};
use crate::frames::{
    LoopFrameImage, RadarImageData, SectionImageData, VolumeFrameGrid, ELEVATION_TOLERANCE,
};
use crate::kinds::{PaneKind, RadarProduct};
use crate::loop_state::LoopPlaybackState;
use crate::measure::{distance, Measure};
use crate::overlays::{all_overlays, ConfigMap, EnabledMap, LayerSetting, OverlayKind};
use crate::scan::ScanInfo;
use crate::stamp::Stamp;
use crate::table::Table;
use crate::viewport::Viewport;

verus! {

/// The zoom a pane starts at, in millionths of a level.
pub const DEFAULT_PANE_ZOOM: i64 = 4_000_000;

/// The step a pane starts with, in seconds.
pub const DEFAULT_TIME_STEP_SECS: i64 = 600;

/// What a radar texture depicts.
#[derive(Clone, Copy, Debug, PartialEq, Eq, Structural)]
pub struct RadarTextureMeta {
    pub product: RadarProduct,
    /// The sweep that was drawn, in degrees.
    pub elevation: Measure,
}

/// A finished layer texture.
pub struct OverlayTexture {
    pub texture: egui::TextureHandle,
    /// What it depicts, for a radar layer.
    pub radar_meta: Option<RadarTextureMeta>,
}

/// The background-rendered texture of one layer.
pub struct OverlayTextureCache {
    pub current: Option<OverlayTexture>,
    pub render_in_flight: bool,
}

impl OverlayTextureCache {
    /// A cache that holds nothing and waits for nothing.
    pub open spec fn is_empty(self) -> bool {
        self == (OverlayTextureCache { current: None, render_in_flight: false })
    }

    pub fn new() -> (r: Self)
        ensures
            r.is_empty(),
    {
        OverlayTextureCache { current: None, render_in_flight: false }
    }
}

/// The textures of a pane's layers.
pub type TextureMap = Table<OverlayKind, OverlayTextureCache>;

/// Whether every layer has an empty cache.
pub open spec fn all_caches_empty(caches: Map<OverlayKind, OverlayTextureCache>) -> bool {
    forall|k: OverlayKind| #[trigger] caches.contains_key(k) && caches[k].is_empty()
}

/// An empty cache for every layer.
fn empty_caches() -> (r: TextureMap)
    ensures
        all_caches_empty(r@),
{
    let kinds: Vec<OverlayKind> = OverlayKind::all();
    let mut r: TextureMap = Table::new();
    let mut i: usize = 0;
    while i < kinds.len()
        invariant
            i <= kinds@.len(),
            kinds@ == all_overlays(),
            forall|k: int| 0 <= k < i ==> #[trigger] r@.contains_key(kinds@[k]),
            forall|k: OverlayKind| #[trigger] r@.contains_key(k) ==> r@[k].is_empty(),
        decreases kinds@.len() - i,
    {
        r.insert(kinds[i], OverlayTextureCache::new());
        i = i + 1;
    }
    proof {
        assert forall|k: OverlayKind| #[trigger] r@.contains_key(k) by {
            k.law_all_is_complete();
            assert(r@.contains_key(kinds@[k.place()]));
        }
        assert(all_caches_empty(r@));
    }
    r
}

/// Per-pane state. Every field is the same for a pane of any kind except
/// `content`, and only `content` differs by kind.
pub struct PaneState {
    /// The code of the site this pane is viewing.
    pub site: String,
    /// Product and tilt metadata for this pane's site.
    pub scan_info: Option<ScanInfo>,
    /// When the data behind the static radar image was collected.
    pub data_time: Option<Stamp>,
    pub selected_product: RadarProduct,
    /// Degrees.
    pub selected_elevation: Measure,
    /// Whether this pane is viewing the latest data.
    pub viewing_live: bool,
    /// Time navigation step in seconds; zero steps scan by scan.
    pub time_step_secs: i64,
    /// Whether this pane follows shared time.
    pub time_link: bool,
    /// Whether this pane's viewport belongs to the linked group.
    pub viewport_link: bool,
    /// Whether this pane's layers belong to the linked group.
    pub layer_link: bool,
    pub hover_value: Option<String>,
    pub overlay_hover_value: Option<String>,
    pub viewport: Viewport,
    pub overlay_textures: TextureMap,
    /// The stacking of the layers, bottom to top.
    pub draw_order: Vec<OverlayKind>,
    /// Which layers are on. A layer without an entry is off.
    pub enabled_overlays: EnabledMap,
    /// Each layer's own settings.
    pub overlay_configs: ConfigMap,
    pub loop_state: LoopPlaybackState,
    /// The site being loaded for this pane.
    pub loading_site: Option<String>,
    /// Bumped when the site markers have to be drawn anew.
    pub radar_sites_render_gen: u64,
    /// What kind of pane this is, and the state that kind needs.
    pub content: PaneContent,
}

/// Whether `angle` is the tilt of `list` nearest to `selection`, the first of
/// them where several are equally near.
pub open spec fn is_nearest(list: Seq<i64>, selection: int, angle: int) -> bool {
    exists|i: int|
        {
            &&& 0 <= i < list.len()
            &&& #[trigger] list[i] == angle
            &&& forall|j: int|
                0 <= j < list.len() ==> distance(angle, selection) <= distance(
                    #[trigger] list[j] as int,
                    selection,
                )
            &&& forall|j: int|
                0 <= j < i ==> distance(angle, selection) < distance(
                    #[trigger] list[j] as int,
                    selection,
                )
        }
}

/// The distance between two numbers.
fn gap(a: i64, b: i64) -> (r: u64)
    ensures
        r == distance(a as int, b as int),
{
    let wide_a: i128 = a as i128;
    let wide_b: i128 = b as i128;
    if wide_a >= wide_b {
        (wide_a - wide_b) as u64
    } else {
        (wide_b - wide_a) as u64
    }
}

/// Whether `angle` is the tilt of `list` that `selection` picks: the nearest, or
/// the first where the selection is no number and none is nearer than another.
pub open spec fn is_picked(list: Seq<i64>, selection: Measure, angle: i64) -> bool {
    if selection.finite() {
        is_nearest(list, selection.micro(), angle as int)
    } else {
        angle == list[0]
    }
}

/// The tilt of `list` that `selection` picks.
pub(crate) fn pick_tilt(list: &Vec<i64>, selection: Measure) -> (r: i64)
    requires
        list@.len() > 0,
    ensures
        is_picked(list@, selection, r),
{
    let selection: i64 = match selection {
        Measure::Micro(micro) => micro,
        Measure::NotFinite => {
            return list[0];
        },
    };
    let mut best: usize = 0;
    let mut i: usize = 1;
    while i < list.len()
        invariant
            1 <= i <= list@.len(),
            best < i,
            forall|j: int|
                0 <= j < i ==> distance(list@[best as int] as int, selection as int) <= distance(
                    #[trigger] list@[j] as int,
                    selection as int,
                ),
            forall|j: int|
                0 <= j < best ==> distance(list@[best as int] as int, selection as int) < distance(
                    #[trigger] list@[j] as int,
                    selection as int,
                ),
        decreases list@.len() - i,
    {
        if gap(list[i], selection) < gap(list[best], selection) {
            best = i;
        }
        i = i + 1;
    }
    assert(list@[best as int] == list@[best as int]);
    list[best]
}

/// The tilt of `list` that `selection` picks, or the selection itself where the
/// list is empty.
pub fn nearest_tilt(list: &Vec<i64>, selection: Measure) -> (r: Measure)
    ensures
        list@.len() == 0 ==> r == selection,
        list@.len() > 0 ==> (r matches Measure::Micro(angle) && is_picked(
            list@,
            selection,
            angle,
        )),
{
    if list.len() == 0 {
        selection
    } else {
        Measure::Micro(pick_tilt(list, selection))
    }
}

impl Default for PaneState {
    fn default() -> (r: Self)
        ensures
            r.is_initial("KTLX"@),
    {
        Self::new()
    }
}

impl PaneState {
    /// A pane as it starts out on a site.
    pub open spec fn is_initial(self, site: Seq<char>) -> bool {
        &&& self.site@ == site
        &&& self.scan_info is None
        &&& self.data_time is None
        &&& self.selected_product == RadarProduct::Reflectivity
        &&& self.selected_elevation == Measure::Micro(0)
        &&& self.viewing_live
        &&& self.time_step_secs == DEFAULT_TIME_STEP_SECS
        &&& self.time_link
        &&& self.viewport_link
        &&& self.layer_link
        &&& self.hover_value is None
        &&& self.overlay_hover_value is None
        &&& self.viewport.level() == DEFAULT_PANE_ZOOM
        &&& self.viewport.middle() is None
        &&& all_caches_empty(self.overlay_textures@)
        &&& self.draw_order@ == all_overlays()
        &&& self.enabled_overlays@ == Map::<OverlayKind, bool>::empty()
        &&& self.overlay_configs@ == Map::<OverlayKind, LayerSetting>::empty()
        &&& self.loop_state.is_fresh()
        &&& self.loading_site is None
        &&& self.radar_sites_render_gen == 0
        &&& self.content is MapView
    }

    /// What kind of pane this is.
    pub open spec fn kind_of(self) -> PaneKind {
        self.content.kind_of()
    }

    /// Whether this is a section pane that nothing has been drawn for yet.
    pub open spec fn unaimed_section(self) -> bool {
        self.content matches PaneContent::CrossSection(section) && section.line is None
    }

    /// Whether this layer is on; a layer without an entry is off.
    pub open spec fn overlay_on(self, kind: OverlayKind) -> bool {
        self.enabled_overlays@.contains_key(kind) && self.enabled_overlays@[kind]
    }

    /// The picture under the loop's playhead, if there is one.
    pub open spec fn playhead_image(self) -> Option<LoopFrameImage> {
        if self.loop_state.current_frame < self.loop_state.frames@.len() {
            self.loop_state.frames@[self.loop_state.current_frame as int].image
        } else {
            None
        }
    }

    /// The tilts listed for the selected product, if the scan offers it.
    pub open spec fn offered_tilts(self) -> Option<Seq<i64>> {
        match self.scan_info {
            Some(scan) => if scan.product_elevations@.contains_key(self.selected_product) {
                Some(scan.product_elevations@[self.selected_product]@)
            } else {
                None
            },
            None => None,
        }
    }

    /// Whether `elevation` is the sweep a render for this pane draws: the listed
    /// tilt that the selection picks, or the selection where none is listed yet.
    pub open spec fn renders_at(self, elevation: Measure) -> bool {
        match self.offered_tilts() {
            Some(tilts) => if tilts.len() == 0 {
                elevation == self.selected_elevation
            } else {
                elevation matches Measure::Micro(angle) && is_picked(
                    tilts,
                    self.selected_elevation,
                    angle,
                )
            },
            None => false,
        }
    }

    /// What the radar texture on screen depicts, if there is one.
    pub open spec fn drawn_meta(self) -> Option<RadarTextureMeta> {
        if self.overlay_textures@.contains_key(OverlayKind::Radar) {
            match self.overlay_textures@[OverlayKind::Radar].current {
                Some(texture) => texture.radar_meta,
                None => None,
            }
        } else {
            None
        }
    }

    pub fn new() -> (r: Self)
        ensures
            r.is_initial("KTLX"@),
    {
        Self::with_site(String::from_str("KTLX"))
    }

    /// A new pane viewing the given site.
    pub fn with_site(site: String) -> (r: Self)
        ensures
            r.is_initial(site@),
    {
        let mut viewport = Viewport::default();
        let _ = viewport.set_zoom(Measure::Micro(DEFAULT_PANE_ZOOM));
        PaneState {
            site,
            scan_info: None,
            data_time: None,
            selected_product: RadarProduct::Reflectivity,
            selected_elevation: Measure::Micro(0),
            viewing_live: true,
            time_step_secs: DEFAULT_TIME_STEP_SECS,
            time_link: true,
            viewport_link: true,
            layer_link: true,
            hover_value: None,
            overlay_hover_value: None,
            viewport,
            overlay_textures: empty_caches(),
            draw_order: OverlayKind::all(),
            enabled_overlays: Table::new(),
            overlay_configs: Table::new(),
            loop_state: LoopPlaybackState::new(),
            loading_site: None,
            radar_sites_render_gen: 0,
            content: PaneContent::MapView,
        }
    }

    /// What kind of pane this is.
    pub fn kind(&self) -> (r: PaneKind)
        ensures
            r == self.kind_of(),
    {
        self.content.kind()
    }

    /// Whether this is a plan-view map pane.
    pub fn is_map(&self) -> (r: bool)
        ensures
            r == (self.kind_of() == PaneKind::MapView),
    {
        match self.content {
            PaneContent::MapView => true,
            _ => false,
        }
    }

    /// Whether this pane can animate a sequence of past volumes. A section pane
    /// must be aimed first: without a line there is nothing for a frame to be a
    /// picture of.
    pub fn can_loop(&self) -> (r: bool)
        ensures
            r == !self.unaimed_section(),
    {
        self.kind().can_loop() && match &self.content {
            PaneContent::CrossSection(section) => section.line.is_some(),
            _ => true,
        }
    }

    /// This pane's cross-section state, or `None` if it is not a section pane.
    pub fn cross_section(&self) -> (r: Option<&CrossSectionPane>)
        ensures
            r is Some <==> self.content is CrossSection,
            r matches Some(section) ==> *section == *self.content->CrossSection_0,
    {
        match &self.content {
            PaneContent::CrossSection(section) => Some(section),
            _ => None,
        }
    }

    /// [`Self::cross_section`], to write to.
    pub fn cross_section_mut(&mut self) -> (r: Option<&mut CrossSectionPane>)
        ensures
            match r {
                Some(section) => {
                    &&& old(self).content is CrossSection
                    &&& *section == *old(self).content->CrossSection_0
                    &&& *final(self) == (PaneState {
                        content: PaneContent::CrossSection(Box::new(*final(section))),
                        ..*old(self)
                    })
                },
                None => !(old(self).content is CrossSection) && *final(self) == *old(self),
            },
    {
        match &mut self.content {
            PaneContent::CrossSection(section) => Some(&mut **section),
            _ => None,
        }
    }

    /// This pane's 3D volume state, or `None` if it is not a volume pane.
    pub fn volume(&self) -> (r: Option<&VolumePane>)
        ensures
            r is Some <==> self.content is Volume,
            r matches Some(volume) ==> *volume == *self.content->Volume_0,
    {
        match &self.content {
            PaneContent::Volume(volume) => Some(volume),
            _ => None,
        }
    }

    /// [`Self::volume`], to write to.
    pub fn volume_mut(&mut self) -> (r: Option<&mut VolumePane>)
        ensures
            match r {
                Some(volume) => {
                    &&& old(self).content is Volume
                    &&& *volume == *old(self).content->Volume_0
                    &&& *final(self) == (PaneState {
                        content: PaneContent::Volume(Box::new(*final(volume))),
                        ..*old(self)
                    })
                },
                None => !(old(self).content is Volume) && *final(self) == *old(self),
            },
    {
        match &mut self.content {
            PaneContent::Volume(volume) => Some(&mut **volume),
            _ => None,
        }
    }
}

impl PaneState {
    /// Whether putting `content` in place of a pane's own ends its animation: a
    /// new kind does, and so does one 3D view for another.
    pub open spec fn content_ends_loop(self, content: PaneContent) -> bool {
        content.kind_of() != self.kind_of() || content is Volume
    }

    /// Whether `after` is this pane with `content` in place of its own and its
    /// animation ended where that ends it. Nothing else changes.
    pub open spec fn with_content(self, content: PaneContent, after: PaneState) -> bool {
        &&& after == (PaneState { content, loop_state: after.loop_state, ..self })
        &&& if self.content_ends_loop(content) {
            after.loop_state.is_fresh()
        } else {
            after.loop_state == self.loop_state
        }
    }

    /// Whether `after` is this pane converted to `kind`.
    pub open spec fn converted(self, kind: PaneKind, after: PaneState) -> bool {
        if kind == self.kind_of() {
            after == self
        } else {
            &&& after.content.is_new()
            &&& after.kind_of() == kind
            &&& self.with_content(after.content, after)
        }
    }

    /// Convert this pane to `kind`, keeping everything about what it is looking
    /// at. Converting to the kind it already is does nothing, so a drawn line or
    /// an aimed camera survives. An animation does not survive a new kind: its
    /// frames are pictures of another shape.
    pub fn set_kind(&mut self, kind: PaneKind)
        ensures
            old(self).converted(kind, *final(self)),
    {
        if self.kind() == kind {
            return;
        }
        self.set_content(PaneContent::for_kind(kind));
    }

    /// Replace this pane's per-kind content wholesale. The frames of an animation
    /// are of one shape and, on a 3D pane, of one content.
    pub fn set_content(&mut self, content: PaneContent)
        ensures
            old(self).with_content(content, *final(self)),
    {
        let previous: PaneKind = self.kind();
        self.content = content;
        if self.kind() != previous || self.kind() == PaneKind::Volume {
            self.loop_state = LoopPlaybackState::new();
        }
    }

    /// The playing frame's plan view.
    pub fn active_image(&self) -> (r: Option<&RadarImageData>)
        ensures
            r is Some <==> self.playhead_image() matches Some(LoopFrameImage::PlanView(_)),
            r matches Some(image) ==> self.playhead_image() == Some(
                LoopFrameImage::PlanView(*image),
            ),
    {
        match self.active_loop_image() {
            Some(image) => image.plan_view(),
            None => None,
        }
    }

    /// The playing frame's cross-section.
    pub fn active_section_image(&self) -> (r: Option<&SectionImageData>)
        ensures
            r is Some <==> self.playhead_image() matches Some(LoopFrameImage::Section(_)),
            r matches Some(image) ==> self.playhead_image() == Some(
                LoopFrameImage::Section(*image),
            ),
    {
        match self.active_loop_image() {
            Some(image) => image.section(),
            None => None,
        }
    }

    /// The playing frame's resident voxel grid.
    pub fn active_volume_frame(&self) -> (r: Option<&VolumeFrameGrid>)
        ensures
            r is Some <==> self.playhead_image() matches Some(LoopFrameImage::Volume(_)),
            r matches Some(grid) ==> self.playhead_image() == Some(LoopFrameImage::Volume(*grid)),
    {
        match self.active_loop_image() {
            Some(image) => image.volume(),
            None => None,
        }
    }

    /// Whichever picture the loop's playhead is on.
    fn active_loop_image(&self) -> (r: Option<&LoopFrameImage>)
        ensures
            r is Some <==> self.playhead_image() is Some,
            r matches Some(image) ==> self.playhead_image() == Some(*image),
    {
        if self.loop_state.current_frame < self.loop_state.frames.len() {
            self.loop_state.frames[self.loop_state.current_frame].image.as_ref()
        } else {
            None
        }
    }

    /// When the data behind the image on screen was collected: under a running
    /// loop the playing frame's own time, otherwise the static render's.
    pub fn data_time_on_screen(&self) -> (r: Option<Stamp>)
        ensures
            r == if self.loop_state.active() {
                if self.loop_state.current_frame < self.loop_state.frames@.len() {
                    Some(self.loop_state.frames@[self.loop_state.current_frame as int].timestamp)
                } else {
                    None
                }
            } else {
                self.data_time
            },
    {
        if self.loop_state.is_active() {
            if self.loop_state.current_frame < self.loop_state.frames.len() {
                return Some(self.loop_state.frames[self.loop_state.current_frame].timestamp);
            }
            return None;
        }
        self.data_time
    }

    /// Whether the radar texture on screen is what this pane has selected. A
    /// product the scan does not offer is judged by the product alone.
    pub open spec fn depicts_selection(self, meta: RadarTextureMeta) -> bool {
        if self.offered_tilts() is Some {
            meta.product == self.selected_product && exists|elevation: Measure| #[trigger]
                self.renders_at(elevation) && meta.elevation.close_to(
                    elevation,
                    ELEVATION_TOLERANCE as int,
                )
        } else {
            meta.product == self.selected_product
        }
    }

    /// Whether the radar image on screen is not what this pane has selected.
    pub open spec fn shows_stale_image(self) -> bool {
        !self.loop_state.active() && self.drawn_meta() is Some && !self.depicts_selection(
            self.drawn_meta()->0,
        )
    }

    /// Only one angle is picked.
    proof fn lemma_renders_at_one(self, left: Measure, right: Measure)
        requires
            self.renders_at(left),
            self.renders_at(right),
        ensures
            left == right,
    {
        let tilts = self.offered_tilts()->0;
        if tilts.len() > 0 && self.selected_elevation.finite() {
            let sel = self.selected_elevation.micro();
            let a = left.micro();
            let b = right.micro();
            let i = choose|i: int|
                {
                    &&& 0 <= i < tilts.len()
                    &&& #[trigger] tilts[i] == a
                    &&& forall|j: int|
                        0 <= j < tilts.len() ==> distance(a, sel) <= distance(
                            #[trigger] tilts[j] as int,
                            sel,
                        )
                    &&& forall|j: int|
                        0 <= j < i ==> distance(a, sel) < distance(#[trigger] tilts[j] as int, sel)
                };
            let k = choose|k: int|
                {
                    &&& 0 <= k < tilts.len()
                    &&& #[trigger] tilts[k] == b
                    &&& forall|j: int|
                        0 <= j < tilts.len() ==> distance(b, sel) <= distance(
                            #[trigger] tilts[j] as int,
                            sel,
                        )
                    &&& forall|j: int|
                        0 <= j < k ==> distance(b, sel) < distance(#[trigger] tilts[j] as int, sel)
                };
            assert(distance(a, sel) <= distance(tilts[k] as int, sel));
            assert(distance(b, sel) <= distance(tilts[i] as int, sel));
        }
    }

    /// What the radar image on screen depicts, when that is not what this pane
    /// has selected. Under a running loop there is nothing to report: a loop
    /// drops every frame the moment the selection moves.
    pub fn stale_image_on_screen(&self) -> (r: Option<(RadarProduct, Measure)>)
        ensures
            r is Some <==> self.shows_stale_image(),
            r is Some <==> !self.loop_state.active() && self.drawn_meta() is Some
                && !self.depicts_selection(self.drawn_meta()->0),
            r matches Some(drawn) ==> drawn.0 == self.drawn_meta()->0.product && drawn.1
                == self.drawn_meta()->0.elevation,
    {
        if self.loop_state.is_active() {
            return None;
        }
        let meta: RadarTextureMeta = match self.overlay_textures.get(OverlayKind::Radar) {
            Some(cache) => match &cache.current {
                Some(texture) => match texture.radar_meta {
                    Some(meta) => meta,
                    None => {
                        return None;
                    },
                },
                None => {
                    return None;
                },
            },
            None => {
                return None;
            },
        };
        let matches_selection: bool = match self.get_rendering_params() {
            Some((product, elevation)) => {
                let same: bool = meta.elevation.is_close_to(elevation, ELEVATION_TOLERANCE);
                proof {
                    assert(self.renders_at(elevation));
                    assert forall|other: Measure| #[trigger] self.renders_at(other) implies other
                        == elevation by {
                        self.lemma_renders_at_one(other, elevation);
                    }
                }
                meta.product == product && same
            },
            None => meta.product == self.selected_product,
        };
        if matches_selection {
            None
        } else {
            Some((meta.product, meta.elevation))
        }
    }

    /// Whether this overlay is enabled for this pane.
    pub fn is_overlay_enabled(&self, kind: OverlayKind) -> (r: bool)
        ensures
            r == self.overlay_on(kind),
    {
        match self.enabled_overlays.get(kind) {
            Some(enabled) => *enabled,
            None => false,
        }
    }

    /// Set the per-pane enabled state for a given overlay kind.
    pub fn set_overlay_enabled(&mut self, kind: OverlayKind, enabled: bool)
        ensures
            final(self).enabled_overlays@ == old(self).enabled_overlays@.insert(kind, enabled),
            *final(self) == (PaneState {
                enabled_overlays: final(self).enabled_overlays,
                ..*old(self)
            }),
    {
        self.enabled_overlays.insert(kind, enabled);
    }

    /// The texture cache of a layer.
    pub fn overlay_cache(&self, kind: OverlayKind) -> (r: Option<&OverlayTextureCache>)
        ensures
            r is Some <==> self.overlay_textures@.contains_key(kind),
            r matches Some(cache) ==> *cache == self.overlay_textures@[kind],
    {
        self.overlay_textures.get(kind)
    }

    /// [`Self::overlay_cache`], to write to. A layer without a cache gets an empty
    /// one.
    pub fn overlay_cache_mut(&mut self, kind: OverlayKind) -> (r: &mut OverlayTextureCache)
        ensures
            if old(self).overlay_textures@.contains_key(kind) {
                *r == old(self).overlay_textures@[kind]
            } else {
                r.is_empty()
            },
            final(self).overlay_textures@ == old(self).overlay_textures@.insert(kind, *final(r)),
            *final(self) == (PaneState {
                overlay_textures: final(self).overlay_textures,
                ..*old(self)
            }),
    {
        self.overlay_textures.get_mut_or(kind, OverlayTextureCache::new())
    }

    /// The product and the sweep to render: the listed tilt that is picked, the
    /// selection itself where the product is listed without tilts yet, and
    /// nothing where the scan does not offer the product.
    pub fn get_rendering_params(&self) -> (r: Option<(RadarProduct, Measure)>)
        ensures
            r is Some <==> self.offered_tilts() is Some,
            r matches Some(params) ==> params.0 == self.selected_product && self.renders_at(
                params.1,
            ),
    {
        match &self.scan_info {
            Some(scan) => match scan.product_elevations.get(self.selected_product) {
                Some(tilts) => Some(
                    (self.selected_product, nearest_tilt(tilts, self.selected_elevation)),
                ),
                None => None,
            },
            None => None,
        }
    }

    /// This pane after the graphics context is gone: no texture anywhere, no
    /// render owed, and everything needed to draw it all again.
    pub open spec fn without_graphics(self, after: PaneState) -> bool {
        &&& after == (PaneState {
            loading_site: None,
            radar_sites_render_gen: if self.radar_sites_render_gen == u64::MAX {
                0
            } else {
                (self.radar_sites_render_gen + 1) as u64
            },
            loop_state: LoopPlaybackState {
                frames: after.loop_state.frames,
                ..self.loop_state
            },
            overlay_textures: after.overlay_textures,
            content: self.content.released(),
            ..self
        })
        &&& after.loop_state.frames@.len() == self.loop_state.frames@.len()
        &&& forall|i: int|
            0 <= i < self.loop_state.frames@.len() ==> #[trigger] after.loop_state.frames@[i] == (
            crate::frames::LoopFrame {
                image: None,
                render_in_flight: false,
                ..self.loop_state.frames@[i]
            })
        &&& after.overlay_textures@.dom() == self.overlay_textures@.dom()
        &&& forall|k: OverlayKind| #[trigger]
            after.overlay_textures@.contains_key(k) ==> after.overlay_textures@[k].is_empty()
    }

    /// Drop everything that dies with the graphics context.
    pub fn clear_graphics(&mut self)
        ensures
            old(self).without_graphics(*final(self)),
    {
        self.loading_site = None;
        self.radar_sites_render_gen = self.radar_sites_render_gen.wrapping_add(1);
        let mut i: usize = 0;
        while i < self.loop_state.frames.len()
            invariant
                i <= self.loop_state.frames@.len(),
                self.loop_state.frames@.len() == old(self).loop_state.frames@.len(),
                forall|k: int|
                    0 <= k < i ==> #[trigger] self.loop_state.frames@[k] == (
                    crate::frames::LoopFrame {
                        image: None,
                        render_in_flight: false,
                        ..old(self).loop_state.frames@[k]
                    }),
                forall|k: int|
                    i <= k < self.loop_state.frames@.len() ==> #[trigger] self.loop_state.frames@[k]
                        == old(self).loop_state.frames@[k],
                *self == (PaneState {
                    loading_site: None,
                    radar_sites_render_gen: self.radar_sites_render_gen,
                    loop_state: LoopPlaybackState {
                        frames: self.loop_state.frames,
                        ..old(self).loop_state
                    },
                    ..*old(self)
                }),
                self.radar_sites_render_gen == if old(self).radar_sites_render_gen == u64::MAX {
                    0
                } else {
                    (old(self).radar_sites_render_gen + 1) as u64
                },
            decreases self.loop_state.frames@.len() - i,
        {
            self.loop_state.frames[i].image = None;
            self.loop_state.frames[i].render_in_flight = false;
            i = i + 1;
        }
        let emptied: TextureMap = emptied_caches(&self.overlay_textures);
        self.overlay_textures = emptied;
        self.content.release_textures();
    }
}

/// An empty cache for each layer that has one.
fn emptied_caches(from: &TextureMap) -> (r: TextureMap)
    ensures
        r@.dom() == from@.dom(),
        forall|k: OverlayKind| #[trigger] r@.contains_key(k) ==> r@[k].is_empty(),
{
    let mut r: TextureMap = Table::new();
    let n: usize = from.len();
    let mut i: usize = 0;
    while i < n
        invariant
            i <= n,
            n == from.keys().len(),
            from.wf(),
            forall|k: OverlayKind| #[trigger]
                r@.contains_key(k) <==> from.keys().take(i as int).contains(k),
            forall|k: OverlayKind| #[trigger] r@.contains_key(k) ==> r@[k].is_empty(),
        decreases n - i,
    {
        r.insert(from.key_at(i), OverlayTextureCache::new());
        proof {
            crate::overlays::lemma_take_contains(from.keys(), i as int);
        }
        i = i + 1;
    }
    proof {
        from.law_keys();
        assert(from.keys().take(n as int) =~= from.keys());
        assert(r@.dom() =~= from@.dom());
    }
    r
}

/// Converting a pane keeps what it looks at: site, scan, selection, time
/// posture, links, viewport and layers.
pub proof fn law_converting_keeps_subject(before: PaneState, kind: PaneKind, after: PaneState)
    requires
        before.converted(kind, after),
    ensures
        after.kind_of() == kind,
        after == (PaneState { content: after.content, loop_state: after.loop_state, ..before }),
{
}

/// A pane whose kind changed has no running animation, and converting it back
/// does not bring one back.
pub proof fn law_converting_ends_loop(
    before: PaneState,
    kind: PaneKind,
    there: PaneState,
    back: PaneState,
)
    requires
        before.converted(kind, there),
        kind != before.kind_of(),
        there.converted(before.kind_of(), back),
    ensures
        !there.loop_state.active(),
        !back.loop_state.active(),
{
}

/// A 3D view that takes the place of another has no running animation, and
/// neither has any content that changes the pane's kind.
pub proof fn law_new_content_ends_loop(before: PaneState, content: PaneContent, after: PaneState)
    requires
        before.with_content(content, after),
        content is Volume || content.kind_of() != before.kind_of(),
    ensures
        !after.loop_state.active(),
        after.loop_state.frames@.len() == 0,
{
}

/// Asking for the kind a pane already is loses nothing, whatever it holds.
pub proof fn law_same_kind_changes_nothing(before: PaneState, after: PaneState)
    requires
        before.converted(before.kind_of(), after),
    ensures
        after == before,
{
}

/// The tilt picked is one of the list, none is nearer to the selection, and of two
/// equally near the earlier is picked.
pub proof fn law_nearest_tilt_is_nearest(list: Seq<i64>, selection: i64, angle: i64, k: int)
    requires
        is_picked(list, Measure::Micro(selection), angle),
        0 <= k < list.len(),
    ensures
        list.contains(angle),
        ({
            let off = if angle >= selection { angle - selection } else { selection - angle };
            let other = if list[k] >= selection {
                list[k] - selection
            } else {
                selection - list[k]
            };
            &&& off <= other
            &&& off == other && list[k] != angle ==> exists|i: int|
                0 <= i < k && #[trigger] list[i] == angle
        }),
{
    let i = choose|i: int|
        {
            &&& 0 <= i < list.len()
            &&& #[trigger] list[i] == angle
            &&& forall|j: int|
                0 <= j < list.len() ==> distance(angle as int, selection as int) <= distance(
                    #[trigger] list[j] as int,
                    selection as int,
                )
            &&& forall|j: int|
                0 <= j < i ==> distance(angle as int, selection as int) < distance(
                    #[trigger] list[j] as int,
                    selection as int,
                )
        };
    assert(list[i] == angle);
    assert(distance(angle as int, selection as int) <= distance(list[k] as int, selection as int));
    if k < i {
        assert(distance(angle as int, selection as int) < distance(
            list[k] as int,
            selection as int,
        ));
    }
}

/// A tilt of the list that is selected is picked, and a selection that is no number
/// picks the first.
pub proof fn law_listed_selection_is_picked(list: Seq<i64>, angle: i64, i: int)
    requires
        0 <= i < list.len(),
    ensures
        is_picked(list, Measure::Micro(list[i]), angle) ==> angle == list[i],
        is_picked(list, Measure::NotFinite, angle) <==> angle == list[0],
{
    if is_picked(list, Measure::Micro(list[i]), angle) {
        law_nearest_tilt_is_nearest(list, list[i], angle, i);
    }
}

/// A pane renders where its scan offers the product: at the listed tilt that is
/// picked, or at the selection itself where no tilt is listed.
pub proof fn law_pane_renders_what_is_offered(pane: PaneState, elevation: Measure)
    ensures
        pane.scan_info is None ==> pane.offered_tilts() is None,
        pane.scan_info matches Some(scan) ==> {
            let listed = scan.product_elevations@.contains_key(pane.selected_product);
            &&& pane.offered_tilts() is Some <==> listed
            &&& listed ==> {
                let tilts = scan.product_elevations@[pane.selected_product]@;
                &&& tilts.len() == 0 ==> (pane.renders_at(elevation) <==> elevation
                    == pane.selected_elevation)
                &&& tilts.len() > 0 && pane.renders_at(elevation) ==> elevation is Micro
                    && tilts.contains(elevation->Micro_0)
            }
            &&& !listed ==> !pane.renders_at(elevation)
        },
{
    if let Some(scan) = pane.scan_info {
        if scan.product_elevations@.contains_key(pane.selected_product) {
            let tilts = scan.product_elevations@[pane.selected_product]@;
            if tilts.len() > 0 && pane.renders_at(elevation) {
                let angle = elevation->Micro_0;
                if let Measure::Micro(selection) = pane.selected_elevation {
                    law_nearest_tilt_is_nearest(tilts, selection, angle, 0);
                } else {
                    assert(tilts[0] == angle);
                }
            }
        }
    }
}

/// The picture on screen is stale once it shows another product than is selected,
/// or, where the scan offers the product, another tilt by more than a hundredth of
/// a degree.
pub proof fn law_stale_picture_shows_something_else(
    pane: PaneState,
    meta: RadarTextureMeta,
    elevation: Measure,
)
    ensures
        meta.product != pane.selected_product ==> !pane.depicts_selection(meta),
        pane.offered_tilts() is None ==> (pane.depicts_selection(meta) <==> meta.product
            == pane.selected_product),
        pane.renders_at(elevation) ==> (pane.depicts_selection(meta) <==> meta.product
            == pane.selected_product && (meta.elevation matches Measure::Micro(a) && elevation
            matches Measure::Micro(b) && a - b <= 10_000 && b - a <= 10_000)),
{
    if pane.renders_at(elevation) {
        assert forall|other: Measure| #[trigger] pane.renders_at(other) implies other
            == elevation by {
            pane.lemma_renders_at_one(other, elevation);
        }
        assert(pane.offered_tilts() is Some);
    }
}

/// A pane is of the kind of its content, a section without a line is not aimed, and
/// a layer is on exactly where its switch says so.
pub proof fn law_pane_is_what_it_holds(pane: PaneState, kind: OverlayKind)
    ensures
        pane.content is MapView <==> pane.kind_of() == PaneKind::MapView,
        pane.content is CrossSection <==> pane.kind_of() == PaneKind::CrossSection,
        pane.content is Volume <==> pane.kind_of() == PaneKind::Volume,
        pane.unaimed_section() <==> pane.content is CrossSection
            && pane.content->CrossSection_0.line is None,
        pane.overlay_on(kind) <==> pane.enabled_overlays@.contains_key(kind)
            && pane.enabled_overlays@[kind],
{
}

/// Converting a pane to another kind gives it that kind with nothing in it, and
/// leaves no frame of its animation.
pub proof fn law_converted_pane_starts_anew(before: PaneState, kind: PaneKind, after: PaneState)
    requires
        before.converted(kind, after),
    ensures
        after.kind_of() == kind,
        kind == before.kind_of() ==> after == before,
        kind != before.kind_of() ==> {
            &&& after.content.is_new()
            &&& after.loop_state.frames@.len() == 0
            &&& after.loop_state.rendered_for is None
            &&& !after.loop_state.active()
        },
{
}

/// New content is taken whole, and keeps a running animation exactly where it is of
/// the same kind and not a 3D view.
pub proof fn law_content_is_taken_whole(before: PaneState, content: PaneContent, after: PaneState)
    requires
        before.with_content(content, after),
    ensures
        after.content == content,
        content is MapView && before.content is MapView ==> after.loop_state == before.loop_state,
        content is CrossSection && before.content is CrossSection ==> after.loop_state
            == before.loop_state,
        content is Volume ==> !after.loop_state.active(),
        content.kind_of() != before.content.kind_of() ==> !after.loop_state.active(),
{
}

/// Losing the graphics context loses pictures and renders and nothing else: every
/// frame keeps its moment and whether it failed, and the selection stays.
pub proof fn law_lost_graphics_can_be_drawn_again(before: PaneState, after: PaneState, i: int)
    requires
        before.without_graphics(after),
    ensures
        after.loop_state.frames@.len() == before.loop_state.frames@.len(),
        0 <= i < before.loop_state.frames@.len() ==> {
            let was = before.loop_state.frames@[i];
            let now = after.loop_state.frames@[i];
            &&& now.image is None
            &&& !now.render_in_flight
            &&& now.timestamp == was.timestamp
            &&& now.render_failed == was.render_failed
        },
        forall|k: OverlayKind| #[trigger]
            after.overlay_textures@.contains_key(k) ==> after.overlay_textures@[k].current is None
                && !after.overlay_textures@[k].render_in_flight,
        after.loop_state.phase == before.loop_state.phase,
        after.loop_state.current_frame == before.loop_state.current_frame,
        after.loop_state.rendered_for == before.loop_state.rendered_for,
        after.loading_site is None,
        after.radar_sites_render_gen != before.radar_sites_render_gen,
        after.site == before.site,
        after.scan_info == before.scan_info,
        after.selected_product == before.selected_product,
        after.selected_elevation == before.selected_elevation,
        after.enabled_overlays == before.enabled_overlays,
        after.viewport == before.viewport,
{
}

/// The picture on screen under an animation is the one at the playhead.
pub proof fn law_playhead_shows_its_frame(pane: PaneState)
    ensures
        pane.loop_state.current_frame < pane.loop_state.frames@.len() ==> pane.playhead_image()
            == pane.loop_state.frames@[pane.loop_state.current_frame as int].image,
        pane.loop_state.current_frame >= pane.loop_state.frames@.len() ==> pane.playhead_image()
            is None,
{
}

/// What the radar picture on screen depicts is what its texture says.
pub proof fn law_drawn_meta_is_the_texture_of_the_radar_layer(pane: PaneState)
    ensures
        pane.drawn_meta() matches Some(meta) ==> {
            &&& pane.overlay_textures@.contains_key(OverlayKind::Radar)
            &&& pane.overlay_textures@[OverlayKind::Radar].current is Some
            &&& pane.overlay_textures@[OverlayKind::Radar].current->0.radar_meta == Some(meta)
        },
        pane.overlay_textures@.contains_key(OverlayKind::Radar)
            && pane.overlay_textures@[OverlayKind::Radar].current is Some ==> pane.drawn_meta()
            == pane.overlay_textures@[OverlayKind::Radar].current->0.radar_meta,
{
}

/// A picture on screen is stale once another product is selected than it shows, and none
/// is under a running animation or where there is none.
pub proof fn law_new_selection_makes_the_picture_stale(pane: PaneState)
    ensures
        pane.loop_state.active() ==> !pane.shows_stale_image(),
        pane.drawn_meta() is None ==> !pane.shows_stale_image(),
        !pane.loop_state.active() && pane.drawn_meta() is Some && pane.drawn_meta()->0.product
            != pane.selected_product ==> pane.shows_stale_image(),
        !pane.loop_state.active() && pane.drawn_meta() is Some && pane.drawn_meta()->0.product
            == pane.selected_product && pane.offered_tilts() is None ==> !pane.shows_stale_image(),
{
}

/// A pane starts out as a live map of its site, at the fourth zoom, on reflectivity, with
/// every link, every ten minutes, and no layer on.
pub proof fn law_new_pane_is_a_live_map(pane: PaneState, site: Seq<char>, kind: OverlayKind)
    requires
        pane.is_initial(site),
    ensures
        pane.site@ == site,
        pane.content is MapView,
        pane.viewing_live,
        pane.time_link && pane.viewport_link && pane.layer_link,
        pane.viewport.level() == 4_000_000,
        pane.viewport.middle() is None,
        pane.selected_product == RadarProduct::Reflectivity,
        pane.time_step_secs == 600,
        !pane.overlay_on(kind),
        pane.draw_order@.contains(kind),
        pane.scan_info is None,
        !pane.loop_state.active(),
        !pane.shows_stale_image(),
{
    kind.law_all_is_complete();
    assert(pane.overlay_textures@.contains_key(OverlayKind::Radar));
}

/// An empty cache has no picture and waits for none.
pub proof fn law_empty_cache_waits_for_nothing(cache: OverlayTextureCache)
    requires
        cache.is_empty(),
    ensures
        cache.current is None,
        !cache.render_in_flight,
{
}

} // verus!
