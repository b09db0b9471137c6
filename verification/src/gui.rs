//! The state of the whole interface.

use vstd::prelude::*;
use crate::actions::RadarConfig;
use crate::geo::{GeoPoint, SectionLine, VolumeRegion};
use crate::kinds::{PaneKind, RadarProduct};
use crate::layout::{even_arrangement, PaneLayout, Rect};
use crate::measure::Measure;
use crate::orientation::ColorScaleOrientation;
use crate::overlays::{
    fill_enabled, switches, with_defaults, EnabledMap, LayerHandlers, LayerSetting, OverlayKind,
};
use crate::pane::PaneState;
use crate::poll::{AutoPollState, BASE_INTERVAL_SECS};
use crate::presets::PresetConfig;
use crate::scan::ProductRanks;
use crate::stamp::{date_text, time_text, write_date, write_time};
use crate::status::{ChunkFeedStatus, CurrentVolumeStamp};
use crate::table::Table;

verus! {

/// How wide the window is.
#[derive(Clone, Copy, Debug, PartialEq, Eq, Structural)]
pub enum WidthClass {
    /// A phone.
    Compact,
    /// Between the two.
    Medium,
    /// Wide enough for a lasting sidebar.
    Expanded,
}

/// The most panes any width offers.
pub const MAX_PANES_ABSOLUTE: usize = 6;

impl WidthClass {
    /// The most panes this width offers.
    pub open spec fn pane_limit(self) -> usize {
        match self {
            WidthClass::Compact => 4,
            WidthClass::Medium => 6,
            WidthClass::Expanded => 6,
        }
    }

    /// The most panes this width offers.
    pub fn max_panes(self) -> (r: usize)
        ensures
            r == self.pane_limit(),
    {
        match self {
            WidthClass::Compact => 4,
            WidthClass::Medium => 6,
            WidthClass::Expanded => 6,
        }
    }

    /// Whether the layers panel is a sidebar here, rather than a drawer.
    pub fn has_persistent_sidebar(self) -> (r: bool)
        ensures
            r == (self == WidthClass::Expanded),
    {
        self == WidthClass::Expanded
    }
}

/// A page of the phone's sheet.
#[derive(Clone, Copy, Debug, PartialEq, Eq, Structural)]
pub enum SheetPage {
    Feature,
    Time,
    Catalog,
    Menu,
    Inspector,
    Layers,
}

/// What the inspector's body is about.
#[derive(Clone, Copy, Debug, PartialEq, Eq, Structural)]
pub enum InspectorSelection {
    /// The app's own settings.
    AppSettings,
    /// The active pane's properties.
    PaneProps,
    /// One layer's options.
    Layer(OverlayKind),
}

/// Radar fetch lifecycle state.
pub struct RadarState {
    pub config: RadarConfig,
    pub fetching: bool,
    pub error_message: Option<String>,
}

/// The Set Time dialog.
pub struct TimeDialogState {
    pub date_string: String,
    pub time_string: String,
    pub show: bool,
}

/// A point on screen, in millionths of a point.
#[derive(Clone, Copy, Debug, PartialEq, Eq, Structural)]
pub struct ScreenPoint {
    pub x: i64,
    pub y: i64,
}

/// Where an in-flight cross-section draw started. The ground is the line's end;
/// the screen positions are only the gesture.
#[derive(Clone, Copy, Debug, PartialEq, Eq, Structural)]
pub struct SectionAnchor {
    pub pane_idx: usize,
    pub ground: GeoPoint,
    pub screen: ScreenPoint,
    pub current: ScreenPoint,
}

/// A drag on a committed section line's end, by the pane the section is in.
#[derive(Clone, Copy, Debug, PartialEq, Eq, Structural)]
pub struct SectionEditDrag {
    pub pane_idx: usize,
}

/// A box being dragged on a map pane.
#[derive(Clone, Copy, Debug, PartialEq, Eq, Structural)]
pub struct RegionDrag {
    pub pane_idx: usize,
    pub start: GeoPoint,
}

/// A committed region waiting for the frame to end.
#[derive(Clone, Copy, Debug, PartialEq, Eq, Structural)]
pub struct PendingRegion {
    pub source_pane: usize,
    pub region: VolumeRegion,
}

/// A committed section line and the pane it is for.
#[derive(Clone, Copy, Debug, PartialEq, Eq, Structural)]
pub struct PendingLine {
    pub pane_idx: usize,
    pub line: SectionLine,
}

/// A pane conversion that was asked for.
#[derive(Clone, Copy, Debug, PartialEq, Eq, Structural)]
pub struct PendingKind {
    pub pane_idx: usize,
    pub kind: PaneKind,
}

/// The insets a device's own bars claim, in millionths of a point.
#[derive(Clone, Copy, Debug, PartialEq, Eq, Structural)]
pub struct Insets {
    pub top: i64,
    pub bottom: i64,
    pub left: i64,
    pub right: i64,
}

/// The user's own position.
#[derive(Clone, Copy, Debug, PartialEq, Eq, Structural)]
pub struct GpsFix {
    pub point: GeoPoint,
}

/// A storm motion vector that the user may put in place of the radar's own.
/// Speed in knots, direction in degrees, both in millionths.
#[derive(Clone, Copy, Debug, PartialEq, Eq, Structural)]
pub struct StormMotionOverride {
    pub enabled: bool,
    pub speed_kt: Measure,
    pub direction_deg: Measure,
}

/// A usable storm motion vector, in millionths.
#[derive(Clone, Copy, Debug, PartialEq, Eq, Structural)]
pub struct StormMotionSample {
    pub speed_kt: i64,
    pub direction_deg: i64,
}

impl Default for StormMotionOverride {
    fn default() -> (r: Self)
        ensures
            r == (StormMotionOverride {
                enabled: false,
                speed_kt: Measure::Micro(30_000_000),
                direction_deg: Measure::Micro(240_000_000),
            }),
    {
        StormMotionOverride {
            enabled: false,
            speed_kt: Measure::Micro(30_000_000),
            direction_deg: Measure::Micro(240_000_000),
        }
    }
}

impl StormMotionOverride {
    /// The vector to apply, if there is one.
    pub open spec fn sampled(self) -> Option<StormMotionSample> {
        match (self.speed_kt, self.direction_deg) {
            (Measure::Micro(speed_kt), Measure::Micro(direction_deg)) => if self.enabled {
                Some(StormMotionSample { speed_kt, direction_deg })
            } else {
                None
            },
            _ => None,
        }
    }

    /// The vector to apply, or `None` where the override is off or either of its
    /// numbers is no number.
    pub fn sample(&self) -> (r: Option<StormMotionSample>)
        ensures
            r == self.sampled(),
            r is Some <==> self.enabled && self.speed_kt.finite() && self.direction_deg.finite(),
            r matches Some(sample) ==> sample.speed_kt == self.speed_kt.micro()
                && sample.direction_deg == self.direction_deg.micro(),
    {
        if !self.enabled {
            return None;
        }
        match (self.speed_kt, self.direction_deg) {
            (Measure::Micro(speed_kt), Measure::Micro(direction_deg)) => Some(
                StormMotionSample { speed_kt, direction_deg },
            ),
            _ => None,
        }
    }

    /// The override with every number that is none replaced by its default.
    pub open spec fn saved(self) -> StormMotionOverride {
        StormMotionOverride {
            enabled: self.enabled,
            speed_kt: if self.speed_kt.finite() {
                self.speed_kt
            } else {
                Measure::Micro(30_000_000)
            },
            direction_deg: if self.direction_deg.finite() {
                self.direction_deg
            } else {
                Measure::Micro(240_000_000)
            },
        }
    }

    /// The override as it is saved: every number that is none is replaced by its
    /// default.
    pub fn to_saved(self) -> (r: StormMotionOverride)
        ensures
            r == self.saved(),
    {
        StormMotionOverride {
            enabled: self.enabled,
            speed_kt: if self.speed_kt.is_finite() {
                self.speed_kt
            } else {
                Measure::Micro(30_000_000)
            },
            direction_deg: if self.direction_deg.is_finite() {
                self.direction_deg
            } else {
                Measure::Micro(240_000_000)
            },
        }
    }
}

/// What the application hands over when it starts.
pub struct Startup {
    /// The scan to begin with.
    pub config: RadarConfig,
    /// Where the notifier service lives unless the user says otherwise.
    pub notifier_endpoint: String,
    /// What the layers' handlers hold.
    pub handlers: LayerHandlers,
    /// Where each product stands in a picker.
    pub ranks: ProductRanks,
    /// Each product's code.
    pub codes: ProductRanks,
}

/// One site's current volume.
pub struct SiteVolume {
    pub site: String,
    pub stamp: CurrentVolumeStamp,
}

/// What the real-time feed is set to do and is doing.
pub struct FeedState {
    /// Whether live panes are fed from the real-time chunks.
    pub live_chunks: bool,
    /// Whether to subscribe to the push-notification service.
    pub chunk_notifications: bool,
    /// Where that service lives, as the user typed it.
    pub notifier_endpoint: String,
    /// Where that service lives unless the user says otherwise.
    pub default_endpoint: String,
    pub chunk_status: ChunkFeedStatus,
    pub current_volumes: Vec<SiteVolume>,
}

/// What is known of the user's own position.
#[derive(Clone, Copy, Debug, PartialEq, Eq, Structural)]
pub struct LocationState {
    pub user_fix: Option<GpsFix>,
    /// When it arrived, in milliseconds on the monotonic clock.
    pub user_fix_at: Option<u64>,
    /// What the platform last said about access to the position, by its code.
    pub permission: u8,
    /// Whether the platform is delivering positions.
    pub active: bool,
    /// Whether the platform has a settings page for it.
    pub settings_available: bool,
    /// Compass heading, in millionths of a degree.
    pub heading: Option<i64>,
}

/// What the map panel remembers from frame to frame.
pub struct MapState {
    pub color_scale_orientation: ColorScaleOrientation,
    /// Where each map pane was last drawn.
    pub pane_rects: Vec<Option<Rect>>,
    /// How much deeper a map under a 3D view fetches its tiles.
    pub floor_tile_zoom_bias: u8,
    /// Whether the first scan of the session has set the zoom.
    pub initial_zoom_set: bool,
}

/// Drags in flight and what they leave to be done at the end of the frame.
#[derive(Clone, Copy, Debug, PartialEq, Eq, Structural)]
pub struct Gestures {
    pub pending_pane_kind: Option<PendingKind>,
    /// Whether the next drag on a map picks a 3D region.
    pub region_arm: bool,
    pub region_drag: Option<RegionDrag>,
    pub pending_region: Option<PendingRegion>,
    /// Whether the next drag on a map draws a section line.
    pub section_draw_armed: bool,
    pub section_anchor: Option<SectionAnchor>,
    pub pending_section_line: Option<PendingLine>,
    pub section_edit_drag: Option<SectionEditDrag>,
    pub pending_section_edit: Option<PendingLine>,
}

/// The panels beside the map.
#[derive(Clone, Copy, Debug, PartialEq, Eq, Structural)]
pub struct Panels {
    pub drawer_open: bool,
    /// What the user said about the sidebar, if anything.
    pub stack_open: Option<bool>,
    pub insp_open: bool,
    /// Whether the inspector's next frame starts at the top.
    pub insp_scroll_reset: bool,
    pub inspector_sel: InspectorSelection,
}

/// What floats over the map.
#[derive(Clone, Copy, Debug, PartialEq, Eq, Structural)]
pub struct Popups {
    /// Whether the chrome is faded away.
    pub ui_faded: bool,
    pub menu_popup_open: bool,
    pub menu_popup_close_requested: bool,
    /// Whether the phone's menu page is open.
    pub menu_open: bool,
    pub catalog_open: bool,
    pub statusbar_collapsed: bool,
    /// Whether the status bar has drawn the countdown.
    pub countdown_drawn: bool,
}

/// The map features the detail popup is about, by id.
pub struct FeatureSelection {
    pub ids: Vec<u64>,
    pub page: usize,
}

/// The Add-layer catalog.
pub struct CatalogState {
    pub query: String,
    pub save_name: String,
    pub saving: bool,
    /// The user's saved presets.
    pub presets: Vec<PresetConfig>,
}

/// What the platform is.
#[derive(Clone, Copy, Debug, PartialEq, Eq, Structural)]
pub struct Platform {
    pub safe_area_insets: Insets,
    pub supports_exit: bool,
    pub loop_frame_budget: usize,
    pub width: WidthClass,
}

/// What the user has set.
pub struct Settings {
    pub viewport_sync: bool,
    pub sync_layers: bool,
    pub loop_lookback_secs: u64,
    /// Frames per second, in millionths.
    pub loop_speed_fps: Measure,
    pub pin_pane_controls: bool,
    /// Unit and time zone preferences, as saved text.
    pub preferences: String,
    /// The GPS configuration, as saved text.
    pub gps_config: String,
    pub storm_motion_override: StormMotionOverride,
    pub storm_motion_editing: bool,
    /// The user's transparency curves, one for each edited product.
    pub volume_alpha: Table<RadarProduct, Vec<u8>>,
    /// The user's surface thresholds, one for each edited product, in
    /// millionths of the product's unit.
    pub volume_iso: Table<RadarProduct, i64>,
}

/// The state of the interface.
pub struct Gui {
    pub radar: RadarState,
    pub auto_poll: AutoPollState,
    pub feed: FeedState,
    pub time_dialog: TimeDialogState,
    pub location: LocationState,
    pub overlays: LayerHandlers,
    /// Where each product stands in a picker.
    pub ranks: ProductRanks,
    /// Each product's code, by which saved lists are sorted.
    pub codes: ProductRanks,
    /// Every pane that is remembered, shown or not.
    pub panes: Vec<PaneState>,
    pub active_pane: usize,
    pub pane_layout: PaneLayout,
    pub map: MapState,
    pub gestures: Gestures,
    pub panels: Panels,
    pub popups: Popups,
    pub features: FeatureSelection,
    pub catalog: CatalogState,
    pub platform: Platform,
    pub settings: Settings,
}

impl Gestures {
    /// No drag, no mode, nothing left to do.
    pub open spec fn idle() -> Gestures {
        Gestures {
            pending_pane_kind: None,
            region_arm: false,
            region_drag: None,
            pending_region: None,
            section_draw_armed: false,
            section_anchor: None,
            pending_section_line: None,
            section_edit_drag: None,
            pending_section_edit: None,
        }
    }

    /// Whether no more than one drag mode is armed.
    pub open spec fn one_mode(self) -> bool {
        !(self.region_arm && self.section_draw_armed)
    }
}

impl Settings {
    /// The settings of a first run.
    pub open spec fn is_initial(self) -> bool {
        &&& self.viewport_sync
        &&& self.sync_layers
        &&& self.loop_lookback_secs == 3600
        &&& self.loop_speed_fps == Measure::Micro(5_000_000)
        &&& !self.pin_pane_controls
        &&& self.preferences@.len() == 0
        &&& self.gps_config@.len() == 0
        &&& self.storm_motion_override == (StormMotionOverride {
            enabled: false,
            speed_kt: Measure::Micro(30_000_000),
            direction_deg: Measure::Micro(240_000_000),
        })
        &&& !self.storm_motion_editing
        &&& self.volume_alpha@ == Map::<RadarProduct, Vec<u8>>::empty()
        &&& self.volume_iso@ == Map::<RadarProduct, i64>::empty()
    }

    fn new() -> (r: Self)
        ensures
            r.is_initial(),
    {
        Settings {
            viewport_sync: true,
            sync_layers: true,
            loop_lookback_secs: 3600,
            loop_speed_fps: Measure::Micro(5_000_000),
            pin_pane_controls: false,
            preferences: String::new(),
            gps_config: String::new(),
            storm_motion_override: StormMotionOverride::default(),
            storm_motion_editing: false,
            volume_alpha: Table::new(),
            volume_iso: Table::new(),
        }
    }
}

impl Gui {
    /// Whether there is a pane, and the active one is among them.
    pub open spec fn wf(self) -> bool {
        self.active_pane < self.panes@.len()
    }

    /// How many panes are shown: what the layout claims, as far as there are
    /// panes.
    pub open spec fn shown(self) -> int {
        if self.pane_layout@.count < self.panes@.len() {
            self.pane_layout@.count
        } else {
            self.panes@.len() as int
        }
    }

    /// The panes that are shown.
    pub open spec fn shown_panes(self) -> Seq<PaneState> {
        self.panes@.take(self.shown())
    }
}

/// A pane after it is given every switch and setting it lacks.
pub open spec fn seeded(before: PaneState, handlers: LayerHandlers, after: PaneState) -> bool {
    &&& after == (PaneState {
        enabled_overlays: after.enabled_overlays,
        overlay_configs: after.overlay_configs,
        ..before
    })
    &&& after.enabled_overlays@ == with_defaults(
        before.enabled_overlays@,
        switches(handlers.settings@),
    )
    &&& after.overlay_configs@ == if before.overlay_configs@ == Map::<
        OverlayKind,
        LayerSetting,
    >::empty() {
        handlers.settings@
    } else {
        before.overlay_configs@
    }
}

impl Gui {
    /// The interface as it starts out: one map pane on the default site, nothing
    /// open, every sync on.
    pub fn new(startup: Startup) -> (r: Self)
        ensures
            r.wf(),
            r.radar.config == startup.config,
            !r.radar.fetching,
            r.radar.error_message is None,
            r.auto_poll == (AutoPollState {
                last_fetch_time: None,
                enabled: true,
                initial_fetch_done: false,
                interval_secs: BASE_INTERVAL_SECS,
            }),
            r.feed.live_chunks,
            r.feed.chunk_notifications,
            r.feed.notifier_endpoint@ == startup.notifier_endpoint@,
            r.feed.default_endpoint@ == startup.notifier_endpoint@,
            r.feed.chunk_status == (ChunkFeedStatus {
                feeding: false,
                retired: false,
                interval_secs: 0,
                pushed: false,
                tilt: None,
            }),
            r.feed.current_volumes@.len() == 0,
            r.time_dialog.date_string@ == date_text(startup.config.timestamp),
            r.time_dialog.time_string@ == time_text(startup.config.timestamp),
            !r.time_dialog.show,
            r.location == (LocationState {
                user_fix: None,
                user_fix_at: None,
                permission: 0,
                active: false,
                settings_available: false,
                heading: None,
            }),
            r.overlays == startup.handlers,
            r.ranks == startup.ranks,
            r.codes == startup.codes,
            r.panes@.len() == 1,
            exists|p: PaneState| #[trigger]
                p.is_initial("KTLX"@) && seeded(p, startup.handlers, r.panes@[0]),
            r.active_pane == 0,
            r.pane_layout@ == even_arrangement(1),
            r.map.color_scale_orientation.remembered() is None,
            r.map.pane_rects@.len() == 0,
            r.map.floor_tile_zoom_bias == 0,
            !r.map.initial_zoom_set,
            r.gestures == Gestures::idle(),
            r.panels == (Panels {
                drawer_open: false,
                stack_open: None,
                insp_open: false,
                insp_scroll_reset: false,
                inspector_sel: InspectorSelection::AppSettings,
            }),
            r.popups == (Popups {
                ui_faded: false,
                menu_popup_open: false,
                menu_popup_close_requested: false,
                menu_open: false,
                catalog_open: false,
                statusbar_collapsed: false,
                countdown_drawn: false,
            }),
            r.features.ids@.len() == 0,
            r.features.page == 0,
            r.catalog.query@.len() == 0,
            r.catalog.save_name@.len() == 0,
            !r.catalog.saving,
            r.catalog.presets@.len() == 0,
            r.platform == (Platform {
                safe_area_insets: Insets { top: 0, bottom: 0, left: 0, right: 0 },
                supports_exit: true,
                loop_frame_budget: 60,
                width: WidthClass::Expanded,
            }),
            r.settings.is_initial(),
    {
        let date_string: String = write_date(startup.config.timestamp);
        let time_string: String = write_time(startup.config.timestamp);
        let first = PaneState::new();
        let ghost fresh = first;
        let mut panes: Vec<PaneState> = Vec::new();
        panes.push(first);
        let mut gui = Gui {
            radar: RadarState { config: startup.config, fetching: false, error_message: None },
            auto_poll: AutoPollState::new(),
            feed: FeedState {
                live_chunks: true,
                chunk_notifications: true,
                notifier_endpoint: startup.notifier_endpoint.clone(),
                default_endpoint: startup.notifier_endpoint,
                chunk_status: ChunkFeedStatus::default(),
                current_volumes: Vec::new(),
            },
            time_dialog: TimeDialogState { date_string, time_string, show: false },
            location: LocationState {
                user_fix: None,
                user_fix_at: None,
                permission: 0,
                active: false,
                settings_available: false,
                heading: None,
            },
            overlays: startup.handlers,
            ranks: startup.ranks,
            codes: startup.codes,
            panes,
            active_pane: 0,
            pane_layout: PaneLayout::default(),
            map: MapState {
                color_scale_orientation: ColorScaleOrientation::default(),
                pane_rects: Vec::new(),
                floor_tile_zoom_bias: 0,
                initial_zoom_set: false,
            },
            gestures: Gestures {
                pending_pane_kind: None,
                region_arm: false,
                region_drag: None,
                pending_region: None,
                section_draw_armed: false,
                section_anchor: None,
                pending_section_line: None,
                section_edit_drag: None,
                pending_section_edit: None,
            },
            panels: Panels {
                drawer_open: false,
                stack_open: None,
                insp_open: false,
                insp_scroll_reset: false,
                inspector_sel: InspectorSelection::AppSettings,
            },
            popups: Popups {
                ui_faded: false,
                menu_popup_open: false,
                menu_popup_close_requested: false,
                menu_open: false,
                catalog_open: false,
                statusbar_collapsed: false,
                countdown_drawn: false,
            },
            features: FeatureSelection { ids: Vec::new(), page: 0 },
            catalog: CatalogState {
                query: String::new(),
                save_name: String::new(),
                saving: false,
                presets: Vec::new(),
            },
            platform: Platform {
                safe_area_insets: Insets { top: 0, bottom: 0, left: 0, right: 0 },
                supports_exit: true,
                loop_frame_budget: 60,
                width: WidthClass::Expanded,
            },
            settings: Settings::new(),
        };
        gui.initialize_pane_enabled();
        assert(fresh.is_initial("KTLX"@));
        gui
    }

    /// Give every pane each switch and setting it lacks, from what the handlers
    /// hold. A pane without them would read as every layer off.
    pub fn initialize_pane_enabled(&mut self)
        ensures
            final(self).panes@.len() == old(self).panes@.len(),
            forall|i: int|
                0 <= i < old(self).panes@.len() ==> seeded(
                    old(self).panes@[i],
                    old(self).overlays,
                    #[trigger] final(self).panes@[i],
                ),
            *final(self) == (Gui { panes: final(self).panes, ..*old(self) }),
    {
        let mut panes: Vec<PaneState> = Vec::new();
        core::mem::swap(&mut panes, &mut self.panes);
        seed_panes(&mut panes, &self.overlays);
        self.panes = panes;
    }
}

/// Give a pane each switch and setting it lacks.
fn seed_pane(pane: &mut PaneState, handlers: &LayerHandlers, defaults: &EnabledMap)
    requires
        defaults@ == switches(handlers.settings@),
    ensures
        seeded(*old(pane), *handlers, *final(pane)),
{
    fill_enabled(&mut pane.enabled_overlays, defaults);
    if pane.overlay_configs.is_empty() {
        pane.overlay_configs = handlers.save_pane_configs();
    }
}

/// Give every pane each switch and setting it lacks.
fn seed_panes(panes: &mut Vec<PaneState>, handlers: &LayerHandlers)
    ensures
        final(panes)@.len() == old(panes)@.len(),
        forall|i: int|
            0 <= i < old(panes)@.len() ==> seeded(
                old(panes)@[i],
                *handlers,
                #[trigger] final(panes)@[i],
            ),
{
    let defaults: EnabledMap = handlers.save_enabled_map();
    let mut i: usize = 0;
    while i < panes.len()
        invariant
            i <= panes@.len(),
            panes@.len() == old(panes)@.len(),
            defaults@ == switches(handlers.settings@),
            forall|k: int|
                0 <= k < i ==> seeded(old(panes)@[k], *handlers, #[trigger] panes@[k]),
            forall|k: int| i <= k < panes@.len() ==> #[trigger] panes@[k] == old(panes)@[k],
        decreases panes@.len() - i,
    {
        seed_pane(&mut panes[i], handlers, &defaults);
        i = i + 1;
    }
}

/// A pane that is given what it lacks keeps every switch it had, takes the handlers'
/// for every other layer, and takes their settings only where it had none at all.
/// Nothing else about it changes.
pub proof fn law_seeding_fills_gaps(
    before: PaneState,
    handlers: LayerHandlers,
    after: PaneState,
    kind: OverlayKind,
)
    requires
        seeded(before, handlers, after),
    ensures
        before.enabled_overlays@.contains_key(kind) ==> after.overlay_on(kind)
            == before.overlay_on(kind),
        !before.enabled_overlays@.contains_key(kind) ==> after.overlay_on(kind) == (
        handlers.settings@.contains_key(kind) && handlers.settings@[kind].enabled),
        before.overlay_configs@ == Map::<OverlayKind, LayerSetting>::empty()
            ==> after.overlay_configs@ == handlers.settings@,
        before.overlay_configs@ != Map::<OverlayKind, LayerSetting>::empty()
            ==> after.overlay_configs@ == before.overlay_configs@,
        after == (PaneState {
            enabled_overlays: after.enabled_overlays,
            overlay_configs: after.overlay_configs,
            ..before
        }),
{
}

/// A phone has room for four panes, and every wider screen for six.
pub proof fn law_width_limits_panes(width: WidthClass)
    ensures
        width is Compact ==> width.pane_limit() == 4,
        !(width is Compact) ==> width.pane_limit() == 6,
{
}

/// The panes on screen are the first of those remembered, as many as the layout
/// has, or all where there are fewer.
pub proof fn law_first_panes_are_shown(state: Gui, i: int)
    requires
        0 <= i < state.panes@.len(),
        state.pane_layout@.count >= 0,
    ensures
        i < state.shown() <==> i < state.pane_layout@.count,
        state.shown_panes().len() == state.shown(),
        i < state.pane_layout@.count ==> state.shown_panes()[i] == state.panes@[i],
{
}

/// The storm motion that is applied is the one that was set, while it is on and both its
/// numbers are numbers, and none otherwise.
pub proof fn law_storm_motion_is_applied_as_set(motion: StormMotionOverride)
    ensures
        motion.sampled() is Some <==> motion.enabled && motion.speed_kt is Micro
            && motion.direction_deg is Micro,
        motion.sampled() is Some ==> {
            &&& Measure::Micro(motion.sampled()->0.speed_kt) == motion.speed_kt
            &&& Measure::Micro(motion.sampled()->0.direction_deg) == motion.direction_deg
        },
        motion.saved().enabled == motion.enabled,
        motion.speed_kt is Micro ==> motion.saved().speed_kt == motion.speed_kt,
        motion.direction_deg is Micro ==> motion.saved().direction_deg == motion.direction_deg,
        motion.speed_kt is NotFinite ==> motion.saved().speed_kt == Measure::Micro(30_000_000),
        motion.direction_deg is NotFinite ==> motion.saved().direction_deg == Measure::Micro(
            240_000_000,
        ),
{
}

/// A first run shares viewports and layers, looks an hour back at five frames a second, and
/// has no storm motion, curve or threshold of the user's own.
pub proof fn law_first_run_shares_everything(settings: Settings)
    requires
        settings.is_initial(),
    ensures
        settings.viewport_sync && settings.sync_layers,
        settings.loop_lookback_secs == 3600,
        settings.loop_speed_fps == Measure::Micro(5_000_000),
        !settings.pin_pane_controls,
        settings.storm_motion_override.sampled() is None,
        !settings.storm_motion_editing,
        settings.volume_alpha@.dom() =~= Set::empty(),
        settings.volume_iso@.dom() =~= Set::empty(),
{
}

/// With no gesture under way nothing is armed, nothing is dragged and nothing waits.
pub proof fn law_idle_gestures_hold_nothing()
    ensures
        ({
            let idle = Gestures::idle();
            &&& !idle.region_arm && !idle.section_draw_armed
            &&& idle.region_drag is None && idle.section_anchor is None && idle.section_edit_drag
                is None
            &&& idle.pending_region is None && idle.pending_section_line is None
                && idle.pending_section_edit is None && idle.pending_pane_kind is None
            &&& idle.one_mode()
        }),
{
}

} // verus!
