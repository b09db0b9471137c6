//! The saved form of panes, and reading it back.
//!
//! A config file can say anything: it is edited by hand and shared between
//! versions. What cannot be used falls back to something that can, one pane or
//! one number at a time, and never takes the rest of the file with it.

use vstd::prelude::*;
use crate::camera::{Offsets, OrbitCamera, Pivot, Pose};
use crate::content::{CrossSectionPane, PaneContent, VolumePane};
use crate::geo::{GeoPoint, SectionLine, VolumeRegion, MAX_HALF_WIDTH_KM, MIN_HALF_WIDTH_KM};
use crate::kinds::{PaneKind, RadarProduct, VolumeViewMode};
use crate::measure::{clamped, Measure};
use crate::overlays::{
    all_overlays, copy_configs, copy_enabled, copy_kinds, holds_kind, ConfigMap, EnabledMap, LayerSetting,
    OverlayKind,
};
use crate::pane::PaneState;
use crate::table::Table;
use crate::viewport::{zoom_in_range, MapPoint, Viewport};

verus! {

/// A section line's ends, as saved. Any number can stand here.
#[derive(Clone, Copy, Debug, PartialEq, Eq, Structural)]
pub struct SectionLineConfig {
    pub a: GeoPoint,
    pub b: GeoPoint,
}

/// A cross-section pane, as saved: the question it asks, and not the answer.
#[derive(Clone, Copy, Debug, PartialEq, Eq, Structural)]
pub struct CrossSectionConfig {
    /// The drawn line, or `None` for a pane that was never aimed.
    pub line: Option<SectionLineConfig>,
    /// Which map pane the line was drawn on.
    pub source_pane: Option<usize>,
}

/// A picked region, as saved.
#[derive(Clone, Copy, Debug, PartialEq, Eq, Structural)]
pub struct VolumeRegionConfig {
    pub centre: GeoPoint,
    pub half_width_km: Measure,
}

/// A 3D pane, as saved.
#[derive(Clone, Copy, Debug, PartialEq, Eq, Structural)]
pub struct VolumeConfig {
    pub yaw_deg: Measure,
    pub pitch_deg: Measure,
    pub eye_distance: Measure,
    pub pivot: Offsets,
    pub vertical_exaggeration: Measure,
    pub region: Option<VolumeRegionConfig>,
    pub source_pane: Option<usize>,
    pub view_mode: VolumeViewMode,
}

/// A camera's pose, as saved.
pub open spec fn saved_pose(pose: Pose) -> VolumeConfig {
    VolumeConfig {
        yaw_deg: Measure::Micro(pose.yaw as i64),
        pitch_deg: Measure::Micro(pose.pitch as i64),
        eye_distance: Measure::Micro(pose.eye_distance as i64),
        pivot: Offsets {
            x: Measure::Micro(pose.pivot.x),
            y: Measure::Micro(pose.pivot.y),
            z: Measure::Micro(pose.pivot.z),
        },
        vertical_exaggeration: Measure::Micro(pose.exaggeration as i64),
        region: None,
        source_pane: None,
        view_mode: VolumeViewMode::LitVolume,
    }
}

/// The saved form of a camera, with nothing picked.
fn save_camera(camera: OrbitCamera) -> (r: VolumeConfig)
    ensures
        r == saved_pose(camera@),
        camera@.legal(),
{
    let pivot: Pivot = camera.pivot();
    VolumeConfig {
        yaw_deg: Measure::Micro(camera.yaw_deg()),
        pitch_deg: Measure::Micro(camera.pitch_deg()),
        eye_distance: Measure::Micro(camera.eye_distance()),
        pivot: Offsets {
            x: Measure::Micro(pivot.x),
            y: Measure::Micro(pivot.y),
            z: Measure::Micro(pivot.z),
        },
        vertical_exaggeration: Measure::Micro(camera.vertical_exaggeration()),
        region: None,
        source_pane: None,
        view_mode: VolumeViewMode::LitVolume,
    }
}

impl Default for VolumeConfig {
    /// The camera's own default, read out of it.
    fn default() -> (r: Self)
        ensures
            r == saved_pose(
                Pose {
                    yaw: 225_000_000,
                    pitch: 25_000_000,
                    eye_distance: 2_500_000,
                    pivot: Pivot { x: 0, y: 0, z: 0 },
                    exaggeration: crate::camera::DEFAULT_VERTICAL_EXAGGERATION as int,
                },
            ),
    {
        save_camera(OrbitCamera::default())
    }
}

/// A pane's kind and the state of that kind, as saved.
#[derive(Clone, Copy, Debug, PartialEq, Eq, Structural)]
pub struct ContentConfig {
    pub kind: PaneKind,
    /// Present where the pane is a cross-section.
    pub cross_section: Option<CrossSectionConfig>,
    /// Present where the pane is a 3D view.
    pub volume: Option<VolumeConfig>,
}

/// The saved form of a section line.
pub open spec fn saved_line(line: Option<SectionLine>) -> Option<SectionLineConfig> {
    match line {
        Some(l) => Some(SectionLineConfig { a: l.from(), b: l.to() }),
        None => None,
    }
}

/// The saved form of a region.
pub open spec fn saved_region(region: Option<VolumeRegion>) -> Option<VolumeRegionConfig> {
    match region {
        Some(r) => Some(
            VolumeRegionConfig {
                centre: r.middle(),
                half_width_km: Measure::Micro(r.half_width() as i64),
            },
        ),
        None => None,
    }
}

/// The saved form of a pane's content.
pub open spec fn saved_content(content: PaneContent) -> ContentConfig {
    match content {
        PaneContent::MapView => ContentConfig {
            kind: PaneKind::MapView,
            cross_section: None,
            volume: None,
        },
        PaneContent::CrossSection(section) => ContentConfig {
            kind: PaneKind::CrossSection,
            cross_section: Some(
                CrossSectionConfig {
                    line: saved_line(section.line),
                    source_pane: section.source_pane,
                },
            ),
            volume: None,
        },
        PaneContent::Volume(volume) => ContentConfig {
            kind: PaneKind::Volume,
            cross_section: None,
            volume: Some(
                VolumeConfig {
                    region: saved_region(volume.region),
                    source_pane: volume.source_pane,
                    view_mode: volume.view_mode,
                    ..saved_pose(volume.camera@)
                },
            ),
        },
    }
}

/// What a pane's kind and the state of that kind are saved as.
pub fn content_config(content: &PaneContent) -> (r: ContentConfig)
    ensures
        r == saved_content(*content),
{
    match content {
        PaneContent::MapView => ContentConfig {
            kind: PaneKind::MapView,
            cross_section: None,
            volume: None,
        },
        PaneContent::CrossSection(section) => {
            let line: Option<SectionLineConfig> = match section.line {
                Some(line) => Some(SectionLineConfig { a: line.a(), b: line.b() }),
                None => None,
            };
            ContentConfig {
                kind: PaneKind::CrossSection,
                cross_section: Some(
                    CrossSectionConfig { line, source_pane: section.source_pane },
                ),
                volume: None,
            }
        },
        PaneContent::Volume(volume) => {
            let region: Option<VolumeRegionConfig> = match volume.region {
                Some(region) => Some(
                    VolumeRegionConfig {
                        centre: region.centre(),
                        half_width_km: Measure::Micro(region.half_width_km()),
                    },
                ),
                None => None,
            };
            let camera: VolumeConfig = save_camera(volume.camera);
            ContentConfig {
                kind: PaneKind::Volume,
                cross_section: None,
                volume: Some(
                    VolumeConfig {
                        yaw_deg: camera.yaw_deg,
                        pitch_deg: camera.pitch_deg,
                        eye_distance: camera.eye_distance,
                        pivot: camera.pivot,
                        vertical_exaggeration: camera.vertical_exaggeration,
                        region,
                        source_pane: volume.source_pane,
                        view_mode: volume.view_mode,
                    },
                ),
            }
        },
    }
}

/// A saved source pane that the layout still has.
pub open spec fn kept_source(source: Option<usize>, pane_count: usize) -> Option<usize> {
    match source {
        Some(idx) => if idx < pane_count {
            Some(idx)
        } else {
            None
        },
        None => None,
    }
}

fn keep_source(source: Option<usize>, pane_count: usize) -> (r: Option<usize>)
    ensures
        r == kept_source(source, pane_count),
{
    match source {
        Some(idx) => if idx < pane_count {
            Some(idx)
        } else {
            None
        },
        None => None,
    }
}

/// Whether a saved section can be restored: a line that was saved is one that
/// can be cut.
pub open spec fn section_usable(saved: CrossSectionConfig) -> bool {
    saved.line matches Some(line) ==> SectionLine::cuttable(line.a, line.b)
}

/// Whether a saved camera can be restored.
pub open spec fn camera_usable(saved: VolumeConfig) -> bool {
    &&& saved.yaw_deg.finite()
    &&& saved.pitch_deg.finite()
    &&& saved.eye_distance.finite()
    &&& saved.pivot.finite()
    &&& saved.vertical_exaggeration.finite()
}

/// Whether a saved region can be restored.
pub open spec fn region_usable(saved: VolumeRegionConfig) -> bool {
    saved.centre.on_earth() && saved.half_width_km.finite()
}

/// Whether `section` is a saved section restored into a layout of `pane_count`
/// panes.
pub open spec fn section_restored(
    saved: CrossSectionConfig,
    pane_count: usize,
    section: CrossSectionPane,
) -> bool {
    &&& section == (CrossSectionPane {
        line: section.line,
        source_pane: kept_source(saved.source_pane, pane_count),
        rendered_for: None,
        section: None,
        texture: None,
        unavailable: None,
        detail_open: false,
    })
    &&& match saved.line {
        Some(line) => section.line matches Some(l) && l.from() == line.a && l.to() == line.b,
        None => section.line is None,
    }
}

/// Whether `volume` is a saved 3D view restored into a layout of `pane_count`
/// panes. A region that cannot be used costs the region and not the view.
pub open spec fn volume_restored(
    saved: VolumeConfig,
    pane_count: usize,
    volume: VolumePane,
) -> bool {
    &&& volume == (VolumePane {
        camera: volume.camera,
        region: volume.region,
        source_pane: kept_source(saved.source_pane, pane_count),
        rendered_for: None,
        hide_floor: false,
        alpha_editor_open: false,
        view_mode: saved.view_mode,
    })
    &&& volume.camera@ == Pose::restored(
        saved.yaw_deg.micro(),
        saved.pitch_deg.micro(),
        saved.eye_distance.micro(),
        saved.pivot,
        saved.vertical_exaggeration.micro(),
    )
    &&& match saved.region {
        Some(region) => if region_usable(region) {
            volume.region matches Some(r) && r.middle() == region.centre && r.half_width()
                == clamped(
                region.half_width_km.micro(),
                MIN_HALF_WIDTH_KM as int,
                MAX_HALF_WIDTH_KM as int,
            )
        } else {
            volume.region is None
        },
        None => volume.region is None,
    }
}

/// Whether `content` is what a saved pane describes, or a map where it describes
/// nothing usable.
pub open spec fn content_restored(
    saved: ContentConfig,
    pane_count: usize,
    content: PaneContent,
) -> bool {
    match saved.kind {
        PaneKind::MapView => content is MapView,
        PaneKind::CrossSection => if saved.cross_section is Some && section_usable(
            saved.cross_section->0,
        ) {
            content matches PaneContent::CrossSection(section) && section_restored(
                saved.cross_section->0,
                pane_count,
                *section,
            )
        } else {
            content is MapView
        },
        PaneKind::Volume => if saved.volume is Some && camera_usable(saved.volume->0) {
            content matches PaneContent::Volume(volume) && volume_restored(
                saved.volume->0,
                pane_count,
                *volume,
            )
        } else {
            content is MapView
        },
    }
}

/// The content a saved pane describes, or a map where it describes nothing
/// usable: a kind without its state, a line that cannot be cut, a camera that is
/// no number.
pub fn restore_content(saved: &ContentConfig, pane_count: usize) -> (r: PaneContent)
    ensures
        content_restored(*saved, pane_count, r),
{
    match saved.kind {
        PaneKind::MapView => PaneContent::MapView,
        PaneKind::CrossSection => {
            let section: CrossSectionConfig = match saved.cross_section {
                Some(section) => section,
                None => {
                    return PaneContent::MapView;
                },
            };
            let line: Option<SectionLine> = match section.line {
                None => None,
                Some(ends) => match SectionLine::new(ends.a, ends.b) {
                    Some(line) => Some(line),
                    None => {
                        return PaneContent::MapView;
                    },
                },
            };
            let source_pane: Option<usize> = keep_source(section.source_pane, pane_count);
            PaneContent::CrossSection(
                Box::new(
                    CrossSectionPane {
                        line,
                        source_pane,
                        rendered_for: None,
                        section: None,
                        texture: None,
                        unavailable: None,
                        detail_open: false,
                    },
                ),
            )
        },
        PaneKind::Volume => {
            let volume: VolumeConfig = match saved.volume {
                Some(volume) => volume,
                None => {
                    return PaneContent::MapView;
                },
            };
            let camera: OrbitCamera = match OrbitCamera::restore(
                volume.yaw_deg,
                volume.pitch_deg,
                volume.eye_distance,
                volume.pivot,
                volume.vertical_exaggeration,
            ) {
                Some(camera) => camera,
                None => {
                    return PaneContent::MapView;
                },
            };
            let region: Option<VolumeRegion> = match volume.region {
                Some(picked) => VolumeRegion::new(picked.centre, picked.half_width_km),
                None => None,
            };
            let source_pane: Option<usize> = keep_source(volume.source_pane, pane_count);
            PaneContent::Volume(
                Box::new(
                    VolumePane {
                        camera,
                        region,
                        source_pane,
                        rendered_for: None,
                        hide_floor: false,
                        alpha_editor_open: false,
                        view_mode: volume.view_mode,
                    },
                ),
            )
        },
    }
}

/// Whether a pane's content is as its types keep it: a line that can be cut, a
/// camera within its limits, a region on the ground.
pub open spec fn sound_content(content: PaneContent) -> bool {
    match content {
        PaneContent::MapView => true,
        PaneContent::CrossSection(section) => section.line matches Some(l) ==> SectionLine::cuttable(
            l.from(),
            l.to(),
        ),
        PaneContent::Volume(volume) => {
            &&& volume.camera@.legal()
            &&& volume.region matches Some(r) ==> r.middle().on_earth() && MIN_HALF_WIDTH_KM
                <= r.half_width() <= MAX_HALF_WIDTH_KM
        },
    }
}

/// Whether `restored` asks what `content` asked: the same kind, line, region,
/// camera and view mode, and the same source pane while the layout has it.
pub open spec fn came_back(
    content: PaneContent,
    pane_count: usize,
    restored: PaneContent,
) -> bool {
    &&& restored.kind_of() == content.kind_of()
    &&& content matches PaneContent::CrossSection(section) ==> {
        let back = restored->CrossSection_0;
        &&& back.line == section.line
        &&& back.source_pane == kept_source(section.source_pane, pane_count)
    }
    &&& content matches PaneContent::Volume(volume) ==> {
        let back = restored->Volume_0;
        &&& back.camera@ == volume.camera@
        &&& back.region == volume.region
        &&& back.view_mode == volume.view_mode
        &&& back.source_pane == kept_source(volume.source_pane, pane_count)
    }
}

/// A pane's kind, line, region, camera and view mode come back from a save, and
/// so does the pane they came from while the layout has it.
pub proof fn law_content_comes_back(
    content: PaneContent,
    pane_count: usize,
    restored: PaneContent,
)
    requires
        sound_content(content),
        content_restored(saved_content(content), pane_count, restored),
    ensures
        came_back(content, pane_count, restored),
{
    match content {
        PaneContent::MapView => {},
        PaneContent::CrossSection(section) => {
            let back = restored->CrossSection_0;
            match section.line {
                Some(line) => {
                    SectionLine::law_ends_determine_line(line, back.line->0);
                },
                None => {},
            }
        },
        PaneContent::Volume(volume) => {
            let back = restored->Volume_0;
            volume.camera@.law_restore_gives_back();
            match volume.region {
                Some(region) => {
                    VolumeRegion::law_extent_determines_region(region, back.region->0);
                },
                None => {},
            }
        },
    }
}

/// `list`, and behind it each of the first `n` kinds of layer that is not in it.
pub open spec fn with_missing(list: Seq<OverlayKind>, n: int) -> Seq<OverlayKind>
    decreases n,
{
    if n <= 0 {
        list
    } else {
        let before = with_missing(list, n - 1);
        let kind = all_overlays()[n - 1];
        if before.contains(kind) {
            before
        } else {
            before.push(kind)
        }
    }
}

/// A saved draw order with every kind of layer it lacks behind it.
pub open spec fn reconciled(saved: Seq<OverlayKind>) -> Seq<OverlayKind> {
    with_missing(saved, all_overlays().len() as int)
}

/// Bring a saved draw order up to date: what was saved keeps its place, and
/// kinds it lacks come behind, in their own order.
pub fn reconcile_draw_order(saved: &Vec<OverlayKind>) -> (r: Vec<OverlayKind>)
    ensures
        r@ == reconciled(saved@),
{
    let kinds: Vec<OverlayKind> = OverlayKind::all();
    let mut r: Vec<OverlayKind> = copy_kinds(saved);
    let mut i: usize = 0;
    while i < kinds.len()
        invariant
            i <= kinds@.len(),
            kinds@ == all_overlays(),
            r@ == with_missing(saved@, i as int),
        decreases kinds@.len() - i,
    {
        if !holds_kind(&r, kinds[i]) {
            r.push(kinds[i]);
        }
        i = i + 1;
    }
    r
}

proof fn lemma_with_missing(list: Seq<OverlayKind>, n: int)
    requires
        0 <= n <= all_overlays().len(),
    ensures
        list.is_prefix_of(with_missing(list, n)),
        forall|k: int|
            0 <= k < n ==> with_missing(list, n).contains(#[trigger] all_overlays()[k]),
        list.no_duplicates() ==> with_missing(list, n).no_duplicates(),
    decreases n,
{
    if n > 0 {
        lemma_with_missing(list, n - 1);
        let before = with_missing(list, n - 1);
        let after = with_missing(list, n);
        assert forall|k: int| 0 <= k < n implies after.contains(#[trigger] all_overlays()[k]) by {
            if k < n - 1 {
                let at = before.index_of(all_overlays()[k]);
                assert(after[at] == all_overlays()[k]);
            } else if !before.contains(all_overlays()[k]) {
                assert(after[before.len() as int] == all_overlays()[k]);
            }
        }
    }
}

/// A draw order that is brought up to date begins as it was saved, holds every
/// kind of layer, and repeats none that the saved one did not.
pub proof fn law_draw_order_is_complete(saved: Seq<OverlayKind>, kind: OverlayKind)
    ensures
        saved.is_prefix_of(reconciled(saved)),
        reconciled(saved).contains(kind),
        saved.no_duplicates() ==> reconciled(saved).no_duplicates(),
{
    lemma_with_missing(saved, all_overlays().len() as int);
    kind.law_all_is_complete();
    assert(reconciled(saved).contains(all_overlays()[kind.place()]));
}

/// A draw order that lacks nothing comes back as it is.
pub proof fn law_complete_order_stands(saved: Seq<OverlayKind>)
    requires
        forall|kind: OverlayKind| #[trigger] saved.contains(kind),
    ensures
        reconciled(saved) == saved,
{
    lemma_complete_order(saved, all_overlays().len() as int);
}

proof fn lemma_complete_order(saved: Seq<OverlayKind>, n: int)
    requires
        forall|kind: OverlayKind| #[trigger] saved.contains(kind),
    ensures
        with_missing(saved, n) == saved,
    decreases n,
{
    if n > 0 {
        lemma_complete_order(saved, n - 1);
        assert(saved.contains(all_overlays()[n - 1]));
    }
}

/// The site of a pane that none was saved for.
pub fn default_site() -> (r: String)
    ensures
        r@ == Seq::<char>::empty(),
{
    String::new()
}

/// The time step of a pane that none was saved for, in seconds.
pub fn default_time_step() -> (r: i64)
    ensures
        r == 600,
{
    600
}

/// The link of a pane that none was saved for.
pub fn default_true() -> (r: bool)
    ensures
        r,
{
    true
}

/// A pane, as saved.
pub struct PaneConfig {
    pub selected_product: RadarProduct,
    /// Degrees.
    pub selected_elevation: Measure,
    /// The radar switch of files from before layers were saved by handler.
    pub legacy_radar: Option<bool>,
    pub site: String,
    pub time_step_secs: i64,
    pub time_link: bool,
    pub viewport_link: bool,
    pub layer_link: bool,
    pub draw_order: Vec<OverlayKind>,
    pub enabled_overlays: EnabledMap,
    pub overlay_configs: ConfigMap,
    /// The zoom, where one was saved.
    pub zoom: Option<Measure>,
    /// The centre, where the map was not following its site.
    pub center: Option<MapPoint>,
    pub content: ContentConfig,
}

/// What a saved pane says.
pub struct PaneConfigFacts {
    pub selected_product: RadarProduct,
    pub selected_elevation: Measure,
    pub legacy_radar: Option<bool>,
    pub site: Seq<char>,
    pub time_step_secs: i64,
    pub time_link: bool,
    pub viewport_link: bool,
    pub layer_link: bool,
    pub draw_order: Seq<OverlayKind>,
    pub enabled_overlays: Map<OverlayKind, bool>,
    pub overlay_configs: Map<OverlayKind, LayerSetting>,
    pub zoom: Option<Measure>,
    pub center: Option<MapPoint>,
    pub content: ContentConfig,
}

impl View for PaneConfig {
    type V = PaneConfigFacts;

    open spec fn view(&self) -> PaneConfigFacts {
        PaneConfigFacts {
            selected_product: self.selected_product,
            selected_elevation: self.selected_elevation,
            legacy_radar: self.legacy_radar,
            site: self.site@,
            time_step_secs: self.time_step_secs,
            time_link: self.time_link,
            viewport_link: self.viewport_link,
            layer_link: self.layer_link,
            draw_order: self.draw_order@,
            enabled_overlays: self.enabled_overlays@,
            overlay_configs: self.overlay_configs@,
            zoom: self.zoom,
            center: self.center,
            content: self.content,
        }
    }
}

impl PaneConfig {
    /// Whether this is what a file says of a pane by saying nothing.
    pub open spec fn is_default(self) -> bool {
        &&& self.selected_product == RadarProduct::Reflectivity
        &&& self.selected_elevation == Measure::Micro(0)
        &&& self.legacy_radar == Some(true)
        &&& self.site@.len() == 0
        &&& self.time_step_secs == 600
        &&& self.time_link
        &&& self.viewport_link
        &&& self.layer_link
        &&& self.draw_order@ == all_overlays()
        &&& self.enabled_overlays@ == Map::<OverlayKind, bool>::empty()
        &&& self.overlay_configs@ == Map::<OverlayKind, LayerSetting>::empty()
        &&& self.zoom is None
        &&& self.center is None
        &&& self.content == (ContentConfig {
            kind: PaneKind::MapView,
            cross_section: None,
            volume: None,
        })
    }
}

impl Default for PaneConfig {
    fn default() -> (r: Self)
        ensures
            r.is_default(),
    {
        PaneConfig {
            selected_product: RadarProduct::Reflectivity,
            selected_elevation: Measure::Micro(0),
            legacy_radar: Some(true),
            site: default_site(),
            time_step_secs: default_time_step(),
            time_link: default_true(),
            viewport_link: default_true(),
            layer_link: default_true(),
            draw_order: OverlayKind::all(),
            enabled_overlays: Table::new(),
            overlay_configs: Table::new(),
            zoom: None,
            center: None,
            content: ContentConfig {
                kind: PaneKind::MapView,
                cross_section: None,
                volume: None,
            },
        }
    }
}

/// Whether `saved` is the saved form of a pane.
pub open spec fn pane_saved(pane: PaneState, saved: PaneConfig) -> bool {
    &&& saved.selected_product == pane.selected_product
    &&& saved.selected_elevation == pane.selected_elevation.mended(0)
    &&& saved.legacy_radar is None
    &&& saved.site@ == pane.site@
    &&& saved.time_step_secs == pane.time_step_secs
    &&& saved.time_link == pane.time_link
    &&& saved.viewport_link == pane.viewport_link
    &&& saved.layer_link == pane.layer_link
    &&& saved.draw_order@ == pane.draw_order@
    &&& saved.enabled_overlays@ == pane.enabled_overlays@
    &&& saved.overlay_configs@ == pane.overlay_configs@
    &&& saved.zoom == Some(Measure::Micro(pane.viewport.level() as i64))
    &&& saved.center == pane.viewport.middle()
    &&& saved.content == saved_content(pane.content)
}

/// The saved form of a pane.
pub fn pane_config(pane: &PaneState) -> (r: PaneConfig)
    ensures
        pane_saved(*pane, r),
{
    PaneConfig {
        selected_product: pane.selected_product,
        selected_elevation: Measure::Micro(pane.selected_elevation.or_micro(0)),
        legacy_radar: None,
        site: pane.site.clone(),
        time_step_secs: pane.time_step_secs,
        time_link: pane.time_link,
        viewport_link: pane.viewport_link,
        layer_link: pane.layer_link,
        draw_order: copy_kinds(&pane.draw_order),
        enabled_overlays: copy_enabled(&pane.enabled_overlays),
        overlay_configs: copy_configs(&pane.overlay_configs),
        zoom: Some(Measure::Micro(pane.viewport.zoom())),
        center: pane.viewport.detached(),
        content: content_config(&pane.content),
    }
}

/// Whether `after` is a viewport put back where it was left. A zoom that no map
/// can show is passed over, and a file without one leaves the zoom alone.
pub open spec fn viewport_restored(
    before: Viewport,
    zoom: Option<Measure>,
    center: Option<MapPoint>,
    after: Viewport,
) -> bool {
    &&& after.level() == if zoom is Some && zoom_in_range(zoom->0) {
        zoom->0.micro()
    } else {
        before.level()
    }
    &&& after.middle() == if center is Some {
        center
    } else {
        before.middle()
    }
}

/// Put a viewport back where it was left.
fn restore_viewport(viewport: &mut Viewport, saved: &PaneConfig)
    ensures
        viewport_restored(*old(viewport), saved.zoom, saved.center, *final(viewport)),
{
    match saved.zoom {
        Some(zoom) => {
            let _ = viewport.set_zoom(zoom);
        },
        None => {},
    }
    match saved.center {
        Some(point) => {
            viewport.center_at(point);
        },
        None => {},
    }
}

/// Whether `after` is a pane with what was saved of it put back, in a layout of
/// `pane_count` panes. `site` is the file's own site, for a pane saved without
/// one.
pub open spec fn pane_restored(
    before: PaneState,
    saved: PaneConfig,
    site: Seq<char>,
    pane_count: usize,
    after: PaneState,
) -> bool {
    &&& after == (PaneState {
        selected_product: saved.selected_product,
        selected_elevation: saved.selected_elevation,
        site: after.site,
        time_step_secs: saved.time_step_secs,
        time_link: saved.time_link,
        viewport_link: saved.viewport_link,
        layer_link: saved.layer_link,
        draw_order: after.draw_order,
        enabled_overlays: after.enabled_overlays,
        overlay_configs: after.overlay_configs,
        viewport: after.viewport,
        content: after.content,
        loop_state: after.loop_state,
        ..before
    })
    &&& after.site@ == if saved.site@.len() > 0 {
        saved.site@
    } else if site.len() > 0 {
        site
    } else {
        before.site@
    }
    &&& after.draw_order@ == reconciled(saved.draw_order@)
    &&& after.enabled_overlays@ == if saved.enabled_overlays@ == Map::<OverlayKind, bool>::empty() {
        before.enabled_overlays@
    } else {
        saved.enabled_overlays@
    }
    &&& after.overlay_configs@ == if saved.overlay_configs@ == Map::<
        OverlayKind,
        LayerSetting,
    >::empty() {
        before.overlay_configs@
    } else {
        saved.overlay_configs@
    }
    &&& viewport_restored(before.viewport, saved.zoom, saved.center, after.viewport)
    &&& content_restored(saved.content, pane_count, after.content)
    &&& if before.content_ends_loop(after.content) {
        after.loop_state.is_fresh()
    } else {
        after.loop_state == before.loop_state
    }
}

/// Put back what was saved of a pane.
pub fn restore_pane(pane: &mut PaneState, saved: &PaneConfig, site: &String, pane_count: usize)
    ensures
        pane_restored(*old(pane), *saved, site@, pane_count, *final(pane)),
{
    pane.selected_product = saved.selected_product;
    pane.selected_elevation = saved.selected_elevation;
    if !saved.site.as_str().is_empty() {
        pane.site = saved.site.clone();
    } else if !site.as_str().is_empty() {
        pane.site = site.clone();
    }
    pane.time_step_secs = saved.time_step_secs;
    pane.time_link = saved.time_link;
    pane.viewport_link = saved.viewport_link;
    pane.layer_link = saved.layer_link;
    pane.set_content(restore_content(&saved.content, pane_count));
    pane.draw_order = reconcile_draw_order(&saved.draw_order);
    if !saved.enabled_overlays.is_empty() {
        pane.enabled_overlays = copy_enabled(&saved.enabled_overlays);
    }
    if !saved.overlay_configs.is_empty() {
        pane.overlay_configs = copy_configs(&saved.overlay_configs);
    }
    let mut viewport: Viewport = pane.viewport;
    restore_viewport(&mut viewport, saved);
    pane.viewport = viewport;
}

/// What a pane looks at comes back from a save onto a pane of any state: its
/// site, selection, time posture, links, layers, zoom and kind; and its draw
/// order, where that holds every layer.
pub proof fn law_pane_comes_back(
    pane: PaneState,
    saved: PaneConfig,
    before: PaneState,
    site: Seq<char>,
    pane_count: usize,
    after: PaneState,
)
    requires
        pane_saved(pane, saved),
        pane_restored(before, saved, site, pane_count, after),
        sound_content(pane.content),
        0 <= pane.viewport.level() <= crate::viewport::MAX_ZOOM,
        pane.site@.len() > 0,
        pane.enabled_overlays@ != Map::<OverlayKind, bool>::empty(),
        pane.overlay_configs@ != Map::<OverlayKind, LayerSetting>::empty(),
    ensures
        after.site@ == pane.site@,
        after.selected_product == pane.selected_product,
        after.selected_elevation == pane.selected_elevation.mended(0),
        after.time_step_secs == pane.time_step_secs,
        after.time_link == pane.time_link,
        after.viewport_link == pane.viewport_link,
        after.layer_link == pane.layer_link,
        after.enabled_overlays@ == pane.enabled_overlays@,
        after.overlay_configs@ == pane.overlay_configs@,
        after.viewport.level() == pane.viewport.level(),
        pane.viewport.middle() is Some ==> after.viewport.middle() == pane.viewport.middle(),
        came_back(pane.content, pane_count, after.content),
        (forall|kind: OverlayKind| #[trigger] pane.draw_order@.contains(kind))
            ==> after.draw_order@ == pane.draw_order@,
{
    law_content_comes_back(pane.content, pane_count, after.content);
    if forall|kind: OverlayKind| #[trigger] pane.draw_order@.contains(kind) {
        law_complete_order_stands(pane.draw_order@);
    }
}

/// What a pane asks comes back from a save: a section is cut along the same line, a
/// 3D view looks at the same region through the same camera in the same way, and
/// each remembers its map while the layout has it. No picture is saved.
pub proof fn law_what_a_pane_asks_comes_back(
    content: PaneContent,
    pane_count: usize,
    restored: PaneContent,
)
    requires
        sound_content(content),
        content_restored(saved_content(content), pane_count, restored),
    ensures
        content is MapView ==> restored is MapView,
        content matches PaneContent::CrossSection(section) ==> {
            &&& restored is CrossSection
            &&& restored->CrossSection_0.line == section.line
            &&& section.source_pane matches Some(idx) ==> {
                &&& idx < pane_count ==> restored->CrossSection_0.source_pane == Some(idx)
                &&& idx >= pane_count ==> restored->CrossSection_0.source_pane is None
            }
            &&& section.source_pane is None ==> restored->CrossSection_0.source_pane is None
            &&& restored->CrossSection_0.section is None
            &&& restored->CrossSection_0.texture is None
            &&& restored->CrossSection_0.rendered_for is None
        },
        content matches PaneContent::Volume(volume) ==> {
            &&& restored is Volume
            &&& restored->Volume_0.region == volume.region
            &&& restored->Volume_0.camera@ == volume.camera@
            &&& restored->Volume_0.view_mode == volume.view_mode
            &&& volume.source_pane matches Some(idx) ==> {
                &&& idx < pane_count ==> restored->Volume_0.source_pane == Some(idx)
                &&& idx >= pane_count ==> restored->Volume_0.source_pane is None
            }
            &&& volume.source_pane is None ==> restored->Volume_0.source_pane is None
            &&& restored->Volume_0.rendered_for is None
        },
{
    law_content_comes_back(content, pane_count, restored);
}

/// What a file says of a pane that cannot be used falls back to a map: a kind without
/// its state, a line that cannot be cut, a camera that is no number. A region that
/// cannot be used costs the region alone.
pub proof fn law_unusable_content_is_a_map(
    saved: ContentConfig,
    pane_count: usize,
    restored: PaneContent,
)
    requires
        content_restored(saved, pane_count, restored),
    ensures
        saved.kind == PaneKind::MapView ==> restored is MapView,
        saved.kind == PaneKind::CrossSection && saved.cross_section is None ==> restored
            is MapView,
        saved.kind == PaneKind::CrossSection && saved.cross_section is Some ==> {
            let line = saved.cross_section->0.line;
            &&& line is None ==> restored is CrossSection && restored->CrossSection_0.line is None
            &&& line is Some && SectionLine::cuttable(line->0.a, line->0.b) ==> {
                &&& restored is CrossSection
                &&& restored->CrossSection_0.line is Some
                &&& restored->CrossSection_0.line->0.from() == line->0.a
                &&& restored->CrossSection_0.line->0.to() == line->0.b
            }
            &&& line is Some && !SectionLine::cuttable(line->0.a, line->0.b) ==> restored
                is MapView
        },
        saved.kind == PaneKind::Volume && saved.volume is None ==> restored is MapView,
        saved.kind == PaneKind::Volume && saved.volume is Some ==> {
            let view = saved.volume->0;
            let broken = view.yaw_deg is NotFinite || view.pitch_deg is NotFinite
                || view.eye_distance is NotFinite || view.vertical_exaggeration is NotFinite
                || view.pivot.x is NotFinite || view.pivot.y is NotFinite || view.pivot.z
                is NotFinite;
            &&& broken ==> restored is MapView
            &&& !broken ==> restored is Volume && restored->Volume_0.view_mode == view.view_mode
                && restored->Volume_0.camera@.legal()
            &&& !broken && (view.region is None || view.region->0.half_width_km is NotFinite
                || !view.region->0.centre.on_earth()) ==> restored->Volume_0.region is None
            &&& !broken && view.region is Some && view.region->0.centre.on_earth()
                && view.region->0.half_width_km is Micro ==> {
                let width = view.region->0.half_width_km->Micro_0;
                &&& restored->Volume_0.region is Some
                &&& restored->Volume_0.region->0.middle() == view.region->0.centre
                &&& 10_000_000 <= width <= 230_000_000
                    ==> restored->Volume_0.region->0.half_width() == width
                &&& width < 10_000_000 ==> restored->Volume_0.region->0.half_width() == 10_000_000
                &&& width > 230_000_000 ==> restored->Volume_0.region->0.half_width()
                    == 230_000_000
            }
        },
{
    if saved.kind == PaneKind::Volume && saved.volume is Some && camera_usable(saved.volume->0) {
        let view = saved.volume->0;
        Pose::law_restore_keeps_what_is_in_range(
            view.yaw_deg.micro(),
            view.pitch_deg.micro(),
            view.eye_distance.micro(),
            view.pivot,
            view.vertical_exaggeration.micro(),
        );
    }
}

/// A map is put back to the zoom and the centre that were saved; a zoom that no map
/// can show, and a file without either, leave what was there.
pub proof fn law_map_goes_back_to_where_it_was(
    before: Viewport,
    zoom: Option<Measure>,
    center: Option<MapPoint>,
    after: Viewport,
)
    requires
        viewport_restored(before, zoom, center, after),
    ensures
        zoom matches Some(Measure::Micro(level)) ==> {
            &&& 0 <= level <= 26_000_000 ==> after.level() == level
            &&& level < 0 || level > 26_000_000 ==> after.level() == before.level()
        },
        zoom is None || zoom == Some(Measure::NotFinite) ==> after.level() == before.level(),
        center matches Some(place) ==> after.middle() == Some(place),
        center is None ==> after.middle() == before.middle(),
{
}

/// What is read back of a pane is what its entry says: the site of the pane, else of
/// the file, else its own; the layers that were saved, or its own where none were.
/// Its scan and its pictures stay.
pub proof fn law_pane_reads_its_entry(
    before: PaneState,
    saved: PaneConfig,
    site: Seq<char>,
    pane_count: usize,
    after: PaneState,
)
    requires
        pane_restored(before, saved, site, pane_count, after),
    ensures
        saved.site@.len() > 0 ==> after.site@ == saved.site@,
        saved.site@.len() == 0 && site.len() > 0 ==> after.site@ == site,
        saved.site@.len() == 0 && site.len() == 0 ==> after.site@ == before.site@,
        after.selected_product == saved.selected_product,
        after.selected_elevation == saved.selected_elevation,
        after.time_step_secs == saved.time_step_secs,
        after.time_link == saved.time_link,
        after.viewport_link == saved.viewport_link,
        after.layer_link == saved.layer_link,
        saved.enabled_overlays@ != Map::<OverlayKind, bool>::empty() ==> after.enabled_overlays@
            == saved.enabled_overlays@,
        saved.enabled_overlays@ == Map::<OverlayKind, bool>::empty() ==> after.enabled_overlays@
            == before.enabled_overlays@,
        saved.overlay_configs@ != Map::<OverlayKind, LayerSetting>::empty()
            ==> after.overlay_configs@ == saved.overlay_configs@,
        saved.overlay_configs@ == Map::<OverlayKind, LayerSetting>::empty()
            ==> after.overlay_configs@ == before.overlay_configs@,
        after.scan_info == before.scan_info,
        after.data_time == before.data_time,
        after.overlay_textures == before.overlay_textures,
        after.viewing_live == before.viewing_live,
        after.content is Volume ==> !after.loop_state.active(),
        after.content.kind_of() != before.content.kind_of() ==> !after.loop_state.active(),
{
}

/// Kinds of layer that a saved draw order lacks come behind it in their own order.
pub proof fn law_missing_layers_come_last(saved: Seq<OverlayKind>, i: int, j: int)
    requires
        saved.len() <= i < j < reconciled(saved).len(),
    ensures
        reconciled(saved)[i].place() < reconciled(saved)[j].place(),
        !saved.contains(reconciled(saved)[i]),
{
    reveal(all_overlays);
    lemma_missing_in_order(saved, all_overlays().len() as int);
}

proof fn lemma_missing_in_order(list: Seq<OverlayKind>, n: int)
    requires
        0 <= n <= all_overlays().len(),
    ensures
        list.is_prefix_of(with_missing(list, n)),
        forall|i: int|
            list.len() <= i < with_missing(list, n).len() ==> (#[trigger] with_missing(
                list,
                n,
            )[i]).place() < n && !list.contains(with_missing(list, n)[i]),
        forall|i: int, j: int|
            list.len() <= i < j < with_missing(list, n).len() ==> (#[trigger] with_missing(
                list,
                n,
            )[i]).place() < (#[trigger] with_missing(list, n)[j]).place(),
    decreases n,
{
    if n > 0 {
        lemma_missing_in_order(list, n - 1);
        let before = with_missing(list, n - 1);
        let after = with_missing(list, n);
        let kind = all_overlays()[n - 1];
        assert(kind.place() == n - 1) by {
            reveal(all_overlays);
        }
        if !before.contains(kind) {
            assert(after == before.push(kind));
            assert(!list.contains(kind)) by {
                if list.contains(kind) {
                    let k = list.index_of(kind);
                    assert(before[k] == kind);
                }
            }
            assert forall|i: int| list.len() <= i < after.len() implies (
            #[trigger] after[i]).place() < n && !list.contains(after[i]) by {
                if i < before.len() {
                    assert(after[i] == before[i]);
                }
            }
            assert forall|i: int, j: int| list.len() <= i < j < after.len() implies (
            #[trigger] after[i]).place() < (#[trigger] after[j]).place() by {
                assert(after[i] == before[i]);
                if j < before.len() {
                    assert(after[j] == before[j]);
                }
            }
        }
    }
}

/// A pane that a file says nothing of is a linked map of reflectivity with its radar on, of
/// no site of its own, ten minutes to a step.
pub proof fn law_unsaid_pane_is_a_linked_map(saved: PaneConfig)
    requires
        saved.is_default(),
    ensures
        saved.selected_product == RadarProduct::Reflectivity,
        saved.selected_elevation == Measure::Micro(0),
        saved.legacy_radar == Some(true),
        saved.site@.len() == 0,
        saved.time_step_secs == 600,
        saved.time_link && saved.viewport_link && saved.layer_link,
        saved.zoom is None && saved.center is None,
        saved.content.kind == PaneKind::MapView,
        reconciled(saved.draw_order@) == saved.draw_order@,
{
    assert forall|kind: OverlayKind| #[trigger] saved.draw_order@.contains(kind) by {
        kind.law_all_is_complete();
    }
    law_complete_order_stands(saved.draw_order@);
}

} // verus!
