//! The saved form of the whole interface, and reading it back.

use vstd::prelude::*;
use crate::actions::RadarConfig;
use crate::config::{
    pane_config, pane_restored, pane_saved, restore_pane, PaneConfig, PaneConfigFacts,
};
use crate::gui::{
    seeded, CatalogState, FeedState, Gui, RadarState, Settings, StormMotionOverride,
    MAX_PANES_ABSOLUTE,
};
use crate::kinds::RadarProduct;
use crate::layout::{even_arrangement, PaneLayout};
use crate::measure::{clamped, Measure};
use crate::overlays::{
    switched, ConfigMap, LayerHandlers, LayerSetting, OverlayKind,
};
use crate::pane::PaneState;
use crate::poll::AutoPollState;
use crate::presets::{mended_presets, preset_facts, PresetConfig, PresetFacts};
use crate::scan::{lemma_ranked_holds_same, ranked, sort_by_rank, ProductRanks};
use crate::table::Table;

verus! {

/// How many entries a transparency curve has.
pub const CURVE_LEN: usize = 256;

/// One product's transparency curve, as saved. `None` is a product this build
/// does not know.
pub struct VolumeAlphaConfig {
    pub product: Option<RadarProduct>,
    pub alpha: Vec<u8>,
}

/// One product's surface threshold, as saved.
#[derive(Clone, Copy, Debug, PartialEq, Eq, Structural)]
pub struct VolumeIsoConfig {
    pub product: Option<RadarProduct>,
    /// Millionths of the product's unit.
    pub threshold: Measure,
}

/// The interface, as saved.
pub struct UiConfig {
    pub pane_count: usize,
    pub active_pane: usize,
    pub viewport_sync: bool,
    pub sync_layers: bool,
    pub auto_poll: bool,
    pub live_chunks: bool,
    pub chunk_notifications: bool,
    pub notifier_endpoint: String,
    pub site: String,
    pub loop_lookback_secs: u64,
    pub loop_speed_fps: Measure,
    pub time_step_secs: i64,
    pub panes: Vec<PaneConfig>,
    pub preferences: String,
    /// What the layers' handlers held.
    pub overlay_states: ConfigMap,
    pub gps_config: String,
    pub storm_motion_override: StormMotionOverride,
    pub presets: Vec<PresetConfig>,
    pub volume_alpha: Vec<VolumeAlphaConfig>,
    pub volume_iso: Vec<VolumeIsoConfig>,
    pub pin_pane_controls: bool,
}

/// What a saved interface says.
pub struct UiConfigFacts {
    pub pane_count: usize,
    pub active_pane: usize,
    pub viewport_sync: bool,
    pub sync_layers: bool,
    pub auto_poll: bool,
    pub live_chunks: bool,
    pub chunk_notifications: bool,
    pub notifier_endpoint: Seq<char>,
    pub site: Seq<char>,
    pub loop_lookback_secs: u64,
    pub loop_speed_fps: Measure,
    pub time_step_secs: i64,
    pub panes: Seq<PaneConfigFacts>,
    pub preferences: Seq<char>,
    pub overlay_states: Map<OverlayKind, LayerSetting>,
    pub gps_config: Seq<char>,
    pub storm_motion_override: StormMotionOverride,
    pub presets: Seq<PresetFacts>,
    pub volume_alpha: Seq<(Option<RadarProduct>, Seq<u8>)>,
    pub volume_iso: Seq<VolumeIsoConfig>,
    pub pin_pane_controls: bool,
}

/// The curves of a saved list, as plain bytes.
pub open spec fn alpha_facts(
    saved: Seq<VolumeAlphaConfig>,
) -> Seq<(Option<RadarProduct>, Seq<u8>)> {
    saved.map_values(|c: VolumeAlphaConfig| (c.product, c.alpha@))
}

impl View for UiConfig {
    type V = UiConfigFacts;

    open spec fn view(&self) -> UiConfigFacts {
        UiConfigFacts {
            pane_count: self.pane_count,
            active_pane: self.active_pane,
            viewport_sync: self.viewport_sync,
            sync_layers: self.sync_layers,
            auto_poll: self.auto_poll,
            live_chunks: self.live_chunks,
            chunk_notifications: self.chunk_notifications,
            notifier_endpoint: self.notifier_endpoint@,
            site: self.site@,
            loop_lookback_secs: self.loop_lookback_secs,
            loop_speed_fps: self.loop_speed_fps,
            time_step_secs: self.time_step_secs,
            panes: self.panes@.map_values(|p: PaneConfig| p@),
            preferences: self.preferences@,
            overlay_states: self.overlay_states@,
            gps_config: self.gps_config@,
            storm_motion_override: self.storm_motion_override,
            presets: preset_facts(self.presets@),
            volume_alpha: alpha_facts(self.volume_alpha@),
            volume_iso: self.volume_iso@,
            pin_pane_controls: self.pin_pane_controls,
        }
    }
}

impl Default for UiConfig {
    fn default() -> (r: Self)
        ensures
            r.pane_count == 1,
            r.active_pane == 0,
            r.viewport_sync,
            r.sync_layers,
            r.auto_poll,
            r.live_chunks,
            r.chunk_notifications,
            r.notifier_endpoint@.len() == 0,
            r.site@ == "KTLX"@,
            r.loop_lookback_secs == 3600,
            r.loop_speed_fps == Measure::Micro(5_000_000),
            r.time_step_secs == 600,
            r.panes@.len() == 1,
            r.panes@[0].is_default(),
            r.preferences@.len() == 0,
            r.overlay_states@ == Map::<OverlayKind, LayerSetting>::empty(),
            r.gps_config@.len() == 0,
            r.storm_motion_override == (StormMotionOverride {
                enabled: false,
                speed_kt: Measure::Micro(30_000_000),
                direction_deg: Measure::Micro(240_000_000),
            }),
            r.presets@.len() == 0,
            r.volume_alpha@.len() == 0,
            r.volume_iso@.len() == 0,
            !r.pin_pane_controls,
    {
        let mut panes: Vec<PaneConfig> = Vec::new();
        panes.push(PaneConfig::default());
        UiConfig {
            pane_count: 1,
            active_pane: 0,
            viewport_sync: true,
            sync_layers: true,
            auto_poll: true,
            live_chunks: true,
            chunk_notifications: true,
            notifier_endpoint: String::new(),
            site: String::from_str("KTLX"),
            loop_lookback_secs: 3600,
            loop_speed_fps: Measure::Micro(5_000_000),
            time_step_secs: 600,
            panes,
            preferences: String::new(),
            overlay_states: Table::new(),
            gps_config: String::new(),
            storm_motion_override: StormMotionOverride::default(),
            presets: Vec::new(),
            volume_alpha: Vec::new(),
            volume_iso: Vec::new(),
            pin_pane_controls: false,
        }
    }
}

/// Whether `saved` lists the curves of a table, in order of product code.
pub open spec fn alpha_saved(
    table: Table<RadarProduct, Vec<u8>>,
    codes: ProductRanks,
    saved: Seq<VolumeAlphaConfig>,
) -> bool {
    exists|order: Seq<RadarProduct>| #[trigger]
        ranked(table.keys(), order, codes@) && {
            &&& saved.len() == order.len()
            &&& forall|i: int|
                0 <= i < saved.len() ==> (#[trigger] saved[i]).product == Some(order[i])
                    && saved[i].alpha@ == table@[order[i]]@
        }
}

/// Whether `saved` lists the thresholds of a table, in order of product code.
pub open spec fn iso_saved(
    table: Table<RadarProduct, i64>,
    codes: ProductRanks,
    saved: Seq<VolumeIsoConfig>,
) -> bool {
    exists|order: Seq<RadarProduct>| #[trigger]
        ranked(table.keys(), order, codes@) && {
            &&& saved.len() == order.len()
            &&& forall|i: int|
                0 <= i < saved.len() ==> #[trigger] saved[i] == (VolumeIsoConfig {
                    product: Some(order[i]),
                    threshold: Measure::Micro(table@[order[i]]),
                })
        }
}

/// The products of a table, in order of product code.
fn sorted_products<V>(table: &Table<RadarProduct, V>, codes: &ProductRanks) -> (r: Vec<
    RadarProduct,
>)
    ensures
        ranked(table.keys(), r@, codes@),
        forall|i: int| 0 <= i < r@.len() ==> table@.contains_key(#[trigger] r@[i]),
        table.wf(),
{
    let n: usize = table.len();
    let mut keys: Vec<RadarProduct> = Vec::new();
    let mut i: usize = 0;
    while i < n
        invariant
            i <= n,
            n == table.keys().len(),
            keys@ == table.keys().take(i as int),
        decreases n - i,
    {
        keys.push(table.key_at(i));
        assert(keys@ =~= table.keys().take(i + 1));
        i = i + 1;
    }
    assert(table.keys().take(i as int) =~= table.keys());
    let sorted: Vec<RadarProduct> = sort_by_rank(&keys, codes);
    proof {
        table.law_keys();
        assert forall|k: int| 0 <= k < sorted@.len() implies table@.contains_key(
            #[trigger] sorted@[k],
        ) by {
            assert(sorted@.contains(sorted@[k]));
            lemma_ranked_holds_same(table.keys(), sorted@, codes@, sorted@[k]);
            assert(table.keys().contains(sorted@[k]));
        }
    }
    sorted
}

fn save_alpha(table: &Table<RadarProduct, Vec<u8>>, codes: &ProductRanks) -> (r: Vec<
    VolumeAlphaConfig,
>)
    ensures
        alpha_saved(*table, *codes, r@),
{
    let order: Vec<RadarProduct> = sorted_products(table, codes);
    let mut r: Vec<VolumeAlphaConfig> = Vec::new();
    let mut i: usize = 0;
    while i < order.len()
        invariant
            i <= order@.len(),
            r@.len() == i,
            forall|k: int| 0 <= k < order@.len() ==> table@.contains_key(#[trigger] order@[k]),
            forall|k: int|
                0 <= k < i ==> (#[trigger] r@[k]).product == Some(order@[k]) && r@[k].alpha@
                    == table@[order@[k]]@,
        decreases order@.len() - i,
    {
        let alpha: Vec<u8> = match table.get(order[i]) {
            Some(curve) => curve.clone(),
            None => Vec::new(),
        };
        r.push(VolumeAlphaConfig { product: Some(order[i]), alpha });
        i = i + 1;
    }
    assert(ranked(table.keys(), order@, codes@));
    r
}

fn save_iso(table: &Table<RadarProduct, i64>, codes: &ProductRanks) -> (r: Vec<VolumeIsoConfig>)
    ensures
        iso_saved(*table, *codes, r@),
{
    let order: Vec<RadarProduct> = sorted_products(table, codes);
    let mut r: Vec<VolumeIsoConfig> = Vec::new();
    let mut i: usize = 0;
    while i < order.len()
        invariant
            i <= order@.len(),
            r@.len() == i,
            forall|k: int| 0 <= k < order@.len() ==> table@.contains_key(#[trigger] order@[k]),
            forall|k: int|
                0 <= k < i ==> #[trigger] r@[k] == (VolumeIsoConfig {
                    product: Some(order@[k]),
                    threshold: Measure::Micro(table@[order@[k]]),
                }),
        decreases order@.len() - i,
    {
        let threshold: i64 = match table.get(order[i]) {
            Some(threshold) => *threshold,
            None => 0,
        };
        r.push(
            VolumeIsoConfig { product: Some(order[i]), threshold: Measure::Micro(threshold) },
        );
        i = i + 1;
    }
    assert(ranked(table.keys(), order@, codes@));
    r
}

/// The curves of a table, as plain bytes.
pub open spec fn curves_of(table: Map<RadarProduct, Vec<u8>>) -> Map<RadarProduct, Seq<u8>> {
    table.map_values(|v: Vec<u8>| v@)
}

/// The curves that the first `n` saved entries leave. An entry for a product
/// this build does not know is dropped, and so is one of another length; the
/// first byte is the one for no data, and stays transparent.
pub open spec fn alpha_loaded(
    saved: Seq<VolumeAlphaConfig>,
    n: int,
) -> Map<RadarProduct, Seq<u8>>
    decreases n,
{
    if n <= 0 {
        Map::empty()
    } else {
        let before = alpha_loaded(saved, n - 1);
        let entry = saved[n - 1];
        if entry.product is Some && entry.alpha@.len() == CURVE_LEN {
            before.insert(entry.product->0, entry.alpha@.update(0, 0u8))
        } else {
            before
        }
    }
}

/// The thresholds that the first `n` saved entries leave. One that is no number
/// is dropped.
pub open spec fn iso_loaded(saved: Seq<VolumeIsoConfig>, n: int) -> Map<RadarProduct, i64>
    decreases n,
{
    if n <= 0 {
        Map::empty()
    } else {
        let before = iso_loaded(saved, n - 1);
        let entry = saved[n - 1];
        if entry.product is Some && entry.threshold.finite() {
            before.insert(entry.product->0, entry.threshold.micro() as i64)
        } else {
            before
        }
    }
}

fn load_alpha(saved: &Vec<VolumeAlphaConfig>) -> (r: Table<RadarProduct, Vec<u8>>)
    ensures
        curves_of(r@) == alpha_loaded(saved@, saved@.len() as int),
{
    let mut r: Table<RadarProduct, Vec<u8>> = Table::new();
    let mut i: usize = 0;
    assert(curves_of(r@) =~= alpha_loaded(saved@, 0));
    while i < saved.len()
        invariant
            i <= saved@.len(),
            curves_of(r@) == alpha_loaded(saved@, i as int),
        decreases saved@.len() - i,
    {
        match saved[i].product {
            Some(product) => {
                if saved[i].alpha.len() == CURVE_LEN {
                    let mut curve: Vec<u8> = saved[i].alpha.clone();
                    curve.set(0, 0);
                    let ghost before = r@;
                    r.insert(product, curve);
                    assert(curves_of(r@) =~= curves_of(before).insert(product, curve@));
                }
            },
            None => {},
        }
        i = i + 1;
    }
    r
}

fn load_iso(saved: &Vec<VolumeIsoConfig>) -> (r: Table<RadarProduct, i64>)
    ensures
        r@ == iso_loaded(saved@, saved@.len() as int),
{
    let mut r: Table<RadarProduct, i64> = Table::new();
    let mut i: usize = 0;
    while i < saved.len()
        invariant
            i <= saved@.len(),
            r@ == iso_loaded(saved@, i as int),
        decreases saved@.len() - i,
    {
        match (saved[i].product, saved[i].threshold) {
            (Some(product), Measure::Micro(threshold)) => {
                r.insert(product, threshold);
            },
            _ => {},
        }
        i = i + 1;
    }
    r
}

/// A copy of a list of presets.
fn copy_presets(from: &Vec<PresetConfig>) -> (r: Vec<PresetConfig>)
    ensures
        preset_facts(r@) == preset_facts(from@),
{
    let mut r: Vec<PresetConfig> = Vec::new();
    let mut i: usize = 0;
    while i < from.len()
        invariant
            i <= from@.len(),
            r@.len() == i,
            forall|k: int| 0 <= k < i ==> (#[trigger] r@[k])@ == from@[k]@,
        decreases from@.len() - i,
    {
        r.push(from[i].clone());
        i = i + 1;
    }
    assert(preset_facts(r@) =~= preset_facts(from@));
    r
}

/// The saved form of a list of presets.
fn save_presets(from: &Vec<PresetConfig>) -> (r: Vec<PresetConfig>)
    ensures
        preset_facts(r@) == mended_presets(from@),
{
    let mut r: Vec<PresetConfig> = Vec::new();
    let mut i: usize = 0;
    while i < from.len()
        invariant
            i <= from@.len(),
            r@.len() == i,
            forall|k: int| 0 <= k < i ==> (#[trigger] r@[k])@ == from@[k]@.mended(),
        decreases from@.len() - i,
    {
        r.push(from[i].to_saved());
        i = i + 1;
    }
    assert(preset_facts(r@) =~= mended_presets(from@));
    r
}

/// The saved form of every pane.
fn save_panes(panes: &Vec<PaneState>) -> (r: Vec<PaneConfig>)
    ensures
        r@.len() == panes@.len(),
        forall|i: int| 0 <= i < panes@.len() ==> pane_saved(panes@[i], #[trigger] r@[i]),
{
    let mut r: Vec<PaneConfig> = Vec::new();
    let mut i: usize = 0;
    while i < panes.len()
        invariant
            i <= panes@.len(),
            r@.len() == i,
            forall|k: int| 0 <= k < i ==> pane_saved(panes@[k], #[trigger] r@[k]),
        decreases panes@.len() - i,
    {
        r.push(pane_config(&panes[i]));
        i = i + 1;
    }
    r
}

impl Gui {
    /// Whether `saved` is the saved form of this interface. Every pane that is
    /// remembered is in it, shown or not, and no number in it is anything but a
    /// number.
    pub open spec fn config_saved(self, saved: UiConfig) -> bool {
        &&& saved.pane_count == self.pane_layout@.count
        &&& saved.active_pane == self.active_pane
        &&& saved.viewport_sync == self.settings.viewport_sync
        &&& saved.sync_layers == self.settings.sync_layers
        &&& saved.auto_poll == self.auto_poll.enabled
        &&& saved.live_chunks == self.feed.live_chunks
        &&& saved.chunk_notifications == self.feed.chunk_notifications
        &&& saved.notifier_endpoint@ == self.feed.notifier_endpoint@
        &&& saved.site@ == self.radar.config.site@
        &&& saved.loop_lookback_secs == self.settings.loop_lookback_secs
        &&& saved.loop_speed_fps == if self.settings.loop_speed_fps.finite() {
            self.settings.loop_speed_fps
        } else {
            Measure::Micro(5_000_000)
        }
        &&& saved.time_step_secs == if self.panes@.len() > 0 {
            self.panes@[0].time_step_secs
        } else {
            600
        }
        &&& saved.panes@.len() == self.panes@.len()
        &&& forall|i: int|
            0 <= i < self.panes@.len() ==> pane_saved(self.panes@[i], #[trigger] saved.panes@[i])
        &&& saved.preferences@ == self.settings.preferences@
        &&& saved.overlay_states@ == self.overlays.settings@
        &&& saved.gps_config@ == self.settings.gps_config@
        &&& saved.storm_motion_override == self.settings.storm_motion_override.saved()
        &&& preset_facts(saved.presets@) == mended_presets(self.catalog.presets@)
        &&& alpha_saved(self.settings.volume_alpha, self.codes, saved.volume_alpha@)
        &&& iso_saved(self.settings.volume_iso, self.codes, saved.volume_iso@)
        &&& saved.pin_pane_controls == self.settings.pin_pane_controls
    }

    /// The configuration this interface would save.
    pub fn ui_config(&self) -> (r: UiConfig)
        ensures
            self.config_saved(r),
    {
        let loop_speed_fps: Measure = if self.settings.loop_speed_fps.is_finite() {
            self.settings.loop_speed_fps
        } else {
            Measure::Micro(5_000_000)
        };
        let time_step_secs: i64 = if self.panes.len() > 0 {
            self.panes[0].time_step_secs
        } else {
            600
        };
        UiConfig {
            pane_count: self.pane_layout.pane_count(),
            active_pane: self.active_pane,
            viewport_sync: self.settings.viewport_sync,
            sync_layers: self.settings.sync_layers,
            auto_poll: self.auto_poll.enabled,
            live_chunks: self.feed.live_chunks,
            chunk_notifications: self.feed.chunk_notifications,
            notifier_endpoint: self.feed.notifier_endpoint.clone(),
            site: self.radar.config.site.clone(),
            loop_lookback_secs: self.settings.loop_lookback_secs,
            loop_speed_fps,
            time_step_secs,
            panes: save_panes(&self.panes),
            preferences: self.settings.preferences.clone(),
            overlay_states: self.overlays.save_pane_configs(),
            gps_config: self.settings.gps_config.clone(),
            storm_motion_override: self.settings.storm_motion_override.to_saved(),
            presets: save_presets(&self.catalog.presets),
            volume_alpha: save_alpha(&self.settings.volume_alpha, &self.codes),
            volume_iso: save_iso(&self.settings.volume_iso, &self.codes),
            pin_pane_controls: self.settings.pin_pane_controls,
        }
    }
}

/// How many panes a saved interface is read back with: what was saved, as far as
/// any width could offer it. A narrow screen does not narrow the file.
pub open spec fn loaded_count(saved: UiConfig) -> int {
    clamped(saved.pane_count as int, 1, MAX_PANES_ABSOLUTE as int)
}

/// The site a pane that was not there yet is born on.
pub open spec fn birth_site(saved: UiConfig, i: int) -> Seq<char> {
    if i < saved.panes@.len() {
        saved.panes@[i].site@
    } else {
        saved.site@
    }
}

/// Whether `after` is what a saved interface makes of the `i`-th pane, which was
/// `before`.
pub open spec fn pane_loaded(
    before: PaneState,
    saved: UiConfig,
    i: int,
    after: PaneState,
) -> bool {
    if i < saved.panes@.len() {
        pane_restored(
            before,
            saved.panes@[i],
            saved.site@,
            loaded_count(saved) as usize,
            after,
        )
    } else {
        after == (PaneState { time_step_secs: saved.time_step_secs, ..before })
    }
}

/// Whether `after` is what a saved interface makes of a pane that was not there.
pub open spec fn pane_born(saved: UiConfig, i: int, after: PaneState) -> bool {
    exists|fresh: PaneState| #[trigger]
        fresh.is_initial(birth_site(saved, i)) && pane_loaded(fresh, saved, i, after)
}

/// Whether `after` are the panes a saved interface makes of `before`.
pub open spec fn panes_loaded(
    before: Seq<PaneState>,
    saved: UiConfig,
    after: Seq<PaneState>,
) -> bool {
    let count = loaded_count(saved);
    &&& after.len() == if before.len() < count {
        count as nat
    } else {
        before.len()
    }
    &&& forall|i: int|
        0 <= i < count ==> if i < before.len() {
            pane_loaded(before[i], saved, i, #[trigger] after[i])
        } else {
            pane_born(saved, i, after[i])
        }
    &&& forall|i: int| count <= i < before.len() ==> #[trigger] after[i] == before[i]
}

/// Load one pane.
fn load_pane(pane: &mut PaneState, saved: &UiConfig, i: usize, count: usize)
    requires
        count == loaded_count(*saved),
    ensures
        pane_loaded(*old(pane), *saved, i as int, *final(pane)),
{
    if i < saved.panes.len() {
        restore_pane(pane, &saved.panes[i], &saved.site, count);
    } else {
        pane.time_step_secs = saved.time_step_secs;
    }
}

/// Add the panes that a saved interface has and this one does not.
fn bear_panes(panes: &mut Vec<PaneState>, saved: &UiConfig, count: usize)
    ensures
        final(panes)@.len() == if old(panes)@.len() < count {
            count as nat
        } else {
            old(panes)@.len()
        },
        old(panes)@.is_prefix_of(final(panes)@),
        forall|i: int|
            old(panes)@.len() <= i < final(panes)@.len() ==> {
                (#[trigger] final(panes)@[i]).is_initial(birth_site(*saved, i))
            },
{
    while panes.len() < count
        invariant
            old(panes)@.is_prefix_of(panes@),
            panes@.len() == old(panes)@.len() || panes@.len() <= count,
            forall|i: int|
                old(panes)@.len() <= i < panes@.len() ==> (#[trigger] panes@[i]).is_initial(
                    birth_site(*saved, i),
                ),
        decreases count - panes@.len(),
    {
        let i: usize = panes.len();
        let site: String = if i < saved.panes.len() {
            saved.panes[i].site.clone()
        } else {
            saved.site.clone()
        };
        let ghost before = panes@;
        panes.push(PaneState::with_site(site));
        proof {
            assert forall|k: int| old(panes)@.len() <= k < panes@.len() implies (
            #[trigger] panes@[k]).is_initial(birth_site(*saved, k)) by {
                if k < before.len() {
                    assert(panes@[k] == before[k]);
                }
            }
        }
    }
}

/// Load every pane.
fn load_panes(panes: &mut Vec<PaneState>, saved: &UiConfig, count: usize)
    requires
        count == loaded_count(*saved),
    ensures
        panes_loaded(old(panes)@, *saved, final(panes)@),
{
    bear_panes(panes, saved, count);
    let ghost born = panes@;
    let mut i: usize = 0;
    while i < count
        invariant
            i <= count <= panes@.len(),
            count == loaded_count(*saved),
            panes@.len() == born.len(),
            forall|k: int| 0 <= k < i ==> pane_loaded(born[k], *saved, k, #[trigger] panes@[k]),
            forall|k: int| i <= k < panes@.len() ==> #[trigger] panes@[k] == born[k],
        decreases count - i,
    {
        load_pane(&mut panes[i], saved, i, count);
        i = i + 1;
    }
    proof {
        let before = old(panes)@;
        assert forall|k: int| 0 <= k < count implies if k < before.len() {
            pane_loaded(before[k], *saved, k, #[trigger] panes@[k])
        } else {
            pane_born(*saved, k, panes@[k])
        } by {
            assert(pane_loaded(born[k], *saved, k, panes@[k]));
            if k < before.len() {
                assert(born[k] == before[k]);
            } else {
                assert(born[k].is_initial(birth_site(*saved, k)));
            }
        }
    }
}

/// The radar switch of files from before layers were saved by handler: the first
/// that one of the first `n` panes has.
pub open spec fn legacy_radar(saved: Seq<PaneConfig>, n: int) -> Option<bool>
    decreases n,
{
    if n <= 0 {
        None
    } else {
        match legacy_radar(saved, n - 1) {
            Some(enabled) => Some(enabled),
            None => if n - 1 < saved.len() {
                saved[n - 1].legacy_radar
            } else {
                None
            },
        }
    }
}

fn find_legacy_radar(saved: &Vec<PaneConfig>, count: usize) -> (r: Option<bool>)
    ensures
        r == legacy_radar(saved@, count as int),
{
    let mut found: Option<bool> = None;
    let mut i: usize = 0;
    while i < count
        invariant
            i <= count,
            found == legacy_radar(saved@, i as int),
        decreases count - i,
    {
        if found.is_none() && i < saved.len() {
            found = saved[i].legacy_radar;
        }
        i = i + 1;
    }
    found
}

/// Whether `after` is what a saved interface makes of the layers' handlers.
pub open spec fn handlers_loaded(
    before: LayerHandlers,
    saved: UiConfig,
    after: LayerHandlers,
) -> bool {
    let legacy = legacy_radar(saved.panes@, loaded_count(saved));
    &&& after == (LayerHandlers { settings: after.settings, ..before })
    &&& if saved.overlay_states@ != Map::<OverlayKind, LayerSetting>::empty() {
        after.settings@ == before.settings@.union_prefer_right(saved.overlay_states@)
    } else if legacy is Some {
        switched(before.settings@, OverlayKind::Radar, legacy->0, after.settings@)
    } else {
        after.settings@ == before.settings@
    }
}

fn load_handlers(handlers: &mut LayerHandlers, saved: &UiConfig, count: usize)
    requires
        count == loaded_count(*saved),
    ensures
        handlers_loaded(*old(handlers), *saved, *final(handlers)),
{
    if !saved.overlay_states.is_empty() {
        handlers.load_pane_configs(&saved.overlay_states);
    } else {
        match find_legacy_radar(&saved.panes, count) {
            Some(enabled) => {
                handlers.set_enabled(OverlayKind::Radar, enabled);
            },
            None => {},
        }
    }
}

/// Whether `after` is what a saved interface makes of the settings.
pub open spec fn settings_loaded(before: Settings, saved: UiConfig, after: Settings) -> bool {
    &&& after.viewport_sync == saved.viewport_sync
    &&& after.sync_layers == saved.sync_layers
    &&& after.loop_lookback_secs == saved.loop_lookback_secs
    &&& after.loop_speed_fps == saved.loop_speed_fps
    &&& after.pin_pane_controls == saved.pin_pane_controls
    &&& after.preferences@ == saved.preferences@
    &&& after.gps_config@ == saved.gps_config@
    &&& after.storm_motion_override == saved.storm_motion_override
    &&& after.storm_motion_editing == before.storm_motion_editing
    &&& curves_of(after.volume_alpha@) == alpha_loaded(
        saved.volume_alpha@,
        saved.volume_alpha@.len() as int,
    )
    &&& after.volume_iso@ == iso_loaded(saved.volume_iso@, saved.volume_iso@.len() as int)
}

fn load_settings(before: &Settings, saved: &UiConfig) -> (r: Settings)
    ensures
        settings_loaded(*before, *saved, r),
{
    Settings {
        viewport_sync: saved.viewport_sync,
        sync_layers: saved.sync_layers,
        loop_lookback_secs: saved.loop_lookback_secs,
        loop_speed_fps: saved.loop_speed_fps,
        pin_pane_controls: saved.pin_pane_controls,
        preferences: saved.preferences.clone(),
        gps_config: saved.gps_config.clone(),
        storm_motion_override: saved.storm_motion_override,
        storm_motion_editing: before.storm_motion_editing,
        volume_alpha: load_alpha(&saved.volume_alpha),
        volume_iso: load_iso(&saved.volume_iso),
    }
}

impl Gui {
    /// Whether `after` is this interface once a saved one is read into it.
    pub open spec fn config_loaded(self, saved: UiConfig, after: Gui) -> bool {
        let count = loaded_count(saved);
        &&& after == (Gui {
            radar: after.radar,
            auto_poll: AutoPollState { enabled: saved.auto_poll, ..self.auto_poll },
            feed: after.feed,
            overlays: after.overlays,
            panes: after.panes,
            active_pane: if saved.active_pane < count {
                saved.active_pane
            } else {
                0
            },
            pane_layout: after.pane_layout,
            catalog: after.catalog,
            settings: after.settings,
            ..self
        })
        &&& after.radar == (RadarState {
            config: RadarConfig { site: after.radar.config.site, ..self.radar.config },
            ..self.radar
        })
        &&& after.radar.config.site@ == if saved.site@.len() > 0 {
            saved.site@
        } else {
            self.radar.config.site@
        }
        &&& after.feed == (FeedState {
            live_chunks: saved.live_chunks,
            chunk_notifications: saved.chunk_notifications,
            notifier_endpoint: after.feed.notifier_endpoint,
            ..self.feed
        })
        &&& after.feed.notifier_endpoint@ == saved.notifier_endpoint@
        &&& handlers_loaded(self.overlays, saved, after.overlays)
        &&& exists|panes: Seq<PaneState>| #[trigger]
            panes_loaded(self.panes@, saved, panes) && after.panes@.len() == panes.len()
                && forall|i: int|
                0 <= i < panes.len() ==> seeded(
                    panes[i],
                    after.overlays,
                    #[trigger] after.panes@[i],
                )
        &&& after.pane_layout@ == even_arrangement(count)
        &&& after.catalog == (CatalogState { presets: after.catalog.presets, ..self.catalog })
        &&& preset_facts(after.catalog.presets@) == preset_facts(saved.presets@)
        &&& settings_loaded(self.settings, saved, after.settings)
    }

    /// Read a saved interface into this one.
    pub fn load_ui_config(&mut self, saved: &UiConfig)
        ensures
            old(self).config_loaded(*saved, *final(self)),
            final(self).wf(),
    {
        let count: usize = if saved.pane_count < 1 {
            1
        } else if saved.pane_count > MAX_PANES_ABSOLUTE {
            MAX_PANES_ABSOLUTE
        } else {
            saved.pane_count
        };
        load_panes(&mut self.panes, saved, count);
        let ghost panes = self.panes@;
        self.pane_layout = PaneLayout::for_count(count);
        self.active_pane =
        if saved.active_pane < count {
            saved.active_pane
        } else {
            0
        };
        self.auto_poll.enabled = saved.auto_poll;
        self.load_rest(saved);
        load_handlers(&mut self.overlays, saved, count);
        self.initialize_pane_enabled();
        assert(panes_loaded(old(self).panes@, *saved, panes));
    }

    /// Read the saved site, feed, settings and presets.
    fn load_rest(&mut self, saved: &UiConfig)
        ensures
            *final(self) == (Gui {
                radar: final(self).radar,
                feed: final(self).feed,
                catalog: final(self).catalog,
                settings: final(self).settings,
                ..*old(self)
            }),
            final(self).radar == (RadarState {
                config: RadarConfig {
                    site: final(self).radar.config.site,
                    ..old(self).radar.config
                },
                ..old(self).radar
            }),
            final(self).radar.config.site@ == if saved.site@.len() > 0 {
                saved.site@
            } else {
                old(self).radar.config.site@
            },
            final(self).feed == (FeedState {
                live_chunks: saved.live_chunks,
                chunk_notifications: saved.chunk_notifications,
                notifier_endpoint: final(self).feed.notifier_endpoint,
                ..old(self).feed
            }),
            final(self).feed.notifier_endpoint@ == saved.notifier_endpoint@,
            final(self).catalog == (CatalogState {
                presets: final(self).catalog.presets,
                ..old(self).catalog
            }),
            preset_facts(final(self).catalog.presets@) == preset_facts(saved.presets@),
            settings_loaded(old(self).settings, *saved, final(self).settings),
    {
        if !saved.site.as_str().is_empty() {
            self.radar.config.site = saved.site.clone();
        }
        self.feed.live_chunks = saved.live_chunks;
        self.feed.chunk_notifications = saved.chunk_notifications;
        self.feed.notifier_endpoint = saved.notifier_endpoint.clone();
        self.catalog.presets = copy_presets(&saved.presets);
        let settings: Settings = load_settings(&self.settings, saved);
        self.settings = settings;
    }
}

/// What was set comes back: a save read into any interface brings its layout,
/// its switches, its feed settings, its site and its presets. A number that was
/// none comes back as its default.
pub proof fn law_settings_come_back(before: Gui, saved: UiConfig, other: Gui, after: Gui)
    requires
        before.pane_layout@.valid(),
        before.config_saved(saved),
        other.config_loaded(saved, after),
    ensures
        after.pane_layout@.count == before.pane_layout@.count,
        before.active_pane < before.pane_layout@.count ==> after.active_pane == before.active_pane,
        after.settings.viewport_sync == before.settings.viewport_sync,
        after.settings.sync_layers == before.settings.sync_layers,
        after.settings.loop_lookback_secs == before.settings.loop_lookback_secs,
        after.settings.loop_speed_fps == if before.settings.loop_speed_fps.finite() {
            before.settings.loop_speed_fps
        } else {
            Measure::Micro(5_000_000)
        },
        after.settings.pin_pane_controls == before.settings.pin_pane_controls,
        after.settings.preferences@ == before.settings.preferences@,
        after.settings.gps_config@ == before.settings.gps_config@,
        after.settings.storm_motion_override == before.settings.storm_motion_override.saved(),
        after.auto_poll.enabled == before.auto_poll.enabled,
        after.feed.live_chunks == before.feed.live_chunks,
        after.feed.chunk_notifications == before.feed.chunk_notifications,
        after.feed.notifier_endpoint@ == before.feed.notifier_endpoint@,
        before.radar.config.site@.len() > 0 ==> after.radar.config.site@
            == before.radar.config.site@,
        preset_facts(after.catalog.presets@) == mended_presets(before.catalog.presets@),
{
}

/// No number that is none outlives a save: the speed, the storm motion and each
/// shown pane's tilt come back as they were where they are numbers, and as their
/// defaults where they are not.
pub proof fn law_numbers_come_back_mended(
    before: Gui,
    saved: UiConfig,
    other: Gui,
    after: Gui,
    i: int,
)
    requires
        before.pane_layout@.valid(),
        before.config_saved(saved),
        other.config_loaded(saved, after),
        0 <= i < before.pane_layout@.count,
        i < before.panes@.len(),
    ensures
        after.settings.loop_speed_fps == before.settings.loop_speed_fps.mended(5_000_000),
        after.settings.storm_motion_override.speed_kt
            == before.settings.storm_motion_override.speed_kt.mended(30_000_000),
        after.settings.storm_motion_override.direction_deg
            == before.settings.storm_motion_override.direction_deg.mended(240_000_000),
        i < after.panes@.len(),
        after.panes@[i].selected_elevation == before.panes@[i].selected_elevation.mended(0),
{
    let panes = choose|panes: Seq<PaneState>| #[trigger]
        panes_loaded(other.panes@, saved, panes) && after.panes@.len() == panes.len() && forall|
            k: int,
        |
            0 <= k < panes.len() ==> seeded(panes[k], after.overlays, #[trigger] after.panes@[k]);
    assert(pane_saved(before.panes@[i], saved.panes@[i]));
    assert(i < panes.len());
    assert(seeded(panes[i], after.overlays, after.panes@[i]));
    if i < other.panes@.len() {
        assert(pane_loaded(other.panes@[i], saved, i, panes[i]));
    } else {
        assert(pane_born(saved, i, panes[i]));
    }
}

/// What the shown panes look at comes back: read into any interface, the `i`-th
/// pane has the site, the selection, the time posture, the links, the layers,
/// the zoom and the kind it was saved with.
pub proof fn law_panes_come_back(before: Gui, saved: UiConfig, other: Gui, after: Gui, i: int)
    requires
        before.pane_layout@.valid(),
        before.config_saved(saved),
        other.config_loaded(saved, after),
        0 <= i < before.pane_layout@.count,
        i < before.panes@.len(),
        crate::config::sound_content(before.panes@[i].content),
        0 <= before.panes@[i].viewport.level() <= crate::viewport::MAX_ZOOM,
        before.panes@[i].site@.len() > 0,
        before.panes@[i].enabled_overlays@ != Map::<OverlayKind, bool>::empty(),
        before.panes@[i].overlay_configs@ != Map::<OverlayKind, LayerSetting>::empty(),
    ensures
        i < after.panes@.len(),
        ({
            let pane = before.panes@[i];
            let back = after.panes@[i];
            &&& back.site@ == pane.site@
            &&& back.selected_product == pane.selected_product
            &&& back.selected_elevation == pane.selected_elevation.mended(0)
            &&& back.time_step_secs == pane.time_step_secs
            &&& back.time_link == pane.time_link
            &&& back.viewport_link == pane.viewport_link
            &&& back.layer_link == pane.layer_link
            &&& back.viewport.level() == pane.viewport.level()
            &&& pane.viewport.middle() is Some ==> back.viewport.middle()
                == pane.viewport.middle()
            &&& crate::config::came_back(
                pane.content,
                before.pane_layout@.count as usize,
                back.content,
            )
            &&& (forall|kind: OverlayKind| #[trigger] pane.draw_order@.contains(kind))
                ==> back.draw_order@ == pane.draw_order@
            &&& back.overlay_configs@ == pane.overlay_configs@
            &&& forall|kind: OverlayKind| #[trigger]
                pane.enabled_overlays@.contains_key(kind) ==> back.overlay_on(kind)
                    == pane.overlay_on(kind)
        }),
{
    let panes = choose|panes: Seq<PaneState>| #[trigger]
        panes_loaded(other.panes@, saved, panes) && after.panes@.len() == panes.len() && forall|
            k: int,
        |
            0 <= k < panes.len() ==> seeded(panes[k], after.overlays, #[trigger] after.panes@[k]);
    let pane = before.panes@[i];
    let count = loaded_count(saved) as usize;
    assert(count == before.pane_layout@.count);
    assert(pane_saved(pane, saved.panes@[i]));
    assert(i < panes.len());
    assert(seeded(panes[i], after.overlays, after.panes@[i]));
    if i < other.panes@.len() {
        assert(pane_loaded(other.panes@[i], saved, i, panes[i]));
        crate::config::law_pane_comes_back(
            pane,
            saved.panes@[i],
            other.panes@[i],
            saved.site@,
            count,
            panes[i],
        );
    } else {
        assert(pane_born(saved, i, panes[i]));
        let fresh = choose|fresh: PaneState| #[trigger]
            fresh.is_initial(birth_site(saved, i)) && pane_loaded(fresh, saved, i, panes[i]);
        crate::config::law_pane_comes_back(
            pane,
            saved.panes@[i],
            fresh,
            saved.site@,
            count,
            panes[i],
        );
    }
    let back = after.panes@[i];
    assert forall|kind: OverlayKind| #[trigger]
        pane.enabled_overlays@.contains_key(kind) implies back.overlay_on(kind)
        == pane.overlay_on(kind) by {
        assert(panes[i].enabled_overlays@.contains_key(kind));
    }
}

/// A saved curve that is among the first `n` is the one that is loaded, where
/// all entries for its product agree.
proof fn lemma_alpha_entry(
    saved: Seq<VolumeAlphaConfig>,
    n: int,
    product: RadarProduct,
    curve: Seq<u8>,
)
    requires
        0 <= n <= saved.len(),
        curve.len() == CURVE_LEN,
        curve[0] == 0,
        forall|k: int|
            0 <= k < n && (#[trigger] saved[k]).product == Some(product) ==> saved[k].alpha@
                == curve,
    ensures
        alpha_loaded(saved, n).contains_key(product) ==> alpha_loaded(saved, n)[product] == curve,
        alpha_loaded(saved, n).contains_key(product) <==> exists|k: int|
            0 <= k < n && (#[trigger] saved[k]).product == Some(product),
    decreases n,
{
    if n > 0 {
        lemma_alpha_entry(saved, n - 1, product, curve);
        let entry = saved[n - 1];
        if entry.product == Some(product) {
            assert(entry.alpha@.update(0, 0u8) =~= curve);
        }
    }
}

/// A transparency curve of the right length that leaves no data transparent
/// comes back from a save as it was drawn, and no product gets another's.
pub proof fn law_curves_come_back(
    table: Table<RadarProduct, Vec<u8>>,
    codes: ProductRanks,
    saved: Seq<VolumeAlphaConfig>,
    product: RadarProduct,
)
    requires
        table.wf(),
        alpha_saved(table, codes, saved),
        table@.contains_key(product) ==> table@[product]@.len() == CURVE_LEN
            && table@[product]@[0] == 0,
    ensures
        alpha_loaded(saved, saved.len() as int).contains_key(product) <==> table@.contains_key(
            product,
        ),
        table@.contains_key(product) ==> alpha_loaded(saved, saved.len() as int)[product]
            == table@[product]@,
{
    let order = choose|order: Seq<RadarProduct>| #[trigger]
        ranked(table.keys(), order, codes@) && {
            &&& saved.len() == order.len()
            &&& forall|i: int|
                0 <= i < saved.len() ==> (#[trigger] saved[i]).product == Some(order[i])
                    && saved[i].alpha@ == table@[order[i]]@
        };
    table.law_keys();
    lemma_ranked_holds_same(table.keys(), order, codes@, product);
    assert(table@.contains_key(product) <==> table.keys().contains(product));
    if table@.contains_key(product) {
        lemma_alpha_entry(saved, saved.len() as int, product, table@[product]@);
        let k = order.index_of(product);
        assert(saved[k].product == Some(product));
    } else {
        let stand_in = Seq::new(CURVE_LEN as nat, |i: int| 0u8);
        assert forall|k: int|
            0 <= k < saved.len() implies (#[trigger] saved[k]).product != Some(product) by {
            if order[k] == product {
                assert(order.contains(product));
            }
        }
        lemma_alpha_entry(saved, saved.len() as int, product, stand_in);
    }
}

proof fn lemma_iso_entry(
    saved: Seq<VolumeIsoConfig>,
    n: int,
    product: RadarProduct,
    threshold: i64,
)
    requires
        0 <= n <= saved.len(),
        forall|k: int|
            0 <= k < n && (#[trigger] saved[k]).product == Some(product) ==> saved[k].threshold
                == Measure::Micro(threshold),
    ensures
        iso_loaded(saved, n).contains_key(product) ==> iso_loaded(saved, n)[product] == threshold,
        iso_loaded(saved, n).contains_key(product) <==> exists|k: int|
            0 <= k < n && (#[trigger] saved[k]).product == Some(product),
    decreases n,
{
    if n > 0 {
        lemma_iso_entry(saved, n - 1, product, threshold);
    }
}

/// Every surface threshold comes back from a save as it was set, and no product
/// gets another's.
pub proof fn law_thresholds_come_back(
    table: Table<RadarProduct, i64>,
    codes: ProductRanks,
    saved: Seq<VolumeIsoConfig>,
)
    requires
        table.wf(),
        iso_saved(table, codes, saved),
    ensures
        iso_loaded(saved, saved.len() as int) == table@,
{
    let order = choose|order: Seq<RadarProduct>| #[trigger]
        ranked(table.keys(), order, codes@) && {
            &&& saved.len() == order.len()
            &&& forall|i: int|
                0 <= i < saved.len() ==> #[trigger] saved[i] == (VolumeIsoConfig {
                    product: Some(order[i]),
                    threshold: Measure::Micro(table@[order[i]]),
                })
        };
    table.law_keys();
    let loaded = iso_loaded(saved, saved.len() as int);
    assert forall|product: RadarProduct| #[trigger]
        loaded.contains_key(product) <==> table@.contains_key(product) by {
        lemma_ranked_holds_same(table.keys(), order, codes@, product);
        assert(table@.contains_key(product) <==> table.keys().contains(product));
        lemma_iso_entry(saved, saved.len() as int, product, table@[product]);
        if order.contains(product) {
            let k = order.index_of(product);
            assert(saved[k].product == Some(product));
        }
        if exists|k: int| 0 <= k < saved.len() && (#[trigger] saved[k]).product == Some(product) {
            let k = choose|k: int|
                0 <= k < saved.len() && (#[trigger] saved[k]).product == Some(product);
            assert(order[k] == product);
            assert(order.contains(product));
        }
    }
    assert forall|product: RadarProduct| #[trigger]
        loaded.contains_key(product) implies loaded[product] == table@[product] by {
        lemma_iso_entry(saved, saved.len() as int, product, table@[product]);
    }
    assert(loaded =~= table@);
}

/// A file that asks for no pane gets one, and one that asks for more than six gets
/// six; a pane in front that is not among them gives way to the first.
pub proof fn law_odd_counts_are_held(before: Gui, saved: UiConfig, after: Gui)
    requires
        before.config_loaded(saved, after),
    ensures
        1 <= saved.pane_count <= 6 ==> after.pane_layout@.count == saved.pane_count,
        saved.pane_count == 0 ==> after.pane_layout@.count == 1,
        saved.pane_count > 6 ==> after.pane_layout@.count == 6,
        saved.active_pane < after.pane_layout@.count ==> after.active_pane == saved.active_pane,
        saved.active_pane >= after.pane_layout@.count ==> after.active_pane == 0,
        after.panes@.len() >= after.pane_layout@.count,
        after.panes@.len() >= before.panes@.len(),
{
    let panes = choose|panes: Seq<PaneState>| #[trigger]
        panes_loaded(before.panes@, saved, panes) && after.panes@.len() == panes.len() && forall|
            k: int,
        |
            0 <= k < panes.len() ==> seeded(panes[k], after.overlays, #[trigger] after.panes@[k]);
    assert(panes.len() == after.panes@.len());
}

/// Reading a file sets what a file holds and nothing of the session: no gesture, no
/// open panel, no fetch, no position, no timer and no scan.
pub proof fn law_reading_keeps_the_session(before: Gui, saved: UiConfig, after: Gui, i: int)
    requires
        before.config_loaded(saved, after),
        0 <= i < before.panes@.len(),
    ensures
        after.gestures == before.gestures,
        after.panels == before.panels,
        after.popups == before.popups,
        after.features == before.features,
        after.time_dialog == before.time_dialog,
        after.location == before.location,
        after.platform == before.platform,
        after.map == before.map,
        after.ranks == before.ranks,
        after.codes == before.codes,
        after.radar.fetching == before.radar.fetching,
        after.radar.error_message == before.radar.error_message,
        after.radar.config.timestamp == before.radar.config.timestamp,
        after.auto_poll.last_fetch_time == before.auto_poll.last_fetch_time,
        after.auto_poll.initial_fetch_done == before.auto_poll.initial_fetch_done,
        after.auto_poll.interval_secs == before.auto_poll.interval_secs,
        after.auto_poll.enabled == saved.auto_poll,
        after.overlays.feeds == before.overlays.feeds,
        after.settings.storm_motion_editing == before.settings.storm_motion_editing,
        after.catalog.query == before.catalog.query,
        after.panes@[i].scan_info == before.panes@[i].scan_info,
        after.panes@[i].data_time == before.panes@[i].data_time,
        saved.site@.len() > 0 ==> after.radar.config.site@ == saved.site@,
        saved.site@.len() == 0 ==> after.radar.config.site@ == before.radar.config.site@,
{
    let panes = choose|panes: Seq<PaneState>| #[trigger]
        panes_loaded(before.panes@, saved, panes) && after.panes@.len() == panes.len() && forall|
            k: int,
        |
            0 <= k < panes.len() ==> seeded(panes[k], after.overlays, #[trigger] after.panes@[k]);
    assert(i < panes.len());
    assert(seeded(panes[i], after.overlays, after.panes@[i]));
    if i < loaded_count(saved) {
        assert(pane_loaded(before.panes@[i], saved, i, panes[i]));
    } else {
        assert(panes[i] == before.panes@[i]);
    }
}

/// A pane that the file does not reach keeps all it has, but for switches and settings
/// it lacked; one that the layout reaches and the file has no entry for takes the
/// file's time step.
pub proof fn law_panes_past_the_file_stay(before: Gui, saved: UiConfig, after: Gui, i: int)
    requires
        before.config_loaded(saved, after),
        0 <= i < before.panes@.len(),
        i >= saved.panes@.len() || i >= after.pane_layout@.count,
    ensures
        after.panes@[i] == (PaneState {
            time_step_secs: after.panes@[i].time_step_secs,
            enabled_overlays: after.panes@[i].enabled_overlays,
            overlay_configs: after.panes@[i].overlay_configs,
            ..before.panes@[i]
        }),
        i < after.pane_layout@.count ==> after.panes@[i].time_step_secs == saved.time_step_secs,
        i >= after.pane_layout@.count ==> after.panes@[i].time_step_secs
            == before.panes@[i].time_step_secs,
{
    let panes = choose|panes: Seq<PaneState>| #[trigger]
        panes_loaded(before.panes@, saved, panes) && after.panes@.len() == panes.len() && forall|
            k: int,
        |
            0 <= k < panes.len() ==> seeded(panes[k], after.overlays, #[trigger] after.panes@[k]);
    assert(i < panes.len());
    assert(seeded(panes[i], after.overlays, after.panes@[i]));
    if i < loaded_count(saved) {
        assert(pane_loaded(before.panes@[i], saved, i, panes[i]));
    } else {
        assert(panes[i] == before.panes@[i]);
    }
}

/// What the layers' handlers held comes back; a layer the file says nothing of keeps
/// what it had.
pub proof fn law_layer_settings_come_back(
    before: Gui,
    saved: UiConfig,
    other: Gui,
    after: Gui,
    kind: OverlayKind,
)
    requires
        before.config_saved(saved),
        other.config_loaded(saved, after),
    ensures
        before.overlays.settings@.contains_key(kind) ==> after.overlays.settings@.contains_key(kind)
            && after.overlays.settings@[kind] == before.overlays.settings@[kind],
        before.overlays.settings@ != Map::<OverlayKind, LayerSetting>::empty()
            && !before.overlays.settings@.contains_key(kind)
            ==> after.overlays.settings@.contains_key(kind)
            == other.overlays.settings@.contains_key(kind),
{
}

/// A file from before layers were saved by handler sets the radar by the first pane
/// that has a switch for it, and a newer one never looks there.
pub proof fn law_old_files_switch_the_radar(
    before: LayerHandlers,
    saved: UiConfig,
    after: LayerHandlers,
    i: int,
    other: OverlayKind,
)
    requires
        handlers_loaded(before, saved, after),
        0 <= i < saved.panes@.len(),
        i < saved.pane_count,
        i < 6,
        saved.panes@[i].legacy_radar is Some,
        forall|k: int| 0 <= k < i ==> (#[trigger] saved.panes@[k]).legacy_radar is None,
    ensures
        saved.overlay_states@ == Map::<OverlayKind, LayerSetting>::empty() ==> {
            &&& after.settings@.contains_key(OverlayKind::Radar)
            &&& after.settings@[OverlayKind::Radar].enabled == saved.panes@[i].legacy_radar->0
            &&& other != OverlayKind::Radar && before.settings@.contains_key(other)
                ==> after.settings@.contains_key(other) && after.settings@[other]
                == before.settings@[other]
        },
        saved.overlay_states@.contains_key(other) ==> after.settings@.contains_key(other)
            && after.settings@[other] == saved.overlay_states@[other],
{
    let count = loaded_count(saved);
    lemma_legacy_none(saved.panes@, i);
    assert(legacy_radar(saved.panes@, i + 1) == saved.panes@[i].legacy_radar);
    lemma_legacy_stays(saved.panes@, i + 1, count);
    if saved.overlay_states@ == Map::<OverlayKind, LayerSetting>::empty() {
        crate::overlays::law_switching_touches_one_layer(
            before.settings@,
            OverlayKind::Radar,
            saved.panes@[i].legacy_radar->0,
            after.settings@,
            other,
        );
    }
}

proof fn lemma_legacy_none(saved: Seq<PaneConfig>, n: int)
    requires
        0 <= n <= saved.len(),
        forall|k: int| 0 <= k < n ==> (#[trigger] saved[k]).legacy_radar is None,
    ensures
        legacy_radar(saved, n) is None,
    decreases n,
{
    if n > 0 {
        lemma_legacy_none(saved, n - 1);
    }
}

proof fn lemma_legacy_stays(saved: Seq<PaneConfig>, m: int, n: int)
    requires
        0 <= m <= n,
        legacy_radar(saved, m) is Some,
    ensures
        legacy_radar(saved, n) == legacy_radar(saved, m),
    decreases n,
{
    if m < n {
        lemma_legacy_stays(saved, m, n - 1);
    }
}

/// The last usable entry for a product is the curve that is loaded, with no data kept
/// transparent; an entry without a product or of another length counts for nothing.
pub proof fn law_last_usable_curve_stands(
    saved: Seq<VolumeAlphaConfig>,
    entry: VolumeAlphaConfig,
    product: RadarProduct,
)
    ensures
        ({
            let before = alpha_loaded(saved, saved.len() as int);
            let after = alpha_loaded(saved.push(entry), saved.len() as int + 1);
            &&& entry.product is None || entry.alpha@.len() != 256 ==> after == before
            &&& entry.product is Some && entry.alpha@.len() == 256 ==> {
                let own = entry.product->0;
                &&& after.contains_key(own)
                &&& after[own].len() == 256
                &&& after[own][0] == 0
                &&& forall|k: int| 1 <= k < 256 ==> #[trigger] after[own][k] == entry.alpha@[k]
                &&& product != own ==> after.contains_key(product) == before.contains_key(product)
                &&& product != own && before.contains_key(product) ==> after[product]
                    == before[product]
            }
        }),
        alpha_loaded(saved, 0) == Map::<RadarProduct, Seq<u8>>::empty(),
{
    lemma_alpha_prefix(saved, entry, saved.len() as int);
}

proof fn lemma_alpha_prefix(saved: Seq<VolumeAlphaConfig>, entry: VolumeAlphaConfig, n: int)
    requires
        0 <= n <= saved.len(),
    ensures
        alpha_loaded(saved.push(entry), n) == alpha_loaded(saved, n),
    decreases n,
{
    if n > 0 {
        lemma_alpha_prefix(saved, entry, n - 1);
        assert(saved.push(entry)[n - 1] == saved[n - 1]);
    }
}

/// The last usable entry for a product is the threshold that is loaded; an entry
/// without a product or with what is no number counts for nothing.
pub proof fn law_last_usable_threshold_stands(
    saved: Seq<VolumeIsoConfig>,
    entry: VolumeIsoConfig,
    product: RadarProduct,
)
    ensures
        ({
            let before = iso_loaded(saved, saved.len() as int);
            let after = iso_loaded(saved.push(entry), saved.len() as int + 1);
            &&& entry.product is None || entry.threshold is NotFinite ==> after == before
            &&& entry.product is Some && entry.threshold is Micro ==> {
                let own = entry.product->0;
                &&& after.contains_key(own)
                &&& after[own] == entry.threshold->Micro_0
                &&& product != own ==> after.contains_key(product) == before.contains_key(product)
                &&& product != own && before.contains_key(product) ==> after[product]
                    == before[product]
            }
        }),
        iso_loaded(saved, 0) == Map::<RadarProduct, i64>::empty(),
{
    lemma_iso_prefix(saved, entry, saved.len() as int);
}

proof fn lemma_iso_prefix(saved: Seq<VolumeIsoConfig>, entry: VolumeIsoConfig, n: int)
    requires
        0 <= n <= saved.len(),
    ensures
        iso_loaded(saved.push(entry), n) == iso_loaded(saved, n),
    decreases n,
{
    if n > 0 {
        lemma_iso_prefix(saved, entry, n - 1);
        assert(saved.push(entry)[n - 1] == saved[n - 1]);
    }
}

/// The user's curves and thresholds come back whole from a save read into any
/// interface.
pub proof fn law_edited_products_come_back(
    before: Gui,
    saved: UiConfig,
    other: Gui,
    after: Gui,
    product: RadarProduct,
)
    requires
        before.settings.volume_alpha.wf(),
        before.settings.volume_iso.wf(),
        before.config_saved(saved),
        other.config_loaded(saved, after),
        before.settings.volume_alpha@.contains_key(product)
            ==> before.settings.volume_alpha@[product]@.len() == 256
            && before.settings.volume_alpha@[product]@[0] == 0,
    ensures
        after.settings.volume_alpha@.contains_key(product)
            == before.settings.volume_alpha@.contains_key(product),
        before.settings.volume_alpha@.contains_key(product)
            ==> after.settings.volume_alpha@[product]@ == before.settings.volume_alpha@[product]@,
        after.settings.volume_iso@ == before.settings.volume_iso@,
{
    law_curves_come_back(
        before.settings.volume_alpha,
        before.codes,
        saved.volume_alpha@,
        product,
    );
    law_thresholds_come_back(before.settings.volume_iso, before.codes, saved.volume_iso@);
    assert(curves_of(after.settings.volume_alpha@).contains_key(product)
        == after.settings.volume_alpha@.contains_key(product));
    if after.settings.volume_alpha@.contains_key(product) {
        assert(curves_of(after.settings.volume_alpha@)[product]
            == after.settings.volume_alpha@[product]@);
    }
}

/// Presets come back from a save under their names, with their panes and layers.
pub proof fn law_presets_come_back(before: Gui, saved: UiConfig, other: Gui, after: Gui, i: int)
    requires
        before.config_saved(saved),
        other.config_loaded(saved, after),
        0 <= i < before.catalog.presets@.len(),
    ensures
        after.catalog.presets@.len() == before.catalog.presets@.len(),
        after.catalog.presets@[i].name@ == before.catalog.presets@[i].name@,
        after.catalog.presets@[i].pane_count == before.catalog.presets@[i].pane_count,
        after.catalog.presets@[i].overlays@ == before.catalog.presets@[i].overlays@,
        after.catalog.presets@[i].panes@.len() == before.catalog.presets@[i].panes@.len(),
        forall|k: int|
            0 <= k < before.catalog.presets@[i].panes@.len() ==> {
                let was = before.catalog.presets@[i].panes@[k];
                let back = #[trigger] after.catalog.presets@[i].panes@[k];
                &&& back.product == was.product
                &&& was.elevation is Micro ==> back.elevation == was.elevation
                &&& was.elevation is NotFinite ==> back.elevation == Measure::Micro(0)
            },
{
    let facts = preset_facts(after.catalog.presets@);
    let wanted = mended_presets(before.catalog.presets@);
    assert(facts == wanted);
    assert(facts.len() == after.catalog.presets@.len());
    assert(facts[i] == after.catalog.presets@[i]@);
    assert(wanted[i] == before.catalog.presets@[i]@.mended());
    assert forall|k: int| 0 <= k < before.catalog.presets@[i].panes@.len() implies {
        let was = before.catalog.presets@[i].panes@[k];
        let back = #[trigger] after.catalog.presets@[i].panes@[k];
        &&& back.product == was.product
        &&& was.elevation is Micro ==> back.elevation == was.elevation
        &&& was.elevation is NotFinite ==> back.elevation == Measure::Micro(0)
    } by {
        assert(wanted[i].panes[k] == facts[i].panes[k]);
    }
}

} // verus!
