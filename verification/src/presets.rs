//! Saved multi-pane setups.

use vstd::prelude::*;
use crate::gui::{CatalogState, Gui};
use crate::kinds::RadarProduct;
use crate::measure::Measure;
use crate::overlays::{all_overlays, copy_kinds, OverlayKind};
use crate::pane::PaneState;
use crate::text::{decimal, decimal_text, trimmed, trimmed_text};

verus! {

/// The tilt of every built-in preset, in millionths of a degree.
pub const BASE_TILT: i64 = 500_000;

/// One pane of a preset: what it shows.
#[derive(Clone, Copy, Debug, PartialEq, Eq, Structural)]
pub struct PresetPane {
    pub product: RadarProduct,
    /// Degrees.
    pub elevation: Measure,
}

impl Default for PresetPane {
    fn default() -> (r: Self)
        ensures
            r == (PresetPane { product: RadarProduct::Reflectivity, elevation: Measure::Micro(0) }),
    {
        PresetPane { product: RadarProduct::Reflectivity, elevation: Measure::Micro(0) }
    }
}

/// One saved multi-pane setup: how many panes, what each shows, and which
/// layers the layout runs with.
pub struct PresetConfig {
    pub name: String,
    pub pane_count: usize,
    /// Product and tilt of each pane, in the order of the layout.
    pub panes: Vec<PresetPane>,
    /// The layers that are on, for every pane.
    pub overlays: Vec<OverlayKind>,
}

/// What a preset says.
pub struct PresetFacts {
    pub name: Seq<char>,
    pub pane_count: usize,
    pub panes: Seq<PresetPane>,
    pub overlays: Seq<OverlayKind>,
}

impl View for PresetConfig {
    type V = PresetFacts;

    open spec fn view(&self) -> PresetFacts {
        PresetFacts {
            name: self.name@,
            pane_count: self.pane_count,
            panes: self.panes@,
            overlays: self.overlays@,
        }
    }
}

impl Default for PresetConfig {
    fn default() -> (r: Self)
        ensures
            r@ == (PresetFacts {
                name: Seq::<char>::empty(),
                pane_count: 1,
                panes: Seq::<PresetPane>::empty(),
                overlays: Seq::<OverlayKind>::empty(),
            }),
    {
        PresetConfig {
            name: String::new(),
            pane_count: 1,
            panes: Vec::new(),
            overlays: Vec::new(),
        }
    }
}

impl Clone for PresetConfig {
    fn clone(&self) -> (r: Self)
        ensures
            r@ == self@,
    {
        let mut panes: Vec<PresetPane> = Vec::new();
        let mut i: usize = 0;
        while i < self.panes.len()
            invariant
                i <= self.panes@.len(),
                panes@ == self.panes@.take(i as int),
            decreases self.panes@.len() - i,
        {
            panes.push(self.panes[i]);
            assert(panes@ =~= self.panes@.take(i + 1));
            i = i + 1;
        }
        assert(self.panes@.take(i as int) =~= self.panes@);
        PresetConfig {
            name: self.name.clone(),
            pane_count: self.pane_count,
            panes,
            overlays: copy_kinds(&self.overlays),
        }
    }
}

/// A pane of a built-in preset.
pub open spec fn at_base(product: RadarProduct) -> PresetPane {
    PresetPane { product, elevation: Measure::Micro(BASE_TILT) }
}

/// Chasing severe convection.
pub open spec fn severe_preset() -> PresetFacts {
    PresetFacts {
        name: "Severe Wx"@,
        pane_count: 4,
        panes: seq![
            at_base(RadarProduct::Reflectivity),
            at_base(RadarProduct::Velocity),
            at_base(RadarProduct::StormRelativeVelocity),
            at_base(RadarProduct::NormalizedRotation),
        ],
        overlays: seq![
            OverlayKind::Radar,
            OverlayKind::SpcOutlook,
            OverlayKind::SpcDiscussions,
            OverlayKind::NwsAlerts,
            OverlayKind::StormReports,
            OverlayKind::CityLabels,
            OverlayKind::ColorScale,
        ],
    }
}

/// Watching rain fall and add up.
pub open spec fn rainfall_preset() -> PresetFacts {
    PresetFacts {
        name: "Rainfall"@,
        pane_count: 2,
        panes: seq![
            at_base(RadarProduct::PrecipitationRate),
            at_base(RadarProduct::VerticallyIntegratedLiquid),
        ],
        overlays: seq![
            OverlayKind::Radar,
            OverlayKind::NwsAlerts,
            OverlayKind::CityLabels,
            OverlayKind::ColorScale,
        ],
    }
}

/// Flying around weather.
pub open spec fn aviation_preset() -> PresetFacts {
    PresetFacts {
        name: "Aviation"@,
        pane_count: 3,
        panes: seq![
            at_base(RadarProduct::Reflectivity),
            at_base(RadarProduct::EchoTops),
            at_base(RadarProduct::SpectrumWidth),
        ],
        overlays: seq![
            OverlayKind::Radar,
            OverlayKind::Metar,
            OverlayKind::Lightning,
            OverlayKind::CityLabels,
            OverlayKind::ColorScale,
        ],
    }
}

/// The built-in presets.
pub fn builtin_presets() -> (r: Vec<PresetConfig>)
    ensures
        r@.len() == 3,
        r@[0]@ == severe_preset(),
        r@[1]@ == rainfall_preset(),
        r@[2]@ == aviation_preset(),
{
    let severe = PresetConfig {
        name: String::from_str("Severe Wx"),
        pane_count: 4,
        panes: vec![
            PresetPane { product: RadarProduct::Reflectivity, elevation: Measure::Micro(BASE_TILT) },
            PresetPane { product: RadarProduct::Velocity, elevation: Measure::Micro(BASE_TILT) },
            PresetPane { product: RadarProduct::StormRelativeVelocity, elevation: Measure::Micro(BASE_TILT) },
            PresetPane { product: RadarProduct::NormalizedRotation, elevation: Measure::Micro(BASE_TILT) },
        ],
        overlays: vec![
            OverlayKind::Radar,
            OverlayKind::SpcOutlook,
            OverlayKind::SpcDiscussions,
            OverlayKind::NwsAlerts,
            OverlayKind::StormReports,
            OverlayKind::CityLabels,
            OverlayKind::ColorScale,
        ],
    };
    let rainfall = PresetConfig {
        name: String::from_str("Rainfall"),
        pane_count: 2,
        panes: vec![
            PresetPane { product: RadarProduct::PrecipitationRate, elevation: Measure::Micro(BASE_TILT) },
            PresetPane {
                product: RadarProduct::VerticallyIntegratedLiquid,
                elevation: Measure::Micro(BASE_TILT),
            },
        ],
        overlays: vec![
            OverlayKind::Radar,
            OverlayKind::NwsAlerts,
            OverlayKind::CityLabels,
            OverlayKind::ColorScale,
        ],
    };
    let aviation = PresetConfig {
        name: String::from_str("Aviation"),
        pane_count: 3,
        panes: vec![
            PresetPane { product: RadarProduct::Reflectivity, elevation: Measure::Micro(BASE_TILT) },
            PresetPane { product: RadarProduct::EchoTops, elevation: Measure::Micro(BASE_TILT) },
            PresetPane { product: RadarProduct::SpectrumWidth, elevation: Measure::Micro(BASE_TILT) },
        ],
        overlays: vec![
            OverlayKind::Radar,
            OverlayKind::Metar,
            OverlayKind::Lightning,
            OverlayKind::CityLabels,
            OverlayKind::ColorScale,
        ],
    };
    proof {
        assert(severe.panes@ =~= severe_preset().panes);
        assert(severe.overlays@ =~= severe_preset().overlays);
        assert(rainfall.panes@ =~= rainfall_preset().panes);
        assert(rainfall.overlays@ =~= rainfall_preset().overlays);
        assert(aviation.panes@ =~= aviation_preset().panes);
        assert(aviation.overlays@ =~= aviation_preset().overlays);
    }
    vec![severe, rainfall, aviation]
}

/// The names with a middle dot between them.
pub open spec fn dotted(names: Seq<Seq<char>>) -> Seq<char>
    decreases names.len(),
{
    if names.len() == 0 {
        Seq::empty()
    } else if names.len() == 1 {
        names[0]
    } else {
        dotted(names.drop_last()) + " \u{b7} "@ + names.last()
    }
}

/// What a preset tile offers on hover: how many panes, and their products by
/// name.
pub open spec fn hover_words(pane_count: usize, names: Seq<Seq<char>>) -> Seq<char> {
    decimal(pane_count as nat) + " pane"@ + (if pane_count == 1 {
        ""@
    } else {
        "s"@
    }) + ": "@ + dotted(names)
}

/// What a preset tile offers on hover. `names` are the display names of its
/// panes' products, in order.
pub fn preset_hover(preset: &PresetConfig, names: &Vec<String>) -> (r: String)
    ensures
        r@ == hover_words(preset.pane_count, crate::schedule::texts(names@)),
{
    let mut r: String = decimal_text(preset.pane_count as u64);
    r.append(" pane");
    r.append(
        if preset.pane_count == 1 {
            ""
        } else {
            "s"
        },
    );
    r.append(": ");
    let mut list: String = String::new();
    let ghost all = crate::schedule::texts(names@);
    let mut i: usize = 0;
    assert(list@ =~= dotted(all.take(0)));
    while i < names.len()
        invariant
            i <= names@.len(),
            all == crate::schedule::texts(names@),
            list@ == dotted(all.take(i as int)),
        decreases names@.len() - i,
    {
        proof {
            assert(all.take(i + 1).drop_last() =~= all.take(i as int));
            assert(all.take(i + 1).last() == names@[i as int]@);
        }
        if i > 0 {
            list.append(" \u{b7} ");
        } else {
            assert(list@ =~= Seq::<char>::empty());
        }
        let ghost before = list@;
        list.append(names[i].as_str());
        proof {
            if i == 0 {
                assert(before + names@[0]@ =~= names@[0]@);
                assert(all.take(1)[0] == names@[0]@);
            }
        }
        i = i + 1;
    }
    assert(all.take(i as int) =~= all);
    r.append(list.as_str());
    r
}

/// Those of the first `n` kinds of layer that are on for a pane, in canonical
/// order.
pub open spec fn enabled_kinds(pane: PaneState, n: int) -> Seq<OverlayKind>
    decreases n,
{
    if n <= 0 {
        Seq::empty()
    } else {
        let before = enabled_kinds(pane, n - 1);
        let kind = all_overlays()[n - 1];
        if pane.overlay_on(kind) {
            before.push(kind)
        } else {
            before
        }
    }
}

/// Whether a kind is in the list of those that are on exactly when it is on.
pub(crate) proof fn lemma_enabled_kinds(pane: PaneState, n: int, kind: OverlayKind)
    requires
        0 <= n <= all_overlays().len(),
    ensures
        enabled_kinds(pane, n).contains(kind) <==> exists|k: int|
            0 <= k < n && #[trigger] all_overlays()[k] == kind && pane.overlay_on(kind),
    decreases n,
{
    if n > 0 {
        lemma_enabled_kinds(pane, n - 1, kind);
        let before = enabled_kinds(pane, n - 1);
        let now = enabled_kinds(pane, n);
        let last = all_overlays()[n - 1];
        if now.contains(kind) && !before.contains(kind) {
            let k = now.index_of(kind);
            assert(k == before.len());
        }
        if before.contains(kind) {
            let k = before.index_of(kind);
            assert(now[k] == kind);
        }
        if kind == last && pane.overlay_on(kind) {
            assert(now[before.len() as int] == kind);
        }
    }
}

/// Those layers that are on for a pane.
fn list_enabled(pane: &PaneState) -> (r: Vec<OverlayKind>)
    ensures
        r@ == enabled_kinds(*pane, all_overlays().len() as int),
{
    let kinds: Vec<OverlayKind> = OverlayKind::all();
    let mut r: Vec<OverlayKind> = Vec::new();
    let mut i: usize = 0;
    assert(r@ =~= enabled_kinds(*pane, 0));
    while i < kinds.len()
        invariant
            i <= kinds@.len(),
            kinds@ == all_overlays(),
            r@ == enabled_kinds(*pane, i as int),
        decreases kinds@.len() - i,
    {
        if pane.is_overlay_enabled(kinds[i]) {
            r.push(kinds[i]);
        }
        i = i + 1;
    }
    r
}

impl Gui {
    /// The current view as a preset: the pane count, what each shown pane shows,
    /// and the layers of the active pane.
    pub open spec fn captured(self, name: Seq<char>) -> PresetFacts {
        PresetFacts {
            name,
            pane_count: self.pane_layout@.count as usize,
            panes: self.shown_panes().map_values(
                |p: PaneState|
                    PresetPane {
                        product: p.selected_product,
                        elevation: p.selected_elevation.mended(0),
                    },
            ),
            overlays: enabled_kinds(
                self.panes@[self.active_pane as int],
                all_overlays().len() as int,
            ),
        }
    }

    /// The current view as a preset.
    pub fn capture_preset(&self, name: String) -> (r: PresetConfig)
        requires
            self.wf(),
        ensures
            r@ == self.captured(name@),
    {
        let count: usize = self.visible_pane_count();
        let mut panes: Vec<PresetPane> = Vec::new();
        let ghost wanted = self.captured(name@).panes;
        let mut i: usize = 0;
        while i < count
            invariant
                count == self.shown(),
                count <= self.panes@.len(),
                i <= count,
                wanted == self.captured(name@).panes,
                panes@ == wanted.take(i as int),
            decreases count - i,
        {
            let pane: &PaneState = &self.panes[i];
            assert(self.shown_panes()[i as int] == *pane);
            panes.push(
                PresetPane {
                    product: pane.selected_product,
                    elevation: Measure::Micro(pane.selected_elevation.or_micro(0)),
                },
            );
            assert(panes@ =~= wanted.take(i + 1));
            i = i + 1;
        }
        assert(wanted.take(i as int) =~= wanted);
        PresetConfig {
            name,
            pane_count: self.pane_layout.pane_count(),
            panes,
            overlays: list_enabled(&self.panes[self.active_pane]),
        }
    }
}

impl PresetFacts {
    /// This preset with a tilt of zero wherever a tilt is no number.
    pub open spec fn mended(self) -> PresetFacts {
        PresetFacts {
            panes: self.panes.map_values(
                |p: PresetPane| PresetPane { elevation: p.elevation.mended(0), ..p },
            ),
            ..self
        }
    }
}

impl PresetConfig {
    /// A copy of this preset as it is saved: every tilt that is no number is
    /// replaced by zero.
    pub fn to_saved(&self) -> (r: PresetConfig)
        ensures
            r@ == self@.mended(),
    {
        let mut panes: Vec<PresetPane> = Vec::new();
        let ghost wanted = self@.mended().panes;
        let mut i: usize = 0;
        while i < self.panes.len()
            invariant
                i <= self.panes@.len(),
                wanted == self@.mended().panes,
                panes@ == wanted.take(i as int),
            decreases self.panes@.len() - i,
        {
            let pane: PresetPane = self.panes[i];
            panes.push(
                PresetPane {
                    product: pane.product,
                    elevation: Measure::Micro(pane.elevation.or_micro(0)),
                },
            );
            assert(panes@ =~= wanted.take(i + 1));
            i = i + 1;
        }
        assert(wanted.take(i as int) =~= wanted);
        PresetConfig {
            name: self.name.clone(),
            pane_count: self.pane_count,
            panes,
            overlays: copy_kinds(&self.overlays),
        }
    }
}

/// What a list of presets says once it is saved.
pub open spec fn mended_presets(presets: Seq<PresetConfig>) -> Seq<PresetFacts> {
    presets.map_values(|p: PresetConfig| p@.mended())
}

/// What a list of presets says.
pub open spec fn preset_facts(presets: Seq<PresetConfig>) -> Seq<PresetFacts> {
    presets.map_values(|p: PresetConfig| p@)
}

/// The first preset of this name, if there is one.
pub open spec fn named(presets: Seq<PresetFacts>, name: Seq<char>) -> Option<int>
    decreases presets.len(),
{
    if presets.len() == 0 {
        None
    } else {
        match named(presets.drop_last(), name) {
            Some(i) => Some(i),
            None => if presets.last().name == name {
                Some(presets.len() - 1)
            } else {
                None
            },
        }
    }
}

/// The presets with one more: in place of the first of its name, or behind the
/// others.
pub open spec fn with_preset(presets: Seq<PresetFacts>, preset: PresetFacts) -> Seq<PresetFacts> {
    match named(presets, preset.name) {
        Some(i) => presets.update(i, preset),
        None => presets.push(preset),
    }
}

/// Whether no two presets have one name.
pub open spec fn names_differ(presets: Seq<PresetFacts>) -> bool {
    forall|i: int, j: int|
        0 <= i < j < presets.len() ==> (#[trigger] presets[i]).name != (#[trigger] presets[j]).name
}

proof fn lemma_named(presets: Seq<PresetFacts>, name: Seq<char>)
    ensures
        match named(presets, name) {
            Some(i) => {
                &&& 0 <= i < presets.len()
                &&& presets[i].name == name
                &&& forall|k: int| 0 <= k < i ==> (#[trigger] presets[k]).name != name
            },
            None => forall|k: int| 0 <= k < presets.len() ==> (#[trigger] presets[k]).name != name,
        },
    decreases presets.len(),
{
    if presets.len() > 0 {
        let front = presets.drop_last();
        lemma_named(front, name);
        assert forall|k: int| 0 <= k < front.len() implies front[k] == #[trigger] presets[k] by {}
    }
}

/// Saving under a name never makes two tiles of one name.
pub proof fn law_preset_names_differ(presets: Seq<PresetFacts>, preset: PresetFacts)
    requires
        names_differ(presets),
    ensures
        names_differ(with_preset(presets, preset)),
{
    lemma_named(presets, preset.name);
}

/// Where the first preset of this name is.
fn find_named(presets: &Vec<PresetConfig>, name: &String) -> (r: Option<usize>)
    ensures
        match r {
            Some(i) => i < presets@.len() && named(preset_facts(presets@), name@) == Some(i as int),
            None => named(preset_facts(presets@), name@) is None,
        },
{
    let ghost facts = preset_facts(presets@);
    let mut i: usize = 0;
    while i < presets.len()
        invariant
            i <= presets@.len(),
            facts == preset_facts(presets@),
            forall|k: int| 0 <= k < i ==> (#[trigger] facts[k]).name != name@,
        decreases presets@.len() - i,
    {
        assert(facts[i as int] == presets@[i as int]@);
        if presets[i].name == *name {
            proof {
                lemma_named(facts, name@);
            }
            return Some(i);
        }
        i = i + 1;
    }
    proof {
        lemma_named(facts, name@);
    }
    None
}

impl Gui {
    /// Whether saving the current view under the typed name leads to `after`.
    pub open spec fn view_saved(self, after: Gui) -> bool {
        let name = trimmed_text(self.catalog.save_name@);
        if name.len() == 0 {
            after == self
        } else {
            &&& preset_facts(after.catalog.presets@) == with_preset(
                preset_facts(self.catalog.presets@),
                self.captured(name),
            )
            &&& after.catalog.save_name@.len() == 0
            &&& after == (Gui {
                catalog: CatalogState {
                    presets: after.catalog.presets,
                    save_name: after.catalog.save_name,
                    saving: false,
                    ..self.catalog
                },
                ..self
            })
        }
    }

    /// Save the current view under the typed name, in place of a preset of that
    /// name. A blank name saves nothing.
    pub fn save_current_view(&mut self) -> (r: bool)
        requires
            old(self).wf(),
        ensures
            old(self).view_saved(*final(self)),
            r == (trimmed_text(old(self).catalog.save_name@).len() > 0),
            !r ==> *final(self) == *old(self),
            r ==> {
                &&& preset_facts(final(self).catalog.presets@) == with_preset(
                    preset_facts(old(self).catalog.presets@),
                    old(self).captured(trimmed_text(old(self).catalog.save_name@)),
                )
                &&& !final(self).catalog.saving
                &&& final(self).catalog.save_name@.len() == 0
                &&& *final(self) == (Gui {
                    catalog: CatalogState {
                        presets: final(self).catalog.presets,
                        save_name: final(self).catalog.save_name,
                        saving: false,
                        ..old(self).catalog
                    },
                    ..*old(self)
                })
            },
    {
        let name: String = String::from_str(trimmed(self.catalog.save_name.as_str()));
        if name.as_str().is_empty() {
            return false;
        }
        let preset: PresetConfig = self.capture_preset(name.clone());
        let ghost facts = preset_facts(self.catalog.presets@);
        match find_named(&self.catalog.presets, &name) {
            Some(i) => {
                self.catalog.presets.set(i, preset);
                assert(preset_facts(self.catalog.presets@) =~= facts.update(i as int, preset@));
            },
            None => {
                self.catalog.presets.push(preset);
                assert(preset_facts(self.catalog.presets@) =~= facts.push(preset@));
            },
        }
        self.catalog.saving = false;
        self.catalog.save_name = String::new();
        true
    }

    /// Delete one of the user's presets.
    pub fn delete_preset(&mut self, index: usize)
        requires
            index < old(self).catalog.presets@.len(),
        ensures
            final(self).catalog.presets@ == old(self).catalog.presets@.remove(index as int),
            *final(self) == (Gui {
                catalog: CatalogState {
                    presets: final(self).catalog.presets,
                    ..old(self).catalog
                },
                ..*old(self)
            }),
    {
        let _ = self.catalog.presets.remove(index);
    }
}

/// A view that is captured is what is on screen: as many panes as the layout has,
/// each with its product and its tilt, and the layers that the pane in front has on.
pub proof fn law_captured_view_is_on_screen(state: Gui, name: Seq<char>, i: int, kind: OverlayKind)
    requires
        state.wf(),
        0 <= state.pane_layout@.count <= usize::MAX,
        0 <= i < state.panes@.len(),
        i < state.pane_layout@.count,
    ensures
        ({
            let preset = state.captured(name);
            &&& preset.name == name
            &&& preset.pane_count == state.pane_layout@.count
            &&& preset.panes.len() == state.shown()
            &&& preset.panes[i].product == state.panes@[i].selected_product
            &&& state.panes@[i].selected_elevation is Micro ==> preset.panes[i].elevation
                == state.panes@[i].selected_elevation
            &&& state.panes@[i].selected_elevation is NotFinite ==> preset.panes[i].elevation
                == Measure::Micro(0)
            &&& preset.overlays.contains(kind) <==> state.panes@[
                state.active_pane as int
            ].overlay_on(kind)
        }),
{
    assert(state.shown_panes()[i] == state.panes@[i]);
    let active = state.panes@[state.active_pane as int];
    lemma_enabled_kinds(active, all_overlays().len() as int, kind);
    kind.law_all_is_complete();
    assert(all_overlays()[kind.place()] == kind);
}

/// A preset that is saved is found under its name, takes the place of one that had
/// it, and disturbs no preset of another name.
pub proof fn law_saved_preset_is_kept_under_its_name(
    presets: Seq<PresetFacts>,
    preset: PresetFacts,
    i: int,
)
    requires
        0 <= i < presets.len(),
    ensures
        with_preset(presets, preset).contains(preset),
        presets[i].name != preset.name ==> with_preset(presets, preset)[i] == presets[i],
        presets[i].name == preset.name ==> with_preset(presets, preset).len() == presets.len(),
        (forall|k: int| 0 <= k < presets.len() ==> (#[trigger] presets[k]).name != preset.name)
            ==> with_preset(presets, preset) == presets.push(preset),
{
    lemma_named(presets, preset.name);
    let after = with_preset(presets, preset);
    match named(presets, preset.name) {
        Some(k) => {
            assert(after[k] == preset);
        },
        None => {
            assert(after[presets.len() as int] == preset);
        },
    }
}

/// Saving under one name twice keeps the second view alone.
pub proof fn law_saving_again_replaces(
    presets: Seq<PresetFacts>,
    first: PresetFacts,
    second: PresetFacts,
)
    requires
        first.name == second.name,
        names_differ(presets),
    ensures
        with_preset(with_preset(presets, first), second).len() == with_preset(presets, first).len(),
        with_preset(with_preset(presets, first), second).contains(second),
        first != second ==> !with_preset(with_preset(presets, first), second).contains(first),
{
    lemma_named(presets, first.name);
    let once = with_preset(presets, first);
    lemma_named(once, second.name);
    law_preset_names_differ(presets, first);
    let twice = with_preset(once, second);
    let at = match named(presets, first.name) {
        Some(k) => k,
        None => presets.len() as int,
    };
    assert(once[at] == first);
    assert(named(once, second.name) is Some);
    let again = named(once, second.name)->0;
    assert(again == at) by {
        if again < at {
            assert(once[again].name == once[at].name);
        }
    }
    assert(twice[at] == second);
    if first != second && twice.contains(first) {
        let k = twice.index_of(first);
        assert(once[k].name == once[at].name);
    }
}

/// The built-in presets say for every pane what it shows, always at half a degree,
/// with the radar and its color scale on, and no two of them have one name.
pub proof fn law_builtin_presets_are_whole(preset: PresetFacts, i: int)
    requires
        preset == severe_preset() || preset == rainfall_preset() || preset == aviation_preset(),
        0 <= i < preset.panes.len(),
    ensures
        preset.panes.len() == preset.pane_count,
        2 <= preset.pane_count <= 4,
        preset.panes[i].elevation == Measure::Micro(500_000),
        preset.overlays.contains(OverlayKind::Radar),
        preset.overlays.contains(OverlayKind::CityLabels),
        preset.overlays.contains(OverlayKind::ColorScale),
        !preset.overlays.contains(OverlayKind::RadarSites),
        !preset.overlays.contains(OverlayKind::UserLocation),
        !preset.overlays.contains(OverlayKind::ModelData),
        severe_preset().pane_count == 4,
        rainfall_preset().pane_count == 2,
        aviation_preset().pane_count == 3,
        severe_preset().overlays.contains(OverlayKind::NwsAlerts),
        severe_preset().overlays.contains(OverlayKind::StormReports),
        aviation_preset().overlays.contains(OverlayKind::Metar),
        aviation_preset().overlays.contains(OverlayKind::Lightning),
{
    assert(severe_preset().overlays[0] == OverlayKind::Radar);
    assert(severe_preset().overlays[3] == OverlayKind::NwsAlerts);
    assert(severe_preset().overlays[4] == OverlayKind::StormReports);
    assert(severe_preset().overlays[5] == OverlayKind::CityLabels);
    assert(severe_preset().overlays[6] == OverlayKind::ColorScale);
    assert(rainfall_preset().overlays[0] == OverlayKind::Radar);
    assert(rainfall_preset().overlays[2] == OverlayKind::CityLabels);
    assert(rainfall_preset().overlays[3] == OverlayKind::ColorScale);
    assert(aviation_preset().overlays[0] == OverlayKind::Radar);
    assert(aviation_preset().overlays[1] == OverlayKind::Metar);
    assert(aviation_preset().overlays[2] == OverlayKind::Lightning);
    assert(aviation_preset().overlays[3] == OverlayKind::CityLabels);
    assert(aviation_preset().overlays[4] == OverlayKind::ColorScale);
}

/// A preset as it is saved differs only where a tilt is no number, which becomes
/// zero; saving it again changes nothing.
pub proof fn law_saved_preset_is_mended(preset: PresetFacts, i: int)
    requires
        0 <= i < preset.panes.len(),
    ensures
        preset.mended().name == preset.name,
        preset.mended().pane_count == preset.pane_count,
        preset.mended().overlays == preset.overlays,
        preset.mended().panes.len() == preset.panes.len(),
        preset.mended().panes[i].product == preset.panes[i].product,
        preset.panes[i].elevation is Micro ==> preset.mended().panes[i] == preset.panes[i],
        preset.panes[i].elevation is NotFinite ==> preset.mended().panes[i].elevation
            == Measure::Micro(0),
        preset.mended().mended() == preset.mended(),
{
    assert(preset.mended().mended().panes =~= preset.mended().panes);
}

/// A list of names reads as the names with a dot between each two.
pub proof fn law_names_are_dotted(names: Seq<Seq<char>>, name: Seq<char>)
    ensures
        dotted(seq![name]) == name,
        names.len() > 0 ==> dotted(names.push(name)) == dotted(names) + " \u{b7} "@ + name,
{
    assert(names.push(name).drop_last() =~= names);
}

/// A view that is saved is there afterwards under the name that was typed, as it is on
/// screen, and the naming is over. No pane changes, and a blank name saves nothing.
pub proof fn law_saved_view_is_there(before: Gui, after: Gui, i: int)
    requires
        before.wf(),
        before.view_saved(after),
        0 <= i < before.panes@.len(),
        i < before.pane_layout@.count <= usize::MAX,
    ensures
        after.panes == before.panes,
        after.pane_layout == before.pane_layout,
        trimmed_text(before.catalog.save_name@).len() == 0 ==> after == before,
        trimmed_text(before.catalog.save_name@).len() > 0 ==> {
            &&& !after.catalog.saving
            &&& after.catalog.save_name@.len() == 0
            &&& exists|k: int|
                {
                    &&& 0 <= k < after.catalog.presets@.len()
                    &&& (#[trigger] after.catalog.presets@[k]).name@ == trimmed_text(
                        before.catalog.save_name@,
                    )
                    &&& after.catalog.presets@[k].pane_count == before.pane_layout@.count
                    &&& after.catalog.presets@[k].panes@[i].product
                        == before.panes@[i].selected_product
                }
        },
{
    let name = trimmed_text(before.catalog.save_name@);
    if name.len() > 0 {
        let preset = before.captured(name);
        let facts = preset_facts(before.catalog.presets@);
        let kept = with_preset(facts, preset);
        lemma_named(facts, name);
        let k = match named(facts, name) {
            Some(k) => k,
            None => facts.len() as int,
        };
        assert(kept[k] == preset);
        assert(0 <= k < kept.len());
        assert(kept == preset_facts(after.catalog.presets@));
        assert(kept.len() == after.catalog.presets@.len());
        assert(preset_facts(after.catalog.presets@)[k] == after.catalog.presets@[k]@);
        assert(before.shown_panes()[i] == before.panes@[i]);
        assert(after.catalog.presets@[k].panes@ == preset.panes);
        assert(after.catalog.presets@[k].name@ == name);
    }
}

/// A tile tells how many panes its preset has, one or several, and what they show.
pub proof fn law_hover_counts_the_panes(pane_count: usize, names: Seq<Seq<char>>)
    ensures
        pane_count != 1 ==> hover_words(pane_count, names) == decimal(pane_count as nat)
            + " panes: "@ + dotted(names),
        pane_count == 1 ==> hover_words(pane_count, names) == "1 pane: "@ + dotted(names),
{
    reveal_strlit(" pane");
    reveal_strlit("s");
    reveal_strlit("");
    reveal_strlit(": ");
    reveal_strlit(" panes: ");
    reveal_strlit("1 pane: ");
    if pane_count == 1 {
        assert(decimal(1) =~= seq!['1']);
        assert(hover_words(pane_count, names) =~= "1 pane: "@ + dotted(names));
    } else {
        assert(hover_words(pane_count, names) =~= decimal(pane_count as nat) + " panes: "@
            + dotted(names));
    }
}

} // verus!
