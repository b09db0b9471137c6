//! Rebuilding the layout from a preset.

use vstd::prelude::*;
use crate::actions::{
    asks_for_overlay, lemma_requests_push, push_overlay_fetch_once, requests, GuiAction, Request,
};
use crate::gui::Gui;
use crate::kinds::PaneKind;
use crate::layers::write_pane_overlay;
use crate::measure::clamped;
use crate::overlays::{
    all_overlays, holds_kind, switched, switches, LayerHandlers, LayerSetting, OverlayKind,
};
use crate::pane::PaneState;
use crate::presets::{PresetConfig, PresetFacts};

verus! {

/// A pane once a preset has aimed it: a map again, on the preset's product and
/// tilt where it has some for this pane.
pub open spec fn preset_aimed(
    before: PaneState,
    preset: PresetFacts,
    i: int,
    after: PaneState,
) -> bool {
    exists|map: PaneState| #[trigger]
        before.converted(PaneKind::MapView, map) && after == if i < preset.panes.len() {
            PaneState {
                selected_product: preset.panes[i].product,
                selected_elevation: preset.panes[i].elevation,
                ..map
            }
        } else {
            map
        }
}

/// What the first `n` panes let go of when they become maps.
pub open spec fn releases(panes: Seq<PaneState>, n: int) -> Seq<Request>
    decreases n,
{
    if n <= 0 {
        Seq::empty()
    } else {
        let before = releases(panes, n - 1);
        if panes[n - 1].kind_of() == PaneKind::Volume {
            before.push(Request::Release { pane_idx: (n - 1) as usize })
        } else {
            before
        }
    }
}

/// Aim one pane as a preset says.
fn aim_by_preset(pane: &mut PaneState, preset: &PresetConfig, i: usize)
    ensures
        preset_aimed(*old(pane), preset@, i as int, *final(pane)),
{
    pane.set_kind(PaneKind::MapView);
    let ghost map = *pane;
    if i < preset.panes.len() {
        pane.selected_product = preset.panes[i].product;
        pane.selected_elevation = preset.panes[i].elevation;
    }
    assert(old(pane).converted(PaneKind::MapView, map));
}

/// Aim the first `count` panes as a preset says.
fn aim_all_by_preset(
    panes: &mut Vec<PaneState>,
    preset: &PresetConfig,
    count: usize,
    actions: &mut Vec<GuiAction>,
)
    requires
        count <= old(panes)@.len(),
    ensures
        final(panes)@.len() == old(panes)@.len(),
        forall|i: int|
            0 <= i < count ==> preset_aimed(
                old(panes)@[i],
                preset@,
                i,
                #[trigger] final(panes)@[i],
            ),
        forall|i: int|
            count <= i < old(panes)@.len() ==> #[trigger] final(panes)@[i] == old(panes)@[i],
        requests(final(actions)@) == requests(old(actions)@) + releases(old(panes)@, count as int),
{
    let ghost asked = requests(actions@);
    let mut i: usize = 0;
    assert(asked + releases(panes@, 0) =~= asked);
    while i < count
        invariant
            i <= count <= panes@.len(),
            panes@.len() == old(panes)@.len(),
            asked == requests(old(actions)@),
            requests(actions@) == asked + releases(old(panes)@, i as int),
            forall|k: int|
                0 <= k < i ==> preset_aimed(old(panes)@[k], preset@, k, #[trigger] panes@[k]),
            forall|k: int| i <= k < panes@.len() ==> #[trigger] panes@[k] == old(panes)@[k],
        decreases count - i,
    {
        if panes[i].kind() == PaneKind::Volume {
            proof {
                let so_far = releases(old(panes)@, i as int);
                lemma_requests_push(actions@, GuiAction::ReleaseVolume { pane_idx: i });
                assert(asked + so_far.push(Request::Release { pane_idx: i }) =~= (asked
                    + so_far).push(Request::Release { pane_idx: i }));
            }
            actions.push(GuiAction::ReleaseVolume { pane_idx: i });
        }
        aim_by_preset(&mut panes[i], preset, i);
        i = i + 1;
    }
}

/// A layer's options in a set of settings; a layer without settings has none.
pub open spec fn options_in(
    settings: Map<OverlayKind, LayerSetting>,
    kind: OverlayKind,
) -> Seq<char> {
    if settings.contains_key(kind) {
        settings[kind].options@
    } else {
        Seq::empty()
    }
}

/// Whether settings are those of a preset: each of its layers on and every other
/// off, with the options that `loaded` holds.
pub open spec fn preset_settings(
    loaded: Map<OverlayKind, LayerSetting>,
    preset: PresetFacts,
    settings: Map<OverlayKind, LayerSetting>,
) -> bool {
    forall|kind: OverlayKind| #[trigger]
        settings.contains_key(kind) && settings[kind].enabled == preset.overlays.contains(kind)
            && settings[kind].options@ == options_in(loaded, kind)
}

/// A pane once a preset has set its layers: its own options stand, and a layer it
/// has none for gets those that the handlers `held`.
pub open spec fn preset_layered(
    held: Map<OverlayKind, LayerSetting>,
    before: PaneState,
    preset: PresetFacts,
    after: PaneState,
) -> bool {
    &&& after == (PaneState {
        overlay_configs: after.overlay_configs,
        enabled_overlays: after.enabled_overlays,
        ..before
    })
    &&& after.enabled_overlays@ == switches(after.overlay_configs@)
    &&& preset_settings(
        held.union_prefer_right(before.overlay_configs@),
        preset,
        after.overlay_configs@,
    )
}

/// Whether settings are those of a preset for the first `n` kinds of layer, and
/// untouched for the others.
spec fn settings_so_far(
    loaded: Map<OverlayKind, LayerSetting>,
    preset: PresetFacts,
    n: int,
    settings: Map<OverlayKind, LayerSetting>,
) -> bool {
    &&& forall|k: int|
        0 <= k < n ==> {
            let kind = #[trigger] all_overlays()[k];
            &&& settings.contains_key(kind)
            &&& settings[kind].enabled == preset.overlays.contains(kind)
            &&& settings[kind].options@ == options_in(loaded, kind)
        }
    &&& forall|k: int|
        n <= k < all_overlays().len() ==> {
            let kind = #[trigger] all_overlays()[k];
            &&& settings.contains_key(kind) <==> loaded.contains_key(kind)
            &&& settings.contains_key(kind) ==> settings[kind] == loaded[kind]
        }
}

/// Switching the next kind of layer brings the settings one kind further.
proof fn lemma_one_more_setting(
    loaded: Map<OverlayKind, LayerSetting>,
    preset: PresetFacts,
    n: int,
    settings: Map<OverlayKind, LayerSetting>,
    after: Map<OverlayKind, LayerSetting>,
)
    requires
        0 <= n < all_overlays().len(),
        settings_so_far(loaded, preset, n, settings),
        switched(
            settings,
            all_overlays()[n],
            preset.overlays.contains(all_overlays()[n]),
            after,
        ),
    ensures
        settings_so_far(loaded, preset, n + 1, after),
{
    let switch = all_overlays()[n];
    switch.law_all_is_complete();
    assert forall|k: int| 0 <= k < all_overlays().len() && k != n implies {
        let kind = #[trigger] all_overlays()[k];
        &&& after.contains_key(kind) <==> settings.contains_key(kind)
        &&& after.contains_key(kind) ==> after[kind] == settings[kind]
    } by {
        let kind = all_overlays()[k];
        assert(kind != switch);
        assert(after.remove(switch).contains_key(kind) <==> settings.remove(switch).contains_key(
            kind,
        ));
        if after.contains_key(kind) {
            assert(after.remove(switch)[kind] == settings.remove(switch)[kind]);
        }
    }
    assert(settings.contains_key(all_overlays()[n]) <==> loaded.contains_key(all_overlays()[n]));
}

/// Set every layer of a pane as a preset says.
fn layer_by_preset(handlers: &mut LayerHandlers, pane: &mut PaneState, preset: &PresetConfig)
    ensures
        preset_layered(old(handlers).settings@, *old(pane), preset@, *final(pane)),
        final(handlers).settings@ == final(pane).overlay_configs@,
        *final(handlers) == (LayerHandlers {
            settings: final(handlers).settings,
            ..*old(handlers)
        }),
{
    let kinds: Vec<OverlayKind> = OverlayKind::all();
    let ghost loaded = handlers.settings@.union_prefer_right(pane.overlay_configs@);
    let mut i: usize = 0;
    proof {
        OverlayKind::Radar.law_all_is_complete();
    }
    while i < kinds.len()
        invariant
            i <= kinds@.len(),
            kinds@ == all_overlays(),
            kinds@.len() > 0,
            loaded == old(handlers).settings@.union_prefer_right(old(pane).overlay_configs@),
            *pane == (PaneState {
                overlay_configs: pane.overlay_configs,
                enabled_overlays: pane.enabled_overlays,
                ..*old(pane)
            }),
            *handlers == (LayerHandlers { settings: handlers.settings, ..*old(handlers) }),
            i > 0 ==> pane.enabled_overlays@ == switches(pane.overlay_configs@),
            i > 0 ==> handlers.settings@ == pane.overlay_configs@,
            settings_so_far(
                loaded,
                preset@,
                i as int,
                handlers.settings@.union_prefer_right(pane.overlay_configs@),
            ),
        decreases kinds@.len() - i,
    {
        let kind: OverlayKind = kinds[i];
        let on: bool = holds_kind(&preset.overlays, kind);
        let ghost before = handlers.settings@.union_prefer_right(pane.overlay_configs@);
        write_pane_overlay(handlers, pane, kind, on);
        proof {
            let after = handlers.settings@;
            lemma_one_more_setting(loaded, preset@, i as int, before, after);
            assert(after.union_prefer_right(pane.overlay_configs@) =~= after);
        }
        i = i + 1;
    }
    proof {
        let settings = pane.overlay_configs@;
        assert(handlers.settings@.union_prefer_right(settings) =~= settings);
        assert forall|kind: OverlayKind| #[trigger]
            settings.contains_key(kind) && settings[kind].enabled == preset@.overlays.contains(kind)
                && settings[kind].options@ == options_in(loaded, kind) by {
            kind.law_all_is_complete();
            assert(all_overlays()[kind.place()] == kind);
        }
        assert(preset_settings(loaded, preset@, settings));
        assert(pane.enabled_overlays@ == switches(settings));
    }
}

/// What the handlers hold once the first `i` panes have their layers.
pub open spec fn held_after(
    settings: Map<OverlayKind, LayerSetting>,
    layered: Seq<PaneState>,
    i: int,
) -> Map<OverlayKind, LayerSetting> {
    if i <= 0 {
        settings
    } else {
        layered[i - 1].overlay_configs@
    }
}

/// Set every layer of the first `count` panes as a preset says.
fn layer_all_by_preset(
    handlers: &mut LayerHandlers,
    panes: &mut Vec<PaneState>,
    preset: &PresetConfig,
    count: usize,
)
    requires
        count <= old(panes)@.len(),
    ensures
        final(panes)@.len() == old(panes)@.len(),
        forall|i: int|
            0 <= i < count ==> preset_layered(
                held_after(old(handlers).settings@, final(panes)@, i),
                old(panes)@[i],
                preset@,
                #[trigger] final(panes)@[i],
            ),
        forall|i: int|
            count <= i < old(panes)@.len() ==> #[trigger] final(panes)@[i] == old(panes)@[i],
        final(handlers).settings@ == held_after(
            old(handlers).settings@,
            final(panes)@,
            count as int,
        ),
        *final(handlers) == (LayerHandlers {
            settings: final(handlers).settings,
            ..*old(handlers)
        }),
{
    let mut i: usize = 0;
    while i < count
        invariant
            i <= count <= panes@.len(),
            panes@.len() == old(panes)@.len(),
            forall|k: int|
                0 <= k < i ==> preset_layered(
                    held_after(old(handlers).settings@, panes@, k),
                    old(panes)@[k],
                    preset@,
                    #[trigger] panes@[k],
                ),
            forall|k: int| i <= k < panes@.len() ==> #[trigger] panes@[k] == old(panes)@[k],
            handlers.settings@ == held_after(old(handlers).settings@, panes@, i as int),
            *handlers == (LayerHandlers { settings: handlers.settings, ..*old(handlers) }),
        decreases count - i,
    {
        let ghost before = panes@;
        layer_by_preset(handlers, &mut panes[i], preset);
        proof {
            assert(panes@ =~= before.update(i as int, panes@[i as int]));
            assert forall|k: int| 0 <= k < i + 1 implies preset_layered(
                held_after(old(handlers).settings@, panes@, k),
                old(panes)@[k],
                preset@,
                #[trigger] panes@[k],
            ) by {
                assert(held_after(old(handlers).settings@, panes@, k) == held_after(
                    old(handlers).settings@,
                    before,
                    k,
                ));
                if k < i {
                    assert(panes@[k] == before[k]);
                }
            }
        }
        i = i + 1;
    }
}

impl Gui {
    /// What is asked for once the first `n` kinds of layer are set on a pane.
    pub open spec fn asked_for_pane(
        self,
        asked: Seq<Request>,
        preset: PresetFacts,
        idx: usize,
        n: int,
    ) -> Seq<Request>
        decreases n,
    {
        if n <= 0 {
            asked
        } else {
            let kind = all_overlays()[n - 1];
            self.asked_after_switch(
                self.asked_for_pane(asked, preset, idx, n - 1),
                idx,
                kind,
                preset.overlays.contains(kind),
            )
        }
    }

    /// What is asked for once every layer is set on the first `n` panes.
    pub open spec fn asked_for_panes(
        self,
        asked: Seq<Request>,
        preset: PresetFacts,
        n: int,
    ) -> Seq<Request>
        decreases n,
    {
        if n <= 0 {
            asked
        } else {
            self.asked_for_pane(
                self.asked_for_panes(asked, preset, n - 1),
                preset,
                (n - 1) as usize,
                all_overlays().len() as int,
            )
        }
    }

    /// Queue what setting every layer on a pane asks for.
    fn queue_for_pane(&self, preset: &PresetConfig, idx: usize, actions: &mut Vec<GuiAction>)
        ensures
            requests(final(actions)@) == self.asked_for_pane(
                requests(old(actions)@),
                preset@,
                idx,
                all_overlays().len() as int,
            ),
    {
        let kinds: Vec<OverlayKind> = OverlayKind::all();
        let mut i: usize = 0;
        while i < kinds.len()
            invariant
                i <= kinds@.len(),
                kinds@ == all_overlays(),
                requests(actions@) == self.asked_for_pane(
                    requests(old(actions)@),
                    preset@,
                    idx,
                    i as int,
                ),
            decreases kinds@.len() - i,
        {
            let kind: OverlayKind = kinds[i];
            let feed = self.overlays.feed_of(kind);
            if holds_kind(&preset.overlays, kind) && !feed.has_data && !feed.fetching {
                push_overlay_fetch_once(actions, kind, idx);
            }
            i = i + 1;
        }
    }

    /// Queue what setting every layer on the first `count` panes asks for.
    fn queue_for_panes(&self, preset: &PresetConfig, count: usize, actions: &mut Vec<GuiAction>)
        ensures
            requests(final(actions)@) == self.asked_for_panes(
                requests(old(actions)@),
                preset@,
                count as int,
            ),
    {
        let mut i: usize = 0;
        while i < count
            invariant
                i <= count,
                requests(actions@) == self.asked_for_panes(
                    requests(old(actions)@),
                    preset@,
                    i as int,
                ),
            decreases count - i,
        {
            self.queue_for_pane(preset, i, actions);
            i = i + 1;
        }
    }

    /// How many panes a preset gives this interface.
    pub open spec fn preset_panes(self, preset: PresetFacts) -> int {
        clamped(preset.pane_count as int, 1, self.platform.width.pane_limit() as int)
    }

    /// Whether `built` is this interface rebuilt from a preset: as many panes as
    /// it says and the width offers, each of them a map on the preset's product
    /// and tilt with exactly the preset's layers on.
    pub open spec fn preset_built(self, preset: PresetFacts, room: Gui, built: Gui) -> bool {
        let count = self.preset_panes(preset);
        &&& self.resized(count as usize, room)
        &&& built == (Gui { panes: built.panes, overlays: built.overlays, ..room })
        &&& built.overlays == (LayerHandlers {
            settings: built.overlays.settings,
            ..room.overlays
        })
        &&& built.overlays.settings@ == held_after(room.overlays.settings@, built.panes@, count)
        &&& built.panes@.len() == room.panes@.len()
        &&& forall|i: int|
            0 <= i < count ==> preset_shown(
                held_after(room.overlays.settings@, built.panes@, i),
                room.panes@[i],
                preset,
                i,
                #[trigger] built.panes@[i],
            )
        &&& forall|i: int|
            count <= i < room.panes@.len() ==> #[trigger] built.panes@[i] == room.panes@[i]
    }

    /// Whether `after` is this interface with the first `count` panes on a
    /// preset's products and tilts, as far as it has some.
    pub open spec fn preset_picked(self, preset: PresetFacts, count: int, after: Gui) -> bool {
        &&& after == (Gui { panes: after.panes, ..self })
        &&& after.panes@.len() == self.panes@.len()
        &&& forall|i: int|
            0 <= i < self.panes@.len() ==> #[trigger] after.panes@[i] == preset_pick(
                self.panes@[i],
                preset,
                count,
                i,
            )
    }

    /// Whether this interface shows a preset: as many panes as there is room for,
    /// every one a map on its own product and tilt, with exactly the preset's
    /// layers on.
    pub open spec fn shows_preset(self, preset: PresetFacts) -> bool {
        let count = self.preset_panes(preset);
        &&& self.pane_layout@.count == count
        &&& count <= self.panes@.len()
        &&& forall|i: int|
            0 <= i < count ==> {
                let pane = #[trigger] self.panes@[i];
                &&& pane.content is MapView
                &&& i < preset.panes.len() ==> pane.selected_product == preset.panes[i].product
                &&& i < preset.panes.len() ==> pane.selected_elevation
                    == preset.panes[i].elevation
                &&& forall|kind: OverlayKind| #[trigger]
                    pane.overlay_on(kind) == preset.overlays.contains(kind)
            }
    }

    /// Whether applying a preset leads from this interface, with `asked` queued,
    /// to `after` with `asked_after` queued: the layout is rebuilt, the active
    /// pane's linked group takes over what it shares, and each pane has its own
    /// product and tilt in the end.
    pub open spec fn preset_applied(
        self,
        preset: PresetFacts,
        asked: Seq<Request>,
        after: Gui,
        asked_after: Seq<Request>,
    ) -> bool {
        let count = self.preset_panes(preset);
        exists|room: Gui, built: Gui, synced: Gui|
            {
                &&& #[trigger] self.preset_built(preset, room, built)
                &&& #[trigger] built.layers_propagated(synced)
                &&& synced.preset_picked(preset, count, after)
                &&& asked_after == self.asked_for_panes(
                    asked + releases(room.panes@, count),
                    preset,
                    count,
                )
            }
    }

    /// Rebuild the layout from a preset. The active pane's linked group follows it
    /// in what a group shares, but for the products and tilts: showing several
    /// side by side is what a preset is for.
    #[verifier::rlimit(60)]
    #[verifier::spinoff_prover]
    pub fn apply_preset(&mut self, preset: &PresetConfig, actions: &mut Vec<GuiAction>)
        requires
            old(self).wf(),
        ensures
            old(self).preset_applied(
                preset@,
                requests(old(actions)@),
                *final(self),
                requests(final(actions)@),
            ),
            final(self).shows_preset(preset@),
            final(self).wf(),
    {
        let limit: usize = self.platform.width.max_panes();
        let count: usize = if preset.pane_count < 1 {
            1
        } else if preset.pane_count > limit {
            limit
        } else {
            preset.pane_count
        };
        let _ = self.set_pane_count(count);
        let ghost room = *self;
        let mut panes: Vec<PaneState> = Vec::new();
        core::mem::swap(&mut panes, &mut self.panes);
        aim_all_by_preset(&mut panes, preset, count, actions);
        let ghost aimed = panes@;
        layer_all_by_preset(&mut self.overlays, &mut panes, preset, count);
        proof {
            assert forall|i: int| 0 <= i < count implies preset_shown(
                held_after(room.overlays.settings@, panes@, i),
                room.panes@[i],
                preset@,
                i,
                #[trigger] panes@[i],
            ) by {
                let held = held_after(room.overlays.settings@, panes@, i);
                assert(preset_aimed(room.panes@[i], preset@, i, aimed[i]));
                assert(preset_layered(held, aimed[i], preset@, panes@[i]));
            }
        }
        self.panes = panes;
        let ghost built = *self;
        let ghost asked = requests(actions@);
        self.queue_for_panes(preset, count, actions);
        proof {
            assert(old(self).preset_built(preset@, room, built));
            lemma_same_asks(built, *old(self), asked, preset@, count as int);
        }
        self.propagate_layer_sync();
        let ghost synced = *self;
        let mut panes: Vec<PaneState> = Vec::new();
        core::mem::swap(&mut panes, &mut self.panes);
        pick_all_by_preset(&mut panes, preset, count);
        self.panes = panes;
        proof {
            assert(synced.preset_picked(preset@, count as int, *self));
            assert(old(self).preset_built(preset@, room, built));
            assert(built.layers_propagated(synced));
            lemma_preset_is_shown(*old(self), preset@, room, built, synced, *self);
        }
    }
}

/// The `i`-th pane on its own product and tilt of a preset, where it is among the
/// first `count` and the preset has some for it.
pub open spec fn preset_pick(
    pane: PaneState,
    preset: PresetFacts,
    count: int,
    i: int,
) -> PaneState {
    if i < count && i < preset.panes.len() {
        PaneState {
            selected_product: preset.panes[i].product,
            selected_elevation: preset.panes[i].elevation,
            ..pane
        }
    } else {
        pane
    }
}

/// Put the first `count` panes on a preset's products and tilts.
fn pick_all_by_preset(panes: &mut Vec<PaneState>, preset: &PresetConfig, count: usize)
    ensures
        final(panes)@.len() == old(panes)@.len(),
        forall|i: int|
            0 <= i < old(panes)@.len() ==> #[trigger] final(panes)@[i] == preset_pick(
                old(panes)@[i],
                preset@,
                count as int,
                i,
            ),
{
    let mut i: usize = 0;
    while i < panes.len()
        invariant
            i <= panes@.len(),
            panes@.len() == old(panes)@.len(),
            forall|k: int|
                0 <= k < i ==> #[trigger] panes@[k] == preset_pick(
                    old(panes)@[k],
                    preset@,
                    count as int,
                    k,
                ),
            forall|k: int| i <= k < panes@.len() ==> #[trigger] panes@[k] == old(panes)@[k],
        decreases panes@.len() - i,
    {
        if i < count && i < preset.panes.len() {
            panes[i].selected_product = preset.panes[i].product;
            panes[i].selected_elevation = preset.panes[i].elevation;
        }
        i = i + 1;
    }
}

/// A pane that a preset has aimed and layered is a map with exactly the preset's
/// layers on.
proof fn lemma_pane_shown(
    held: Map<OverlayKind, LayerSetting>,
    before: PaneState,
    preset: PresetFacts,
    i: int,
    after: PaneState,
)
    requires
        preset_shown(held, before, preset, i, after),
    ensures
        after.content is MapView,
        forall|kind: OverlayKind| #[trigger]
            after.overlay_on(kind) == preset.overlays.contains(kind),
{
    let aimed = choose|aimed: PaneState| #[trigger]
        preset_aimed(before, preset, i, aimed) && preset_layered(held, aimed, preset, after);
    let map = choose|map: PaneState| #[trigger]
        before.converted(PaneKind::MapView, map) && aimed == if i < preset.panes.len() {
            PaneState {
                selected_product: preset.panes[i].product,
                selected_elevation: preset.panes[i].elevation,
                ..map
            }
        } else {
            map
        };
    assert(map.kind_of() == PaneKind::MapView);
    assert forall|kind: OverlayKind| #[trigger]
        after.overlay_on(kind) == preset.overlays.contains(kind) by {
        assert(after.overlay_configs@.contains_key(kind));
    }
}

/// What a preset is shown as, by way of each step of applying it.
proof fn lemma_preset_is_shown(
    before: Gui,
    preset: PresetFacts,
    room: Gui,
    built: Gui,
    synced: Gui,
    after: Gui,
)
    requires
        before.wf(),
        before.preset_built(preset, room, built),
        built.layers_propagated(synced),
        synced.preset_picked(preset, before.preset_panes(preset), after),
    ensures
        after.shows_preset(preset),
{
    let count = before.preset_panes(preset);
    let active = built.active_pane as int;
    assert(0 <= active < count);
    let source = built.panes@[active];
    let first_held = held_after(room.overlays.settings@, built.panes@, active);
    assert(preset_shown(first_held, room.panes@[active], preset, active, source));
    lemma_pane_shown(first_held, room.panes@[active], preset, active, source);
    assert forall|i: int| 0 <= i < count implies {
        let pane = #[trigger] after.panes@[i];
        &&& pane.content is MapView
        &&& i < preset.panes.len() ==> pane.selected_product == preset.panes[i].product
        &&& i < preset.panes.len() ==> pane.selected_elevation == preset.panes[i].elevation
        &&& forall|kind: OverlayKind| #[trigger]
            pane.overlay_on(kind) == preset.overlays.contains(kind)
    } by {
        let held = held_after(room.overlays.settings@, built.panes@, i);
        assert(preset_shown(held, room.panes@[i], preset, i, built.panes@[i]));
        lemma_pane_shown(held, room.panes@[i], preset, i, built.panes@[i]);
        let pane = after.panes@[i];
        assert(pane == preset_pick(synced.panes@[i], preset, count, i));
        assert(pane.enabled_overlays == synced.panes@[i].enabled_overlays);
        assert forall|kind: OverlayKind| #[trigger]
            pane.overlay_on(kind) == preset.overlays.contains(kind) by {
            assert(source.overlay_on(kind) == preset.overlays.contains(kind));
            assert(built.panes@[i].overlay_on(kind) == preset.overlays.contains(kind));
        }
    }
}

/// A pane once a preset has aimed it and set its layers.
pub open spec fn preset_shown(
    held: Map<OverlayKind, LayerSetting>,
    before: PaneState,
    preset: PresetFacts,
    i: int,
    after: PaneState,
) -> bool {
    exists|aimed: PaneState| #[trigger]
        preset_aimed(before, preset, i, aimed) && preset_layered(held, aimed, preset, after)
}

/// What is asked for rests on the layers' feeds alone.
proof fn lemma_same_asks(a: Gui, b: Gui, asked: Seq<Request>, preset: PresetFacts, n: int)
    requires
        a.overlays.feeds == b.overlays.feeds,
    ensures
        a.asked_for_panes(asked, preset, n) == b.asked_for_panes(asked, preset, n),
    decreases n,
{
    if n > 0 {
        lemma_same_asks(a, b, asked, preset, n - 1);
        lemma_same_asks_for_pane(
            a,
            b,
            a.asked_for_panes(asked, preset, n - 1),
            preset,
            (n - 1) as usize,
            all_overlays().len() as int,
        );
    }
}

proof fn lemma_same_asks_for_pane(
    a: Gui,
    b: Gui,
    asked: Seq<Request>,
    preset: PresetFacts,
    idx: usize,
    n: int,
)
    requires
        a.overlays.feeds == b.overlays.feeds,
    ensures
        a.asked_for_pane(asked, preset, idx, n) == b.asked_for_pane(asked, preset, idx, n),
    decreases n,
{
    if n > 0 {
        lemma_same_asks_for_pane(a, b, asked, preset, idx, n - 1);
        let kind = all_overlays()[n - 1];
        assert(a.overlays.feed(kind) == b.overlays.feed(kind));
    }
}

/// A list that asks for a layer still asks for it when more is asked for.
proof fn lemma_still_asked(
    state: Gui,
    asked: Seq<Request>,
    preset: PresetFacts,
    idx: usize,
    n: int,
    kind: OverlayKind,
)
    requires
        asks_for_overlay(asked, kind),
    ensures
        asks_for_overlay(state.asked_for_pane(asked, preset, idx, n), kind),
    decreases n,
{
    if n > 0 {
        lemma_still_asked(state, asked, preset, idx, n - 1, kind);
        let before = state.asked_for_pane(asked, preset, idx, n - 1);
        let after = state.asked_for_pane(asked, preset, idx, n);
        let i = choose|i: int|
            0 <= i < before.len() && (#[trigger] before[i] matches Request::Overlay { kind: k, .. }
                && k == kind);
        assert(after[i] == before[i]);
    }
}

/// Once a pane is set, every layer of the preset that lacks data is asked for.
proof fn lemma_pane_asks_all(
    state: Gui,
    asked: Seq<Request>,
    preset: PresetFacts,
    idx: usize,
    n: int,
    k: int,
)
    requires
        0 <= k < n <= all_overlays().len(),
        preset.overlays.contains(all_overlays()[k]),
        state.overlay_lacks_data(all_overlays()[k]),
    ensures
        asks_for_overlay(state.asked_for_pane(asked, preset, idx, n), all_overlays()[k]),
    decreases n,
{
    let kind = all_overlays()[k];
    let before = state.asked_for_pane(asked, preset, idx, n - 1);
    let after = state.asked_for_pane(asked, preset, idx, n);
    if k == n - 1 {
        if !asks_for_overlay(before, kind) {
            assert(after[before.len() as int] == Request::Overlay { kind, pane_idx: idx });
        }
    } else {
        lemma_pane_asks_all(state, asked, preset, idx, n - 1, k);
        let i = choose|i: int|
            0 <= i < before.len() && (#[trigger] before[i] matches Request::Overlay { kind: q, .. }
                && q == kind);
        assert(after[i] == before[i]);
    }
}

/// A pane adds nothing to a list that asks for all it could ask for.
proof fn lemma_pane_adds_nothing(
    state: Gui,
    asked: Seq<Request>,
    preset: PresetFacts,
    idx: usize,
    n: int,
)
    requires
        n <= all_overlays().len(),
        forall|k: int|
            0 <= k < all_overlays().len() && preset.overlays.contains(
                #[trigger] all_overlays()[k],
            ) && state.overlay_lacks_data(all_overlays()[k]) ==> asks_for_overlay(
                asked,
                all_overlays()[k],
            ),
    ensures
        state.asked_for_pane(asked, preset, idx, n) == asked,
    decreases n,
{
    if n > 0 {
        lemma_pane_adds_nothing(state, asked, preset, idx, n - 1);
        assert(all_overlays()[n - 1] == all_overlays()[n - 1]);
    }
}

/// However many panes a preset sets, each layer that lacks data is fetched once:
/// the panes behind the first ask for nothing more.
pub proof fn law_preset_fetches_once(
    state: Gui,
    asked: Seq<Request>,
    preset: PresetFacts,
    n: int,
)
    requires
        n >= 1,
    ensures
        state.asked_for_panes(asked, preset, n) == state.asked_for_panes(asked, preset, 1),
    decreases n,
{
    if n > 1 {
        law_preset_fetches_once(state, asked, preset, n - 1);
        let kinds = all_overlays().len() as int;
        let first = state.asked_for_panes(asked, preset, 1);
        assert(state.asked_for_panes(asked, preset, 0) == asked);
        assert(first == state.asked_for_pane(asked, preset, 0, kinds));
        assert forall|k: int|
            0 <= k < all_overlays().len() && preset.overlays.contains(
                #[trigger] all_overlays()[k],
            ) && state.overlay_lacks_data(all_overlays()[k]) implies asks_for_overlay(
            first,
            all_overlays()[k],
        ) by {
            lemma_pane_asks_all(state, asked, preset, 0, kinds, k);
        }
        lemma_pane_adds_nothing(state, first, preset, (n - 1) as usize, kinds);
    }
}

/// Whatever was open before, applying a preset shows it: as many panes as it says
/// and the width offers, every one a map, each on its own product and tilt, with
/// exactly the preset's layers on. It does so whether layers are shared or not.
pub proof fn law_preset_is_shown(
    before: Gui,
    preset: PresetFacts,
    asked: Seq<Request>,
    after: Gui,
    asked_after: Seq<Request>,
)
    requires
        before.wf(),
        before.preset_applied(preset, asked, after, asked_after),
    ensures
        after.shows_preset(preset),
{
    let count = before.preset_panes(preset);
    let (room, built, synced) = choose|room: Gui, built: Gui, synced: Gui|
        {
            &&& #[trigger] before.preset_built(preset, room, built)
            &&& #[trigger] built.layers_propagated(synced)
            &&& synced.preset_picked(preset, count, after)
            &&& asked_after == before.asked_for_panes(
                asked + releases(room.panes@, count),
                preset,
                count,
            )
        };
    lemma_preset_is_shown(before, preset, room, built, synced, after);
}

/// A view that is saved and applied again comes back, whatever else was done to
/// the interface in between: as many panes, the product and the tilt of each, and
/// the layers of the pane that was active on every one. `saved` is the interface
/// when the view was saved, `before` when it is applied.
pub proof fn law_saved_view_comes_back(
    saved: Gui,
    name: Seq<char>,
    before: Gui,
    asked: Seq<Request>,
    after: Gui,
    asked_after: Seq<Request>,
    i: int,
    kind: OverlayKind,
)
    requires
        saved.wf(),
        saved.pane_layout@.valid(),
        saved.pane_layout@.count <= saved.panes@.len(),
        before.wf(),
        saved.pane_layout@.count <= before.platform.width.pane_limit(),
        before.preset_applied(saved.captured(name), asked, after, asked_after),
        0 <= i < saved.pane_layout@.count,
    ensures
        after.pane_layout@.count == saved.pane_layout@.count,
        after.panes@[i].kind_of() == PaneKind::MapView,
        after.panes@[i].selected_product == saved.panes@[i].selected_product,
        after.panes@[i].selected_elevation == saved.panes@[i].selected_elevation.mended(0),
        after.panes@[i].overlay_on(kind) == saved.panes@[saved.active_pane as int].overlay_on(kind),
{
    let preset = saved.captured(name);
    let active = saved.panes@[saved.active_pane as int];
    law_preset_is_shown(before, preset, asked, after, asked_after);
    assert(saved.shown_panes()[i] == saved.panes@[i]);
    assert(preset.panes[i].product == saved.panes@[i].selected_product);
    assert(after.panes@[i].overlay_on(kind) == preset.overlays.contains(kind));
    crate::presets::lemma_enabled_kinds(active, all_overlays().len() as int, kind);
    kind.law_all_is_complete();
    assert(all_overlays()[kind.place()] == kind);
}

/// What a preset shows, pane by pane: with room for all its panes there are as many
/// as it says, otherwise as many as the width offers. Each is a map, on the product
/// and the tilt the preset has for it, with a layer on exactly where the preset lists
/// it.
pub proof fn law_preset_shows_each_pane(
    before: Gui,
    preset: PresetFacts,
    asked: Seq<Request>,
    after: Gui,
    asked_after: Seq<Request>,
    i: int,
    kind: OverlayKind,
)
    requires
        before.wf(),
        before.preset_applied(preset, asked, after, asked_after),
        0 <= i < after.pane_layout@.count,
    ensures
        after.pane_layout@.count <= after.panes@.len(),
        1 <= preset.pane_count <= before.platform.width.pane_limit() ==> after.pane_layout@.count
            == preset.pane_count,
        preset.pane_count > before.platform.width.pane_limit() ==> after.pane_layout@.count
            == before.platform.width.pane_limit(),
        preset.pane_count == 0 ==> after.pane_layout@.count == 1,
        after.panes@[i].content is MapView,
        i < preset.panes.len() ==> after.panes@[i].selected_product == preset.panes[i].product,
        i < preset.panes.len() ==> after.panes@[i].selected_elevation == preset.panes[i].elevation,
        after.panes@[i].overlay_on(kind) <==> preset.overlays.contains(kind),
{
    law_preset_is_shown(before, preset, asked, after, asked_after);
    let count = before.preset_panes(preset);
    let (room, built, synced) = choose|room: Gui, built: Gui, synced: Gui|
        {
            &&& #[trigger] before.preset_built(preset, room, built)
            &&& #[trigger] built.layers_propagated(synced)
            &&& synced.preset_picked(preset, count, after)
            &&& asked_after == before.asked_for_panes(
                asked + releases(room.panes@, count),
                preset,
                count,
            )
        };
    assert(room.pane_layout@.count == count);
    assert(after.platform == before.platform);
    let pane = after.panes@[i];
    assert(pane.content is MapView);
}

/// A preset lets go of the voxel grid of exactly those panes it shows that were 3D
/// views.
pub proof fn law_preset_lets_grids_go(panes: Seq<PaneState>, n: int, i: int)
    requires
        0 <= n <= panes.len(),
        n <= usize::MAX,
        0 <= i < n,
    ensures
        releases(panes, n).contains(Request::Release { pane_idx: i as usize }) <==> panes[i].content
            is Volume,
        forall|j: int| 0 <= j < releases(panes, n).len() ==> #[trigger] releases(panes, n)[j]
            is Release,
    decreases n,
{
    let before = releases(panes, n - 1);
    let after = releases(panes, n);
    let wanted = Request::Release { pane_idx: i as usize };
    if n == 1 {
        assert(before =~= Seq::<Request>::empty());
    } else if i < n - 1 {
        law_preset_lets_grids_go(panes, n - 1, i);
    } else {
        law_preset_lets_grids_go(panes, n - 1, 0);
        lemma_releases_below(panes, n - 1);
    }
    if before.contains(wanted) {
        let k = before.index_of(wanted);
        assert(after[k] == wanted);
    }
    if panes[n - 1].content is Volume {
        assert(after[before.len() as int] == Request::Release { pane_idx: (n - 1) as usize });
    }
    if after.contains(wanted) && !before.contains(wanted) {
        let k = after.index_of(wanted);
        assert(k == before.len());
    }
    assert forall|j: int| 0 <= j < after.len() implies #[trigger] after[j] is Release by {
        if j < before.len() {
            assert(after[j] == before[j]);
        }
    }
}

proof fn lemma_releases_below(panes: Seq<PaneState>, n: int)
    requires
        0 <= n <= usize::MAX,
    ensures
        forall|j: int|
            0 <= j < releases(panes, n).len() ==> (#[trigger] releases(panes, n)[j]) is Release
                && releases(panes, n)[j]->Release_pane_idx < n,
    decreases n,
{
    if n > 0 {
        lemma_releases_below(panes, n - 1);
        let before = releases(panes, n - 1);
        let after = releases(panes, n);
        assert forall|j: int| 0 <= j < after.len() implies (#[trigger] after[j]) is Release
            && after[j]->Release_pane_idx < n by {
            if j < before.len() {
                assert(after[j] == before[j]);
            }
        }
    }
}

/// A preset asks for the data of exactly those of its layers that have none and for
/// which none is on its way, beside what was asked for before.
pub proof fn law_preset_fetches_what_it_lacks(
    state: Gui,
    asked: Seq<Request>,
    preset: PresetFacts,
    n: int,
    kind: OverlayKind,
)
    requires
        n >= 1,
    ensures
        asks_for_overlay(state.asked_for_panes(asked, preset, n), kind) <==> asks_for_overlay(
            asked,
            kind,
        ) || (preset.overlays.contains(kind) && !state.overlays.feed(kind).has_data
            && !state.overlays.feed(kind).fetching),
        asked.is_prefix_of(state.asked_for_panes(asked, preset, n)),
{
    law_preset_fetches_once(state, asked, preset, n);
    kind.law_all_is_complete();
    assert(state.asked_for_panes(asked, preset, 0) == asked);
    let kinds = all_overlays().len() as int;
    let first = state.asked_for_pane(asked, preset, 0, kinds);
    assert(state.asked_for_panes(asked, preset, 1) == first);
    lemma_pane_asks_for(state, asked, preset, 0, kinds, kind);
    assert(0 <= kind.place() < kinds) by {
        reveal(all_overlays);
    }
    if preset.overlays.contains(kind) && state.overlay_lacks_data(kind) {
        lemma_pane_asks_all(state, asked, preset, 0, kinds, kind.place());
    }
    if asks_for_overlay(asked, kind) {
        lemma_still_asked(state, asked, preset, 0, kinds, kind);
    }
}

proof fn lemma_pane_asks_for(
    state: Gui,
    asked: Seq<Request>,
    preset: PresetFacts,
    idx: usize,
    n: int,
    kind: OverlayKind,
)
    ensures
        asks_for_overlay(state.asked_for_pane(asked, preset, idx, n), kind) ==> asks_for_overlay(
            asked,
            kind,
        ) || (preset.overlays.contains(kind) && state.overlay_lacks_data(kind)),
        asked.is_prefix_of(state.asked_for_pane(asked, preset, idx, n)),
    decreases n,
{
    if n > 0 {
        lemma_pane_asks_for(state, asked, preset, idx, n - 1, kind);
        let before = state.asked_for_pane(asked, preset, idx, n - 1);
        let after = state.asked_for_pane(asked, preset, idx, n);
        if asks_for_overlay(after, kind) && !asks_for_overlay(before, kind) {
            let i = choose|i: int|
                0 <= i < after.len() && (#[trigger] after[i] matches Request::Overlay {
                    kind: k,
                    ..
                } && k == kind);
            if i < before.len() {
                assert(before[i] == after[i]);
            }
        }
    }
}

/// A layer that a preset sets keeps the options the pane had for it, or takes those
/// that were held where the pane had none.
pub proof fn law_preset_keeps_options(
    held: Map<OverlayKind, LayerSetting>,
    before: PaneState,
    preset: PresetFacts,
    after: PaneState,
    kind: OverlayKind,
)
    requires
        preset_layered(held, before, preset, after),
    ensures
        after.overlay_configs@.contains_key(kind),
        after.overlay_configs@[kind].enabled == preset.overlays.contains(kind),
        after.overlay_on(kind) == preset.overlays.contains(kind),
        before.overlay_configs@.contains_key(kind) ==> after.overlay_configs@[kind].options@
            == before.overlay_configs@[kind].options@,
        !before.overlay_configs@.contains_key(kind) && held.contains_key(kind)
            ==> after.overlay_configs@[kind].options@ == held[kind].options@,
        after.selected_product == before.selected_product,
        after.site == before.site,
        after.viewport == before.viewport,
{
    assert(after.overlay_configs@.contains_key(kind));
}

/// A preset changes what is shown and nothing else: every pane keeps its map's place, its
/// links and its scan's moment on screen, and the pane in front its site and its time too.
pub proof fn law_preset_keeps_where_panes_look(
    before: Gui,
    preset: PresetFacts,
    asked: Seq<Request>,
    after: Gui,
    asked_after: Seq<Request>,
    i: int,
)
    requires
        before.wf(),
        before.preset_applied(preset, asked, after, asked_after),
        0 <= i < before.panes@.len(),
    ensures
        i < after.panes@.len(),
        after.panes@[i].viewport == before.panes@[i].viewport,
        after.panes@[i].time_link == before.panes@[i].time_link,
        after.panes@[i].viewport_link == before.panes@[i].viewport_link,
        after.panes@[i].layer_link == before.panes@[i].layer_link,
        after.panes@[i].data_time == before.panes@[i].data_time,
        i == before.active_pane && i < after.pane_layout@.count ==> {
            &&& after.active_pane == before.active_pane
            &&& after.panes@[i].site == before.panes@[i].site
            &&& after.panes@[i].scan_info == before.panes@[i].scan_info
            &&& after.panes@[i].viewing_live == before.panes@[i].viewing_live
            &&& after.panes@[i].time_step_secs == before.panes@[i].time_step_secs
        },
        after.settings == before.settings,
        after.radar == before.radar,
        after.catalog == before.catalog,
{
    let count = before.preset_panes(preset);
    let (room, built, synced) = choose|room: Gui, built: Gui, synced: Gui|
        {
            &&& #[trigger] before.preset_built(preset, room, built)
            &&& #[trigger] built.layers_propagated(synced)
            &&& synced.preset_picked(preset, count, after)
            &&& asked_after == before.asked_for_panes(
                asked + releases(room.panes@, count),
                preset,
                count,
            )
        };
    assert(crate::gui::seeded(before.panes@[i], before.overlays, room.panes@[i]));
    crate::sync::law_a_led_pane_keeps_its_own(built, synced, i);
    crate::sync::law_layers_flow_from_the_front_pane(built, synced);
    assert(after.panes@[i] == preset_pick(synced.panes@[i], preset, count, i));
    if i < count {
        let held = held_after(room.overlays.settings@, built.panes@, i);
        assert(preset_shown(held, room.panes@[i], preset, i, built.panes@[i]));
        let aimed = choose|aimed: PaneState| #[trigger]
            preset_aimed(room.panes@[i], preset, i, aimed) && preset_layered(
                held,
                aimed,
                preset,
                built.panes@[i],
            );
        assert(aimed.viewport == room.panes@[i].viewport);
        assert(aimed.site == room.panes@[i].site);
    } else {
        assert(built.panes@[i] == room.panes@[i]);
    }
}

/// A preset touches the panes, their layout and their layers, and nothing else of the
/// interface; a pane past those it shows keeps all but what it lacked.
pub proof fn law_preset_touches_nothing_else(
    before: Gui,
    preset: PresetFacts,
    asked: Seq<Request>,
    after: Gui,
    asked_after: Seq<Request>,
    i: int,
)
    requires
        before.wf(),
        before.preset_applied(preset, asked, after, asked_after),
        0 <= i < before.panes@.len(),
    ensures
        after == (Gui {
            panes: after.panes,
            pane_layout: after.pane_layout,
            active_pane: after.active_pane,
            overlays: after.overlays,
            ..before
        }),
        after.overlays.feeds == before.overlays.feeds,
        before.active_pane < after.pane_layout@.count ==> after.active_pane == before.active_pane,
        i < after.pane_layout@.count && before.panes@[i].content is MapView
            ==> after.panes@[i].loop_state == before.panes@[i].loop_state,
        i < after.pane_layout@.count && !(before.panes@[i].content is MapView)
            ==> !after.panes@[i].loop_state.active(),
        i >= after.pane_layout@.count ==> after.panes@[i].content == before.panes@[i].content
            && after.panes@[i].loop_state == before.panes@[i].loop_state,
{
    let count = before.preset_panes(preset);
    let (room, built, synced) = choose|room: Gui, built: Gui, synced: Gui|
        {
            &&& #[trigger] before.preset_built(preset, room, built)
            &&& #[trigger] built.layers_propagated(synced)
            &&& synced.preset_picked(preset, count, after)
            &&& asked_after == before.asked_for_panes(
                asked + releases(room.panes@, count),
                preset,
                count,
            )
        };
    assert(crate::gui::seeded(before.panes@[i], before.overlays, room.panes@[i]));
    crate::sync::law_a_led_pane_keeps_its_own(built, synced, i);
    crate::sync::law_layers_flow_from_the_front_pane(built, synced);
    assert(after.panes@[i] == preset_pick(synced.panes@[i], preset, count, i));
    assert(room.pane_layout@.count == count);
    if i < count {
        let held = held_after(room.overlays.settings@, built.panes@, i);
        assert(preset_shown(held, room.panes@[i], preset, i, built.panes@[i]));
        let aimed = choose|aimed: PaneState| #[trigger]
            preset_aimed(room.panes@[i], preset, i, aimed) && preset_layered(
                held,
                aimed,
                preset,
                built.panes@[i],
            );
        let map = choose|map: PaneState| #[trigger]
            room.panes@[i].converted(PaneKind::MapView, map) && aimed == if i
                < preset.panes.len() {
                PaneState {
                    selected_product: preset.panes[i].product,
                    selected_elevation: preset.panes[i].elevation,
                    ..map
                }
            } else {
                map
            };
        assert(aimed.loop_state == map.loop_state);
    } else {
        assert(built.panes@[i] == room.panes@[i]);
    }
}

} // verus!
