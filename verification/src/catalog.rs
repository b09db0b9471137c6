//! The Add-layer catalog: what a search shows, and what a tile does.

use vstd::prelude::*;
use crate::actions::{push_overlay_fetch_once, queued, requests, GuiAction, Request};
use crate::gui::{Gestures, Gui, InspectorSelection, Panels, PendingKind};
use crate::kinds::{PaneKind, RadarProduct};
use crate::measure::Measure;
use crate::overlays::{LayerSetting, OverlayKind};
use crate::pane::PaneState;
use crate::presets::{builtin_presets, PresetConfig};
use crate::schedule::texts;
use crate::sync::indices_where;
use crate::text::{
    contains_text, decimal, decimal_text, holds_text, in_capitals, in_small, is_plain, joined,
    lowered, to_lower, trimmed, trimmed_text,
};

verus! {

/// Whether a label survives a filter, both in lower case: a filter without text
/// keeps every label, and any other keeps those that hold it.
pub open spec fn survives(lower_query: Seq<char>, lower_label: Seq<char>) -> bool {
    lower_query.len() == 0 || holds_text(lower_label, lower_query)
}

/// Whether a label survives a filter, both already in lower case.
pub fn survives_filter(lower_query: &str, lower_label: &str) -> (r: bool)
    ensures
        r == survives(lower_query@, lower_label@),
{
    lower_query.is_empty() || contains_text(lower_label, lower_query)
}

/// Whether the label holds the query, whatever the case of either.
pub open spec fn found_in(query: Seq<char>, label: Seq<char>) -> bool {
    query.len() == 0 || holds_text(lowered(label), lowered(query))
}

/// [`found_in`] of ASCII texts, letter by letter.
pub open spec fn plainly_found(query: Seq<char>, label: Seq<char>) -> bool {
    query.len() == 0 || holds_text(in_small(label), in_small(query))
}

/// Whether a label survives the filter `query`: a substring, whatever the case
/// of either.
pub fn matches_query(query: &str, label: &str) -> (r: bool)
    ensures
        r == (query@.len() == 0 || holds_text(lowered(label@), lowered(query@))),
        is_plain(query@) && is_plain(label@) ==> r == plainly_found(query@, label@),
{
    if query.is_empty() {
        return true;
    }
    let lower_query: String = to_lower(query);
    let lower_label: String = to_lower(label);
    proof {
        let text = lowered(label@);
        let needle = lowered(query@);
        if needle.len() == 0 {
            assert(text.subrange(0, 0int + needle.len()) =~= needle);
        }
    }
    survives_filter(lower_query.as_str(), lower_label.as_str())
}

/// The filter that a search text stands for: without white space around it, in
/// lower case.
pub open spec fn filter_of(typed: Seq<char>) -> Seq<char> {
    lowered(trimmed_text(typed))
}

/// The filter that a search text stands for.
pub fn normalized_query(typed: &str) -> (r: String)
    ensures
        r@ == filter_of(typed@),
{
    to_lower(trimmed(typed))
}

/// Which of these labels survive the filter, by index and in order.
pub open spec fn surviving(query: Seq<char>, labels: Seq<Seq<char>>) -> Seq<int> {
    indices_where(labels.len() as int, |i: int| found_in(query, labels[i]))
}

/// Which of these labels survive the filter, by index and in order.
pub fn shown_tiles(query: &str, labels: &Vec<String>) -> (r: Vec<usize>)
    ensures
        r@.map_values(|i: usize| i as int) =~= surviving(query@, texts(labels@)),
{
    let mut shown: Vec<usize> = Vec::new();
    let ghost all = texts(labels@);
    let ghost answers = |i: int| found_in(query@, all[i]);
    let mut i: usize = 0;
    while i < labels.len()
        invariant
            i <= labels@.len(),
            all == texts(labels@),
            answers == |i: int| found_in(query@, all[i]),
            shown@.map_values(|k: usize| k as int) =~= indices_where(i as int, answers),
        decreases labels@.len() - i,
    {
        let keep: bool = matches_query(query, labels[i].as_str());
        assert(keep == answers(i as int));
        if keep {
            shown.push(i);
        }
        i = i + 1;
    }
    shown
}

/// The heading of a group of tiles.
pub open spec fn heading_words(group: Seq<char>, count: nat) -> Seq<char> {
    group + " ("@ + decimal(count) + ")"@
}

/// The heading of a group of tiles.
pub fn group_heading(group: &str, count: usize) -> (r: String)
    ensures
        r@ == heading_words(group@, count as nat),
{
    let mut r: String = joined(group, " (");
    r.append(decimal_text(count as u64).as_str());
    r.append(")");
    r
}

/// One group of tiles, as it is drawn.
pub struct TileGroup {
    pub heading: String,
    /// Which tiles are drawn, by index.
    pub tiles: Vec<usize>,
}

/// A group of tiles under a filter, or `None` where the filter leaves no tile: a
/// search result is results and only results.
pub fn tile_group(group: &str, query: &str, labels: &Vec<String>) -> (r: Option<TileGroup>)
    ensures
        r is Some <==> surviving(query@, texts(labels@)).len() > 0,
        r matches Some(drawn) ==> {
            &&& drawn.tiles@.map_values(|i: usize| i as int) =~= surviving(
                query@,
                texts(labels@),
            )
            &&& drawn.heading@ == heading_words(
                group@,
                surviving(query@, texts(labels@)).len(),
            )
        },
{
    let tiles: Vec<usize> = shown_tiles(query, labels);
    assert(tiles@.map_values(|i: usize| i as int).len() == tiles@.len());
    if tiles.len() == 0 {
        return None;
    }
    let heading: String = group_heading(group, tiles.len());
    Some(TileGroup { heading, tiles })
}

/// The group of presets, as it is drawn.
pub struct PresetGroup {
    pub heading: String,
    /// Which built-in presets are drawn, by index.
    pub builtin: Vec<usize>,
    /// Which of the user's presets are drawn, by index.
    pub user: Vec<usize>,
    /// Whether saving the current view is offered.
    pub offer_save: bool,
}

/// The names of a list of presets.
pub open spec fn preset_names(presets: Seq<PresetConfig>) -> Seq<Seq<char>> {
    presets.map_values(|p: PresetConfig| p.name@)
}

fn names_of(presets: &Vec<PresetConfig>) -> (r: Vec<String>)
    ensures
        texts(r@) == preset_names(presets@),
{
    let mut r: Vec<String> = Vec::new();
    let mut i: usize = 0;
    assert(texts(r@) =~= preset_names(presets@.take(0)));
    while i < presets.len()
        invariant
            i <= presets@.len(),
            texts(r@) == preset_names(presets@.take(i as int)),
        decreases presets@.len() - i,
    {
        let ghost before = r@;
        r.push(presets[i].name.clone());
        proof {
            let name = presets@[i as int].name@;
            assert(texts(r@) =~= texts(before).push(name));
            assert(presets@.take(i + 1) =~= presets@.take(i as int).push(presets@[i as int]));
            assert(preset_names(presets@.take(i + 1)) =~= preset_names(
                presets@.take(i as int),
            ).push(name));
        }
        i = i + 1;
    }
    assert(presets@.take(i as int) =~= presets@);
    r
}

/// The names of the built-in presets.
pub open spec fn builtin_names() -> Seq<Seq<char>> {
    seq!["Severe Wx"@, "Rainfall"@, "Aviation"@]
}

impl Gui {
    /// Whether the group of presets is drawn as a filter leaves it.
    pub open spec fn presets_drawn(self, group: Option<PresetGroup>, query: Seq<char>) -> bool {
        let builtin = surviving(query, builtin_names());
        let user = surviving(query, preset_names(self.catalog.presets@));
        match group {
            Some(group) => {
                &&& builtin.len() + user.len() > 0 || query.len() == 0
                &&& group.builtin@.map_values(|i: usize| i as int) =~= builtin
                &&& group.user@.map_values(|i: usize| i as int) =~= user
                &&& group.offer_save == (query.len() == 0)
                &&& group.heading@ == heading_words("Presets"@, builtin.len() + user.len())
            },
            None => builtin.len() + user.len() == 0 && query.len() != 0,
        }
    }

    /// The group of presets under a filter. Saving is offered only where nothing
    /// is searched for; the group is not drawn where it would be empty.
    pub fn preset_group(&self, query: &str) -> (r: Option<PresetGroup>)
        requires
            self.catalog.presets@.len() <= usize::MAX - 3,
        ensures
            self.presets_drawn(r, query@),
    {
        let presets: Vec<PresetConfig> = builtin_presets();
        let builtin_labels: Vec<String> = names_of(&presets);
        assert(texts(builtin_labels@) =~= builtin_names());
        let builtin: Vec<usize> = shown_tiles(query, &builtin_labels);
        let user_labels: Vec<String> = names_of(&self.catalog.presets);
        let user: Vec<usize> = shown_tiles(query, &user_labels);
        assert(builtin@.map_values(|i: usize| i as int).len() == builtin@.len());
        assert(user@.map_values(|i: usize| i as int).len() == user@.len());
        let offer_save: bool = query.is_empty();
        if builtin.len() == 0 && user.len() == 0 && !offer_save {
            return None;
        }
        proof {
            lemma_surviving_len(query@, builtin_names());
            lemma_surviving_len(query@, preset_names(self.catalog.presets@));
        }
        let total: u64 = (builtin.len() as u64) + (user.len() as u64);
        let mut heading: String = joined("Presets", " (");
        heading.append(decimal_text(total).as_str());
        heading.append(")");
        Some(PresetGroup { heading, builtin, user, offer_save })
    }
}

/// No more labels survive than there are.
proof fn lemma_surviving_len(query: Seq<char>, labels: Seq<Seq<char>>)
    ensures
        surviving(query, labels).len() <= labels.len(),
{
    lemma_indices_len(
        labels.len() as int,
        |i: int| found_in(query, labels[i]),
    );
}

proof fn lemma_indices_len(n: int, answers: spec_fn(int) -> bool)
    requires
        n >= 0,
    ensures
        indices_where(n, answers).len() <= n,
    decreases n,
{
    if n > 0 {
        lemma_indices_len(n - 1, answers);
    }
}

impl Gui {
    /// The interface with the inspector open on a layer.
    pub open spec fn inspecting_layer(self, kind: OverlayKind) -> Gui {
        Gui {
            panels: Panels {
                insp_scroll_reset: self.panels.inspector_sel != InspectorSelection::Layer(kind),
                inspector_sel: InspectorSelection::Layer(kind),
                insp_open: true,
                ..self.panels
            },
            ..self
        }
    }

    /// Whether `after` is this interface with a layer turned on for the active
    /// pane and its linked group, and open in the inspector.
    pub open spec fn overlay_tile_applied(self, kind: OverlayKind, after: Gui) -> bool {
        exists|on: Gui, synced: Gui|
            {
                &&& #[trigger] self.overlay_set(self.active_pane as int, kind, true, on)
                &&& #[trigger] on.layers_propagated(synced)
                &&& after == synced.inspecting_layer(kind)
            }
    }

    /// Turn a layer on for the active pane and open it in the inspector: what an
    /// overlay tile does.
    pub fn catalog_apply_overlay(&mut self, kind: OverlayKind, actions: &mut Vec<GuiAction>)
        requires
            old(self).wf(),
        ensures
            old(self).overlay_tile_applied(kind, *final(self)),
            requests(final(actions)@) == old(self).asked_after_switch(
                requests(old(actions)@),
                old(self).active_pane,
                kind,
                true,
            ),
            final(self).wf(),
    {
        self.set_pane_overlay_with_fetch(self.active_pane, kind, true, actions);
        let ghost on = *self;
        self.propagate_layer_sync();
        let ghost synced = *self;
        self.select_layer(kind);
        assert(old(self).overlay_set(old(self).active_pane as int, kind, true, on));
        assert(on.layers_propagated(synced));
    }

    /// Whether `after` is this interface with its active pane on a product. A
    /// tilt belonged to the product it was picked for, so a new product starts
    /// without one.
    pub open spec fn product_picked(self, product: RadarProduct, after: Gui) -> bool {
        let active = self.active_pane as int;
        let pane = self.panes@[active];
        &&& after == (Gui { panes: after.panes, ..self })
        &&& after.panes@ == self.panes@.update(
            active,
            PaneState {
                selected_product: product,
                selected_elevation: if pane.selected_product == product {
                    pane.selected_elevation
                } else {
                    Measure::Micro(0)
                },
                ..pane
            },
        )
    }

    /// The interface with the active pane asked to become a map, where it is
    /// none.
    pub open spec fn map_requested(self) -> Gui {
        if self.panes@[self.active_pane as int].kind_of() == PaneKind::MapView {
            self
        } else {
            Gui {
                gestures: Gestures {
                    pending_pane_kind: Some(
                        PendingKind { pane_idx: self.active_pane, kind: PaneKind::MapView },
                    ),
                    ..self.gestures
                },
                ..self
            }
        }
    }

    /// Whether `after` is this interface with the active pane on a product, asked
    /// to be a map, its radar layer on, its linked group following, and that layer
    /// open in the inspector.
    pub open spec fn product_tile_applied(self, product: RadarProduct, after: Gui) -> bool {
        exists|on: Gui, picked: Gui, synced: Gui|
            {
                &&& #[trigger] self.map_requested().overlay_set(
                    self.active_pane as int,
                    OverlayKind::Radar,
                    true,
                    on,
                )
                &&& #[trigger] on.product_picked(product, picked)
                &&& #[trigger] picked.layers_propagated(synced)
                &&& after == synced.inspecting_layer(OverlayKind::Radar)
            }
    }

    /// Aim the active pane at a product, as a map with its radar layer on, and
    /// open that layer in the inspector: what a product tile does.
    pub fn catalog_apply_product(&mut self, product: RadarProduct)
        requires
            old(self).wf(),
        ensures
            old(self).product_tile_applied(product, *final(self)),
            final(self).wf(),
    {
        let idx: usize = self.active_pane;
        if !self.panes[idx].is_map() {
            self.request_pane_kind(idx, PaneKind::MapView);
        }
        let ghost asked = *self;
        assert(asked == old(self).map_requested());
        self.set_pane_overlay(idx, OverlayKind::Radar, true);
        let ghost on = *self;
        self.pick_product(product);
        let ghost picked = *self;
        self.propagate_layer_sync();
        let ghost synced = *self;
        self.select_layer(OverlayKind::Radar);
        assert(asked.overlay_set(idx as int, OverlayKind::Radar, true, on));
        assert(on.product_picked(product, picked));
        assert(picked.layers_propagated(synced));
    }

    /// Put the active pane on a product.
    pub fn pick_product(&mut self, product: RadarProduct)
        requires
            old(self).wf(),
        ensures
            old(self).product_picked(product, *final(self)),
            final(self).wf(),
    {
        let idx: usize = self.active_pane;
        let mut panes: Vec<PaneState> = Vec::new();
        core::mem::swap(&mut panes, &mut self.panes);
        let ghost before = panes@;
        if panes[idx].selected_product != product {
            panes[idx].selected_product = product;
            panes[idx].selected_elevation = Measure::Micro(0);
        }
        assert(panes@ =~= before.update(idx as int, panes@[idx as int]));
        self.panes = panes;
    }

    /// Whether `after` is this interface with the model layer on for the active
    /// pane, its handler holding `setting`, the linked group following, and that
    /// layer open in the inspector.
    pub open spec fn parameter_tile_applied(self, setting: LayerSetting, after: Gui) -> bool {
        exists|on: Gui, set: Gui, synced: Gui|
            {
                &&& #[trigger] self.overlay_set(
                    self.active_pane as int,
                    OverlayKind::ModelData,
                    true,
                    on,
                )
                &&& #[trigger] on.setting_held(OverlayKind::ModelData, Some(setting), set)
                &&& #[trigger] set.layers_propagated(synced)
                &&& after == synced.inspecting_layer(OverlayKind::ModelData)
            }
    }

    /// What is asked for once a parameter is picked: the layer's data, once,
    /// where it lacks data or has to fetch for the parameter.
    pub open spec fn asked_for_parameter(
        self,
        asked: Seq<Request>,
        wants_fetch: bool,
    ) -> Seq<Request> {
        let switched = self.asked_after_switch(
            asked,
            self.active_pane,
            OverlayKind::ModelData,
            true,
        );
        if wants_fetch {
            queued(switched, OverlayKind::ModelData, self.active_pane)
        } else {
            switched
        }
    }

    /// Turn the model layer on for the active pane with a parameter picked, and
    /// open it in the inspector: what a parameter tile does. `setting` is what
    /// the layer's handler holds once it has taken the parameter, and
    /// `wants_fetch` whether it has to fetch for it.
    pub fn catalog_apply_hrrr(
        &mut self,
        setting: LayerSetting,
        wants_fetch: bool,
        actions: &mut Vec<GuiAction>,
    )
        requires
            old(self).wf(),
        ensures
            old(self).parameter_tile_applied(setting, *final(self)),
            requests(final(actions)@) == old(self).asked_for_parameter(
                requests(old(actions)@),
                wants_fetch,
            ),
            final(self).wf(),
    {
        let idx: usize = self.active_pane;
        self.set_pane_overlay_with_fetch(idx, OverlayKind::ModelData, true, actions);
        let ghost on = *self;
        if wants_fetch {
            push_overlay_fetch_once(actions, OverlayKind::ModelData, idx);
        }
        self.hold_setting(OverlayKind::ModelData, Some(setting));
        let ghost set = *self;
        self.propagate_layer_sync();
        let ghost synced = *self;
        self.select_layer(OverlayKind::ModelData);
        assert(old(self).overlay_set(idx as int, OverlayKind::ModelData, true, on));
        assert(on.setting_held(OverlayKind::ModelData, Some(setting), set));
        assert(set.layers_propagated(synced));
    }
}

/// A query that is in lower case keeps the labels whose lower case holds it.
pub proof fn law_lower_query_is_looked_for(query: Seq<char>, label: Seq<char>)
    requires
        lowered(query) == query,
    ensures
        found_in(query, label) == (query.len() == 0 || holds_text(lowered(label), query)),
{
}

/// The case of the letters makes no difference, neither in an ASCII label nor in
/// an ASCII query.
pub proof fn law_case_does_not_matter(query: Seq<char>, label: Seq<char>)
    requires
        is_plain(query),
        is_plain(label),
    ensures
        is_plain(in_capitals(query)),
        is_plain(in_capitals(label)),
        plainly_found(query, in_capitals(label)) == plainly_found(query, label),
        plainly_found(in_capitals(query), label) == plainly_found(query, label),
{
    crate::text::lemma_capitals_in_small(query);
    crate::text::lemma_capitals_in_small(label);
    crate::text::lemma_capitals_are_plain(query);
    crate::text::lemma_capitals_are_plain(label);
}

/// A label that an ASCII query keeps is kept by every part of the query: typing
/// on never brings a tile back.
pub proof fn law_part_of_query_is_found(query: Seq<char>, label: Seq<char>, i: int, j: int)
    requires
        plainly_found(query, label),
        0 <= i <= j <= query.len(),
    ensures
        plainly_found(query.subrange(i, j), label),
{
    if query.len() > 0 {
        crate::text::lemma_holds_part(in_small(label), in_small(query), i, j);
        assert(in_small(query).subrange(i, j) =~= in_small(query.subrange(i, j)));
    }
}

/// A filter without text hides nothing.
pub proof fn law_blank_search_shows_all(labels: Seq<Seq<char>>, i: int)
    requires
        0 <= i < labels.len(),
    ensures
        surviving(Seq::<char>::empty(), labels).contains(i),
{
    crate::sync::lemma_indices_where(
        labels.len() as int,
        |k: int| found_in(Seq::<char>::empty(), labels[k]),
    );
}

/// A search shows exactly the tiles whose label holds what is searched for, each once
/// and in their order.
pub proof fn law_search_shows_what_it_finds(
    query: Seq<char>,
    labels: Seq<Seq<char>>,
    i: int,
)
    requires
        0 <= i < labels.len(),
    ensures
        surviving(query, labels).contains(i) <==> query.len() == 0 || holds_text(
            lowered(labels[i]),
            lowered(query),
        ),
        surviving(query, labels).no_duplicates(),
        forall|j: int, k: int|
            0 <= j < k < surviving(query, labels).len() ==> #[trigger] surviving(query, labels)[j]
                < #[trigger] surviving(query, labels)[k],
{
    crate::sync::lemma_indices_where(labels.len() as int, |i: int| found_in(query, labels[i]));
}

/// An overlay tile turns its layer on for the pane in front, shares it with that
/// pane's group, and opens it in the inspector. No other layer that the pane has
/// settings for changes there.
pub proof fn law_overlay_tile_turns_its_layer_on(
    before: Gui,
    kind: OverlayKind,
    after: Gui,
    other: OverlayKind,
)
    requires
        before.wf(),
        before.overlay_tile_applied(kind, after),
    ensures
        ({
            let active = before.active_pane as int;
            &&& after.active_pane == before.active_pane
            &&& after.panes@[active].overlay_on(kind)
            &&& after.panels.insp_open
            &&& after.panels.inspector_sel == InspectorSelection::Layer(kind)
            &&& after.panes@[active].selected_product == before.panes@[active].selected_product
            &&& after.panes@[active].content == before.panes@[active].content
            &&& after.panes@[active].site == before.panes@[active].site
            &&& other != kind && before.panes@[active].overlay_configs@.contains_key(other)
                ==> after.panes@[active].overlay_on(other)
                == before.panes@[active].overlay_configs@[other].enabled
        }),
        forall|i: int|
            0 <= i < before.panes@.len() && before.settings.sync_layers
                && before.pane_layout@.count > 1
                && before.panes@[before.active_pane as int].layer_link && (
            #[trigger] before.panes@[i]).layer_link ==> after.panes@[i].overlay_on(kind),
{
    let (on, synced) = choose|on: Gui, synced: Gui|
        {
            &&& #[trigger] before.overlay_set(before.active_pane as int, kind, true, on)
            &&& #[trigger] on.layers_propagated(synced)
            &&& after == synced.inspecting_layer(kind)
        };
    let active = before.active_pane as int;
    crate::layers::law_switch_holds(
        before.overlays,
        before.panes@[active],
        kind,
        true,
        on.overlays,
        on.panes@[active],
        other,
    );
    crate::sync::law_layers_flow_from_the_front_pane(on, synced);
    assert forall|i: int|
        0 <= i < before.panes@.len() && before.settings.sync_layers && before.pane_layout@.count > 1
            && before.panes@[active].layer_link && (
        #[trigger] before.panes@[i]).layer_link implies after.panes@[i].overlay_on(kind) by {
        assert(on.panes@[i].layer_link);
        crate::sync::law_linked_panes_show_the_same(on, synced, i, kind);
    }
}

/// Picking a product puts the pane in front on it, without a tilt of the product
/// before, and keeps the tilt where it already was on it. No other pane changes.
pub proof fn law_picked_product_starts_without_a_tilt(
    before: Gui,
    product: RadarProduct,
    after: Gui,
    i: int,
)
    requires
        before.wf(),
        before.product_picked(product, after),
        0 <= i < before.panes@.len(),
    ensures
        ({
            let active = before.active_pane as int;
            let was = before.panes@[active];
            let pane = after.panes@[active];
            &&& pane.selected_product == product
            &&& was.selected_product == product ==> pane.selected_elevation
                == was.selected_elevation
            &&& was.selected_product != product ==> pane.selected_elevation == Measure::Micro(0)
            &&& pane.site == was.site
            &&& pane.content == was.content
            &&& pane.enabled_overlays == was.enabled_overlays
            &&& i != active ==> after.panes@[i] == before.panes@[i]
        }),
        after.panes@.len() == before.panes@.len(),
{
}

/// A product tile puts the pane in front on its product with the radar on, asks for a
/// map where it is none, and opens the radar in the inspector.
pub proof fn law_product_tile_shows_its_product(before: Gui, product: RadarProduct, after: Gui)
    requires
        before.wf(),
        before.product_tile_applied(product, after),
    ensures
        ({
            let active = before.active_pane as int;
            let was = before.panes@[active];
            let pane = after.panes@[active];
            &&& after.active_pane == before.active_pane
            &&& pane.selected_product == product
            &&& was.selected_product != product ==> pane.selected_elevation == Measure::Micro(0)
            &&& was.selected_product == product ==> pane.selected_elevation
                == was.selected_elevation
            &&& pane.overlay_on(OverlayKind::Radar)
            &&& after.panels.insp_open
            &&& after.panels.inspector_sel == InspectorSelection::Layer(OverlayKind::Radar)
            &&& !(was.content is MapView) ==> after.gestures.pending_pane_kind == Some(
                PendingKind { pane_idx: before.active_pane, kind: PaneKind::MapView },
            )
            &&& was.content is MapView ==> after.gestures.pending_pane_kind
                == before.gestures.pending_pane_kind
        }),
{
    let active = before.active_pane as int;
    let asked = before.map_requested();
    let (on, picked, synced) = choose|on: Gui, picked: Gui, synced: Gui|
        {
            &&& #[trigger] asked.overlay_set(active, OverlayKind::Radar, true, on)
            &&& #[trigger] on.product_picked(product, picked)
            &&& #[trigger] picked.layers_propagated(synced)
            &&& after == synced.inspecting_layer(OverlayKind::Radar)
        };
    crate::layers::law_switch_holds(
        asked.overlays,
        asked.panes@[active],
        OverlayKind::Radar,
        true,
        on.overlays,
        on.panes@[active],
        OverlayKind::Radar,
    );
    crate::sync::law_layers_flow_from_the_front_pane(picked, synced);
    assert(picked.panes@[active].enabled_overlays == on.panes@[active].enabled_overlays);
}

/// A parameter asks for the model layer's data where it lacks some or the parameter
/// needs a fetch, and never twice.
pub proof fn law_parameter_fetches_where_it_has_to(
    state: Gui,
    asked: Seq<Request>,
    wants_fetch: bool,
)
    ensures
        ({
            let after = state.asked_for_parameter(asked, wants_fetch);
            let feed = state.overlays.feed(OverlayKind::ModelData);
            let already = crate::actions::asks_for_overlay(asked, OverlayKind::ModelData);
            let lacking = !feed.has_data && !feed.fetching;
            &&& already || !(wants_fetch || lacking) ==> after == asked
            &&& !already && (wants_fetch || lacking) ==> after == asked.push(
                Request::Overlay { kind: OverlayKind::ModelData, pane_idx: state.active_pane },
            )
        }),
{
    let kind = OverlayKind::ModelData;
    let switched = state.asked_after_switch(asked, state.active_pane, kind, true);
    crate::actions::law_fetch_is_queued_once(asked, kind, state.active_pane, state.active_pane);
}

/// A group's heading counts the tiles that are drawn in it.
pub proof fn law_heading_counts_its_tiles(group: Seq<char>, count: nat)
    ensures
        heading_words(group, count) == group + " ("@ + decimal(count) + ")"@,
{
}

/// What is typed is searched for without the white space around it, in lower case; a
/// search of white space alone is none.
pub proof fn law_search_text_is_trimmed(typed: Seq<char>)
    ensures
        typed.len() > 0 && !crate::text::is_white(typed[0]) && !crate::text::is_white(typed.last())
            ==> filter_of(typed) == lowered(typed),
        filter_of(typed) == lowered(trimmed_text(typed)),
        filter_of(trimmed_text(typed)) == filter_of(typed),
{
    crate::text::law_trimmed_text_stands(typed);
}

/// Presets are drawn as a search finds them, the built-in ones and the user's own; saving
/// is offered while nothing is searched for.
pub proof fn law_search_shows_presets(
    state: Gui,
    group: Option<PresetGroup>,
    query: Seq<char>,
    i: usize,
)
    requires
        state.presets_drawn(group, query),
        i < state.catalog.presets@.len(),
    ensures
        query.len() == 0 ==> group is Some && group->0.offer_save,
        query.len() > 0 && group is Some ==> !group->0.offer_save,
        found_in(query, state.catalog.presets@[i as int].name@) <==> group is Some
            && group->0.user@.contains(i),
        found_in(query, "Severe Wx"@) <==> group is Some && group->0.builtin@.contains(0usize),
        found_in(query, "Rainfall"@) <==> group is Some && group->0.builtin@.contains(1usize),
        found_in(query, "Aviation"@) <==> group is Some && group->0.builtin@.contains(2usize),
{
    let names = preset_names(state.catalog.presets@);
    let user = surviving(query, names);
    let builtin = surviving(query, builtin_names());
    law_search_shows_what_it_finds(query, names, i as int);
    law_search_shows_what_it_finds(query, builtin_names(), 0);
    law_search_shows_what_it_finds(query, builtin_names(), 1);
    law_search_shows_what_it_finds(query, builtin_names(), 2);
    if let Some(drawn) = group {
        lemma_index_listed(drawn.user@, user, i);
        lemma_index_listed(drawn.builtin@, builtin, 0);
        lemma_index_listed(drawn.builtin@, builtin, 1);
        lemma_index_listed(drawn.builtin@, builtin, 2);
    }
}

/// An index is in a list of places exactly where it is in the same list of whole numbers.
proof fn lemma_index_listed(list: Seq<usize>, places: Seq<int>, i: usize)
    requires
        list.map_values(|k: usize| k as int) =~= places,
    ensures
        list.contains(i) <==> places.contains(i as int),
{
    let mapped = list.map_values(|k: usize| k as int);
    if list.contains(i) {
        let k = list.index_of(i);
        assert(mapped[k] == i as int);
    }
    if places.contains(i as int) {
        let k = places.index_of(i as int);
        assert(mapped[k] == i as int);
        assert(list[k] == i);
    }
}

/// A parameter tile turns the model layer on for the pane in front with the parameter's
/// setting, and opens it in the inspector.
pub proof fn law_parameter_tile_shows_its_parameter(
    before: Gui,
    setting: LayerSetting,
    after: Gui,
)
    requires
        before.wf(),
        before.parameter_tile_applied(setting, after),
    ensures
        ({
            let pane = after.panes@[before.active_pane as int];
            &&& after.active_pane == before.active_pane
            &&& pane.overlay_configs@.contains_key(OverlayKind::ModelData)
            &&& pane.overlay_configs@[OverlayKind::ModelData] == setting
            &&& pane.overlay_on(OverlayKind::ModelData) == setting.enabled
            &&& after.overlays.settings@[OverlayKind::ModelData] == setting
            &&& after.panels.insp_open
            &&& after.panels.inspector_sel == InspectorSelection::Layer(OverlayKind::ModelData)
            &&& pane.selected_product
                == before.panes@[before.active_pane as int].selected_product
        }),
{
    let active = before.active_pane as int;
    let (on, set, synced) = choose|on: Gui, set: Gui, synced: Gui|
        {
            &&& #[trigger] before.overlay_set(active, OverlayKind::ModelData, true, on)
            &&& #[trigger] on.setting_held(OverlayKind::ModelData, Some(setting), set)
            &&& #[trigger] set.layers_propagated(synced)
            &&& after == synced.inspecting_layer(OverlayKind::ModelData)
        };
    crate::controls::law_operated_setting_is_kept(
        on,
        OverlayKind::ModelData,
        Some(setting),
        set,
        OverlayKind::ModelData,
        active,
    );
    crate::sync::law_layers_flow_from_the_front_pane(set, synced);
}

/// A label survives a filter exactly where it holds the filter's text, and every label
/// survives a filter without any.
pub proof fn law_filter_keeps_what_holds_it(front: Seq<char>, filter: Seq<char>, back: Seq<char>)
    ensures
        survives(filter, front + filter + back),
        survives(Seq::<char>::empty(), front),
        filter.len() > front.len() ==> !survives(filter, front),
{
    crate::text::law_holding_is_having_inside(front, filter, front, back);
}

} // verus!
