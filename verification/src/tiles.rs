//! The catalog as a whole: the groups it shows, and what a press does.

use vstd::prelude::*;
use crate::actions::{requests, GuiAction, Request};
use crate::catalog::{
    filter_of, heading_words, normalized_query, surviving, tile_group, PresetGroup, TileGroup,
};
use crate::gui::{CatalogState, Gui, Popups};
use crate::kinds::RadarProduct;
use crate::overlays::{LayerSetting, OverlayKind};
use crate::presets::{
    aviation_preset, builtin_presets, rainfall_preset, severe_preset, PresetConfig, PresetFacts,
};
use crate::schedule::texts;

verus! {

/// The labels of the tiles that are not presets, in the order of their groups.
pub struct TileLabels {
    pub overlays: Vec<String>,
    pub products: Vec<String>,
    pub parameters: Vec<String>,
}

/// The groups of the catalog, as they are drawn.
pub struct CatalogGroups {
    pub presets: Option<PresetGroup>,
    pub overlays: Option<TileGroup>,
    pub products: Option<TileGroup>,
    pub parameters: Option<TileGroup>,
}

/// Whether a group is drawn as a filter leaves it: its heading counts the tiles
/// that are left, and without one it is not drawn at all.
pub open spec fn group_drawn(
    group: Option<TileGroup>,
    name: Seq<char>,
    query: Seq<char>,
    labels: Seq<Seq<char>>,
) -> bool {
    let left = surviving(query, labels);
    match group {
        Some(drawn) => {
            &&& left.len() > 0
            &&& drawn.tiles@.map_values(|i: usize| i as int) =~= left
            &&& drawn.heading@ == heading_words(name, left.len())
        },
        None => left.len() == 0,
    }
}

impl Gui {
    /// The groups of the catalog under the filter `query`.
    pub fn catalog_groups_for(&self, query: &str, labels: &TileLabels) -> (r: CatalogGroups)
        requires
            self.catalog.presets@.len() <= usize::MAX - 3,
        ensures
            self.presets_drawn(r.presets, query@),
            group_drawn(r.overlays, "Overlays"@, query@, texts(labels.overlays@)),
            group_drawn(r.products, "Radar products"@, query@, texts(labels.products@)),
            group_drawn(r.parameters, "HRRR parameters"@, query@, texts(labels.parameters@)),
    {
        CatalogGroups {
            presets: self.preset_group(query),
            overlays: tile_group("Overlays", query, &labels.overlays),
            products: tile_group("Radar products", query, &labels.products),
            parameters: tile_group("HRRR parameters", query, &labels.parameters),
        }
    }

    /// The groups of the catalog under what is typed into its search.
    pub fn catalog_groups(&self, labels: &TileLabels) -> (r: CatalogGroups)
        requires
            self.catalog.presets@.len() <= usize::MAX - 3,
        ensures
            ({
                let query = filter_of(self.catalog.query@);
                &&& self.presets_drawn(r.presets, query)
                &&& group_drawn(r.overlays, "Overlays"@, query, texts(labels.overlays@))
                &&& group_drawn(r.products, "Radar products"@, query, texts(labels.products@))
                &&& group_drawn(
                    r.parameters,
                    "HRRR parameters"@,
                    query,
                    texts(labels.parameters@),
                )
            }),
    {
        let query: String = normalized_query(self.catalog.query.as_str());
        self.catalog_groups_for(query.as_str(), labels)
    }
}

/// What is pressed in the catalog.
pub enum CatalogPress {
    /// A built-in preset, by index.
    BuiltIn(usize),
    /// One of the user's presets, by index.
    Preset(usize),
    /// The button that deletes one of the user's presets, by index.
    Delete(usize),
    /// The tile that opens and closes the naming of a new preset.
    SaveTile,
    /// A layer.
    Overlay(OverlayKind),
    /// A product.
    Product(RadarProduct),
    /// A model parameter, by what the layer's handler makes of it.
    Parameter { setting: LayerSetting, wants_fetch: bool },
    /// The button that closes the catalog, or the space around it.
    Close,
}

/// A built-in preset, by index.
pub open spec fn builtin(i: int) -> PresetFacts {
    if i == 0 {
        severe_preset()
    } else if i == 1 {
        rainfall_preset()
    } else {
        aviation_preset()
    }
}

impl Gui {
    /// This interface with the catalog shut.
    pub open spec fn catalog_shut(self) -> Gui {
        Gui { popups: Popups { catalog_open: false, ..self.popups }, ..self }
    }

    fn shut_catalog(&mut self)
        ensures
            *final(self) == old(self).catalog_shut(),
    {
        self.popups.catalog_open = false;
    }

    /// Whether a press leads from this interface, with `asked` queued, to `after`
    /// with `asked_after` queued. A tile does what it stands for and shuts the
    /// catalog; what concerns the presets themselves leaves it open.
    pub open spec fn pressed(
        self,
        press: CatalogPress,
        asked: Seq<Request>,
        after: Gui,
        asked_after: Seq<Request>,
    ) -> bool {
        match press {
            CatalogPress::BuiltIn(i) => exists|applied: Gui|
                #[trigger] self.preset_applied(builtin(i as int), asked, applied, asked_after)
                    && after == applied.catalog_shut(),
            CatalogPress::Preset(i) => exists|applied: Gui|
                #[trigger] self.preset_applied(
                    self.catalog.presets@[i as int]@,
                    asked,
                    applied,
                    asked_after,
                ) && after == applied.catalog_shut(),
            CatalogPress::Delete(i) => {
                &&& after == (Gui {
                    catalog: CatalogState { presets: after.catalog.presets, ..self.catalog },
                    ..self
                })
                &&& after.catalog.presets@ == self.catalog.presets@.remove(i as int)
                &&& asked_after == asked
            },
            CatalogPress::SaveTile => {
                &&& after == (Gui {
                    catalog: CatalogState { saving: !self.catalog.saving, ..self.catalog },
                    ..self
                })
                &&& asked_after == asked
            },
            CatalogPress::Overlay(kind) => {
                &&& exists|applied: Gui| #[trigger]
                    self.overlay_tile_applied(kind, applied) && after == applied.catalog_shut()
                &&& asked_after == self.asked_after_switch(asked, self.active_pane, kind, true)
            },
            CatalogPress::Product(product) => {
                &&& exists|applied: Gui| #[trigger]
                    self.product_tile_applied(product, applied) && after == applied.catalog_shut()
                &&& asked_after == asked
            },
            CatalogPress::Parameter { setting, wants_fetch } => {
                &&& exists|applied: Gui| #[trigger]
                    self.parameter_tile_applied(setting, applied) && after
                        == applied.catalog_shut()
                &&& asked_after == self.asked_for_parameter(asked, wants_fetch)
            },
            CatalogPress::Close => {
                &&& after == self.catalog_shut()
                &&& asked_after == asked
            },
        }
    }

    /// Whether this can be pressed: a preset has to be there.
    pub open spec fn can_press(self, press: CatalogPress) -> bool {
        match press {
            CatalogPress::BuiltIn(i) => i < 3,
            CatalogPress::Preset(i) => i < self.catalog.presets@.len(),
            CatalogPress::Delete(i) => i < self.catalog.presets@.len(),
            _ => true,
        }
    }

    /// Do what was pressed in the catalog.
    pub fn press_catalog(&mut self, press: CatalogPress, actions: &mut Vec<GuiAction>)
        requires
            old(self).wf(),
            old(self).can_press(press),
        ensures
            old(self).pressed(
                press,
                requests(old(actions)@),
                *final(self),
                requests(final(actions)@),
            ),
            final(self).wf(),
    {
        match press {
            CatalogPress::BuiltIn(i) => {
                let presets: Vec<PresetConfig> = builtin_presets();
                self.apply_preset(&presets[i], actions);
                assert(presets@[i as int]@ == builtin(i as int));
                assert(old(self).preset_applied(
                    builtin(i as int),
                    requests(old(actions)@),
                    *self,
                    requests(actions@),
                ));
                self.shut_catalog();
            },
            CatalogPress::Preset(i) => {
                let preset: PresetConfig = self.catalog.presets[i].clone();
                self.apply_preset(&preset, actions);
                self.shut_catalog();
            },
            CatalogPress::Delete(i) => {
                self.delete_preset(i);
            },
            CatalogPress::SaveTile => {
                self.catalog.saving = !self.catalog.saving;
            },
            CatalogPress::Overlay(kind) => {
                self.catalog_apply_overlay(kind, actions);
                self.shut_catalog();
            },
            CatalogPress::Product(product) => {
                self.catalog_apply_product(product);
                self.shut_catalog();
            },
            CatalogPress::Parameter { setting, wants_fetch } => {
                self.catalog_apply_hrrr(setting, wants_fetch, actions);
                self.shut_catalog();
            },
            CatalogPress::Close => {
                self.shut_catalog();
            },
        }
    }
}

/// What a press on the catalog leaves open and what it shuts: a tile that shows
/// something shuts the catalog, and what concerns the presets themselves leaves it.
pub proof fn law_press_shuts_the_catalog(
    before: Gui,
    press: CatalogPress,
    asked: Seq<Request>,
    after: Gui,
    asked_after: Seq<Request>,
)
    requires
        before.pressed(press, asked, after, asked_after),
    ensures
        press is BuiltIn || press is Preset || press is Overlay || press is Product || press
            is Parameter || press is Close ==> !after.popups.catalog_open,
        press is Delete || press is SaveTile ==> after.popups == before.popups && after.panes
            == before.panes && asked_after == asked,
        press is Close ==> after.panes == before.panes && after.catalog == before.catalog
            && asked_after == asked,
        press is SaveTile ==> after.catalog.saving == !before.catalog.saving,
{
}

/// Deleting a preset takes that one away and keeps every other, in order.
pub proof fn law_delete_takes_one_preset(
    before: Gui,
    i: usize,
    asked: Seq<Request>,
    after: Gui,
    asked_after: Seq<Request>,
    k: int,
)
    requires
        before.pressed(CatalogPress::Delete(i), asked, after, asked_after),
        i < before.catalog.presets@.len(),
        0 <= k < before.catalog.presets@.len(),
    ensures
        after.catalog.presets@.len() == before.catalog.presets@.len() - 1,
        k < i ==> after.catalog.presets@[k] == before.catalog.presets@[k],
        k > i ==> after.catalog.presets@[k - 1] == before.catalog.presets@[k],
{
}

/// A press on a preset shows that preset, the user's own as well as a built-in one.
pub proof fn law_press_shows_the_preset(
    before: Gui,
    press: CatalogPress,
    preset: PresetFacts,
    asked: Seq<Request>,
    after: Gui,
    asked_after: Seq<Request>,
    k: int,
    kind: OverlayKind,
)
    requires
        before.wf(),
        before.can_press(press),
        before.pressed(press, asked, after, asked_after),
        match press {
            CatalogPress::BuiltIn(i) => {
                ||| i == 0 && preset == severe_preset()
                ||| i == 1 && preset == rainfall_preset()
                ||| i == 2 && preset == aviation_preset()
            },
            CatalogPress::Preset(i) => preset == before.catalog.presets@[i as int]@,
            _ => false,
        },
        0 <= k < after.pane_layout@.count,
    ensures
        after.panes@[k].content is MapView,
        k < preset.panes.len() ==> after.panes@[k].selected_product == preset.panes[k].product,
        after.panes@[k].overlay_on(kind) == preset.overlays.contains(kind),
        1 <= preset.pane_count <= before.platform.width.pane_limit() ==> after.pane_layout@.count
            == preset.pane_count,
{
    let applied = choose|applied: Gui| #[trigger]
        before.preset_applied(preset, asked, applied, asked_after) && after
            == applied.catalog_shut();
    crate::apply_preset::law_preset_shows_each_pane(
        before,
        preset,
        asked,
        applied,
        asked_after,
        k,
        kind,
    );
}

/// A group of tiles is drawn with exactly those its search finds, and not at all
/// where it finds none.
pub proof fn law_group_draws_what_is_found(
    group: Option<TileGroup>,
    name: Seq<char>,
    query: Seq<char>,
    labels: Seq<Seq<char>>,
    i: usize,
)
    requires
        group_drawn(group, name, query, labels),
        i < labels.len(),
    ensures
        crate::catalog::found_in(query, labels[i as int]) <==> group is Some
            && group->0.tiles@.contains(i),
{
    let left = surviving(query, labels);
    crate::catalog::law_search_shows_what_it_finds(query, labels, i as int);
    if let Some(drawn) = group {
        let places = drawn.tiles@.map_values(|k: usize| k as int);
        assert(places =~= left);
        if left.contains(i as int) {
            let k = left.index_of(i as int);
            assert(places[k] == i as int);
            assert(drawn.tiles@[k] == i);
        }
        if drawn.tiles@.contains(i) {
            let k = drawn.tiles@.index_of(i);
            assert(places[k] == i as int);
            assert(left[k] == i as int);
        }
    }
}

/// A press on a layer turns it on for the pane in front and asks for its data where that
/// lacks; one on a product puts the pane on it and asks for nothing.
pub proof fn law_press_shows_the_tile(
    before: Gui,
    press: CatalogPress,
    asked: Seq<Request>,
    after: Gui,
    asked_after: Seq<Request>,
)
    requires
        before.wf(),
        before.pressed(press, asked, after, asked_after),
    ensures
        press matches CatalogPress::Overlay(kind) ==> {
            let feed = before.overlays.feed(kind);
            let lacking = !feed.has_data && !feed.fetching && !crate::actions::asks_for_overlay(
                asked,
                kind,
            );
            &&& after.panes@[before.active_pane as int].overlay_on(kind)
            &&& lacking ==> asked_after == asked.push(
                Request::Overlay { kind, pane_idx: before.active_pane },
            )
            &&& !lacking ==> asked_after == asked
        },
        press matches CatalogPress::Product(product) ==> {
            &&& after.panes@[before.active_pane as int].selected_product == product
            &&& after.panes@[before.active_pane as int].overlay_on(OverlayKind::Radar)
            &&& asked_after == asked
        },
        press is Parameter ==> after.panes@[before.active_pane as int].overlay_configs@[
            OverlayKind::ModelData
        ] == press->setting,
{
    match press {
        CatalogPress::Overlay(kind) => {
            let applied = choose|applied: Gui| #[trigger]
                before.overlay_tile_applied(kind, applied) && after == applied.catalog_shut();
            crate::catalog::law_overlay_tile_turns_its_layer_on(before, kind, applied, kind);
        },
        CatalogPress::Product(product) => {
            let applied = choose|applied: Gui| #[trigger]
                before.product_tile_applied(product, applied) && after == applied.catalog_shut();
            crate::catalog::law_product_tile_shows_its_product(before, product, applied);
        },
        CatalogPress::Parameter { setting, wants_fetch } => {
            let applied = choose|applied: Gui| #[trigger]
                before.parameter_tile_applied(setting, applied) && after == applied.catalog_shut();
            crate::catalog::law_parameter_tile_shows_its_parameter(before, setting, applied);
        },
        _ => {},
    }
}

} // verus!
