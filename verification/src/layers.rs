//! Turning layers on and off, and the ground under 3D views.

use vstd::prelude::*;
use crate::actions::{asks_for_overlay, push_overlay_fetch_once, requests, GuiAction, Request};
use crate::content::PaneContent;
use crate::gui::{Gui, MapState};
use crate::kinds::PaneKind;
use crate::layout::Rect;
use crate::overlays::{switched, switches, LayerHandlers, OverlayKind};
use crate::pane::PaneState;

verus! {

/// Whether turning a layer on or off for a pane leads from handlers `before`
/// and pane `pane` to `after` and `written`: the handlers take up the pane's own
/// settings, the switch is set, and the pane keeps what they then hold.
pub open spec fn overlay_written(
    before: LayerHandlers,
    pane: PaneState,
    kind: OverlayKind,
    on: bool,
    after: LayerHandlers,
    written: PaneState,
) -> bool {
    &&& after == (LayerHandlers { settings: after.settings, ..before })
    &&& switched(
        before.settings@.union_prefer_right(pane.overlay_configs@),
        kind,
        on,
        after.settings@,
    )
    &&& written == (PaneState {
        overlay_configs: written.overlay_configs,
        enabled_overlays: written.enabled_overlays,
        ..pane
    })
    &&& written.overlay_configs@ == after.settings@
    &&& written.enabled_overlays@ == switches(after.settings@)
}

/// Turn a layer on or off for a pane: its settings and its switch together, so
/// that neither undoes the other.
pub fn write_pane_overlay(
    handlers: &mut LayerHandlers,
    pane: &mut PaneState,
    kind: OverlayKind,
    on: bool,
)
    ensures
        overlay_written(*old(handlers), *old(pane), kind, on, *final(handlers), *final(pane)),
{
    if !pane.overlay_configs.is_empty() {
        handlers.load_pane_configs(&pane.overlay_configs);
    } else {
        assert(handlers.settings@.union_prefer_right(pane.overlay_configs@)
            =~= handlers.settings@);
    }
    handlers.set_enabled(kind, on);
    pane.overlay_configs = handlers.save_pane_configs();
    pane.enabled_overlays = handlers.save_enabled_map();
}

/// A layer that is turned on or off reads so on the pane, its settings agree,
/// and no other layer that the handlers or the pane knew changes.
pub proof fn law_switch_holds(
    before: LayerHandlers,
    pane: PaneState,
    kind: OverlayKind,
    on: bool,
    after: LayerHandlers,
    written: PaneState,
    other: OverlayKind,
)
    requires
        overlay_written(before, pane, kind, on, after, written),
    ensures
        written.overlay_on(kind) == on,
        written.overlay_configs@.contains_key(kind),
        written.overlay_configs@[kind].enabled == on,
        other != kind && pane.overlay_configs@.contains_key(other) ==> written.overlay_on(other)
            == pane.overlay_configs@[other].enabled,
{
    let loaded = before.settings@.union_prefer_right(pane.overlay_configs@);
    if other != kind && pane.overlay_configs@.contains_key(other) {
        assert(loaded.remove(kind).contains_key(other));
        assert(after.settings@.remove(kind)[other] == loaded.remove(kind)[other]);
        assert(after.settings@.remove(kind).contains_key(other));
    }
}

impl Gui {
    /// Whether `after` is this interface with a layer turned on or off on one
    /// pane.
    pub open spec fn overlay_set(
        self,
        idx: int,
        kind: OverlayKind,
        on: bool,
        after: Gui,
    ) -> bool {
        &&& after == (Gui { panes: after.panes, overlays: after.overlays, ..self })
        &&& after.panes@ == self.panes@.update(idx, after.panes@[idx])
        &&& overlay_written(
            self.overlays,
            self.panes@[idx],
            kind,
            on,
            after.overlays,
            after.panes@[idx],
        )
    }

    /// Whether turning a layer on has to fetch it: there is nothing to draw yet,
    /// and no refresh is in flight.
    pub open spec fn overlay_lacks_data(self, kind: OverlayKind) -> bool {
        !self.overlays.feed(kind).has_data && !self.overlays.feed(kind).fetching
    }

    /// What is asked for once a layer has been turned on or off for a pane.
    pub open spec fn asked_after_switch(
        self,
        asked: Seq<Request>,
        idx: usize,
        kind: OverlayKind,
        on: bool,
    ) -> Seq<Request> {
        if on && self.overlay_lacks_data(kind) && !asks_for_overlay(asked, kind) {
            asked.push(Request::Overlay { kind, pane_idx: idx })
        } else {
            asked
        }
    }

    /// Turn a layer on or off for a pane, and fetch it where it is turned on
    /// with nothing to draw. One fetch per layer serves every pane.
    pub fn set_pane_overlay_with_fetch(
        &mut self,
        pane_idx: usize,
        kind: OverlayKind,
        on: bool,
        actions: &mut Vec<GuiAction>,
    )
        requires
            pane_idx < old(self).panes@.len(),
        ensures
            old(self).overlay_set(pane_idx as int, kind, on, *final(self)),
            requests(final(actions)@) == old(self).asked_after_switch(
                requests(old(actions)@),
                pane_idx,
                kind,
                on,
            ),
    {
        let lacking: bool = {
            let feed = self.overlays.feed_of(kind);
            !feed.has_data && !feed.fetching
        };
        self.set_pane_overlay(pane_idx, kind, on);
        if on && lacking {
            push_overlay_fetch_once(actions, kind, pane_idx);
        }
    }

    /// Turn a layer on or off for a pane.
    pub fn set_pane_overlay(&mut self, pane_idx: usize, kind: OverlayKind, on: bool)
        requires
            pane_idx < old(self).panes@.len(),
        ensures
            old(self).overlay_set(pane_idx as int, kind, on, *final(self)),
    {
        let mut panes: Vec<PaneState> = Vec::new();
        core::mem::swap(&mut panes, &mut self.panes);
        write_pane_overlay(&mut self.overlays, &mut panes[pane_idx], kind, on);
        self.panes = panes;
    }

    /// Turn a layer on or off for the active pane.
    pub fn set_active_pane_overlay(&mut self, kind: OverlayKind, on: bool)
        requires
            old(self).wf(),
        ensures
            old(self).overlay_set(old(self).active_pane as int, kind, on, *final(self)),
            final(self).wf(),
    {
        self.set_pane_overlay(self.active_pane, kind, on);
    }

    /// Set the extra tile detail a floor can show.
    pub fn set_floor_tile_zoom_bias(&mut self, bias: u8)
        ensures
            *final(self) == (Gui {
                map: MapState { floor_tile_zoom_bias: bias, ..old(self).map },
                ..*old(self)
            }),
    {
        self.map.floor_tile_zoom_bias = bias;
    }

    /// Whether the `k`-th pane is a 3D view standing on pane `idx`.
    pub open spec fn stands_on(self, k: int, idx: int) -> bool {
        self.panes@[k].content matches PaneContent::Volume(volume) && !volume.hide_floor
            && (volume.source_pane matches Some(source) && source == idx)
    }

    /// Whether some shown 3D view is standing on this pane.
    pub open spec fn is_floor(self, pane_idx: int) -> bool {
        exists|k: int| 0 <= k < self.shown() && #[trigger] self.stands_on(k, pane_idx)
    }

    /// Whether some shown 3D view is standing on this pane.
    pub fn is_floor_source(&self, pane_idx: usize) -> (r: bool)
        ensures
            r == self.is_floor(pane_idx as int),
    {
        let count: usize = self.visible_pane_count();
        let mut i: usize = 0;
        while i < count
            invariant
                count == self.shown(),
                count <= self.panes@.len(),
                i <= count,
                forall|k: int| 0 <= k < i ==> !#[trigger] self.stands_on(k, pane_idx as int),
            decreases count - i,
        {
            let here: bool = match &self.panes[i].content {
                PaneContent::Volume(volume) => !volume.hide_floor && match volume.source_pane {
                    Some(source) => source == pane_idx,
                    None => false,
                },
                _ => false,
            };
            assert(here == self.stands_on(i as int, pane_idx as int));
            if here {
                return true;
            }
            i = i + 1;
        }
        false
    }

    /// How many tiles the first `n` shown panes keep resident under 3D views,
    /// given how many each one would keep.
    pub open spec fn floor_tiles(self, n: int, resident: Seq<usize>) -> int
        decreases n,
    {
        if n <= 0 {
            0
        } else {
            self.floor_tiles(n - 1, resident) + if self.panes@[n - 1].kind_of()
                == PaneKind::MapView && self.is_floor(n - 1) && n - 1 < resident.len() {
                resident[n - 1] as int
            } else {
                0
            }
        }
    }

    /// How many raster layers a map pane draws: the base, and the labels where
    /// they are on.
    pub fn tile_layers(&self, pane_idx: usize) -> (r: usize)
        requires
            pane_idx < self.panes@.len(),
        ensures
            r == if self.panes@[pane_idx as int].overlay_on(OverlayKind::CityLabels) {
                2usize
            } else {
                1usize
            },
    {
        if self.panes[pane_idx].is_overlay_enabled(OverlayKind::CityLabels) {
            2
        } else {
            1
        }
    }

    /// Whether all tiles under 3D views together fit a cache of `capacity`. The
    /// cache is one for all panes, so the sum counts and not each pane alone.
    pub fn floor_tiles_fit(&self, resident: &Vec<usize>, capacity: usize) -> (r: bool)
        ensures
            r == (self.floor_tiles(self.shown(), resident@) <= capacity),
    {
        let count: usize = self.visible_pane_count();
        let mut total: usize = 0;
        let mut i: usize = 0;
        while i < count
            invariant
                count == self.shown(),
                count <= self.panes@.len(),
                i <= count,
                total == self.floor_tiles(i as int, resident@),
                total <= capacity,
            decreases count - i,
        {
            if self.panes[i].is_map() && self.is_floor_source(i) && i < resident.len() {
                if resident[i] > capacity - total {
                    proof {
                        self.lemma_floor_tiles_grow(i + 1, count as int, resident@);
                    }
                    return false;
                }
                total = total + resident[i];
            }
            i = i + 1;
        }
        true
    }

    proof fn lemma_floor_tiles_grow(self, m: int, n: int, resident: Seq<usize>)
        requires
            0 <= m <= n,
        ensures
            self.floor_tiles(m, resident) <= self.floor_tiles(n, resident),
        decreases n,
    {
        if m < n {
            self.lemma_floor_tiles_grow(m, n - 1, resident);
        }
    }

    /// How much deeper a map pane fetches its tiles.
    pub open spec fn tile_bias(self, pane_idx: int, resident: Seq<usize>, capacity: int) -> u8 {
        if self.is_floor(pane_idx) && self.floor_tiles(self.shown(), resident) <= capacity {
            self.map.floor_tile_zoom_bias
        } else {
            0u8
        }
    }

    /// How much deeper a map pane fetches its tiles: the frame's bias where some
    /// 3D view stands on it and all tiles fit, and nothing otherwise.
    pub fn tile_zoom_bias_for_pane(
        &self,
        pane_idx: usize,
        resident: &Vec<usize>,
        capacity: usize,
    ) -> (r: u8)
        ensures
            r == self.tile_bias(pane_idx as int, resident@, capacity as int),
            r == if self.is_floor(pane_idx as int) && self.floor_tiles(self.shown(), resident@)
                <= capacity {
                self.map.floor_tile_zoom_bias
            } else {
                0u8
            },
    {
        if self.map.floor_tile_zoom_bias == 0 || !self.is_floor_source(pane_idx) {
            return 0;
        }
        if !self.floor_tiles_fit(resident, capacity) {
            return 0;
        }
        self.map.floor_tile_zoom_bias
    }

    /// Where the map is drawn that the `k`-th pane stands on, if it stands on one
    /// whose place is known.
    pub open spec fn floor_rect(self, k: int) -> Option<Rect> {
        match self.panes@[k].content {
            PaneContent::Volume(volume) => if !volume.hide_floor && volume.source_pane is Some {
                let source = volume.source_pane->0;
                if source < self.shown() && self.panes@[source as int].kind_of()
                    == PaneKind::MapView && source < self.map.pane_rects@.len() {
                    self.map.pane_rects@[source as int]
                } else {
                    None
                }
            } else {
                None
            },
            _ => None,
        }
    }

    /// The distinct places of the maps that the first `n` panes stand on, in
    /// order.
    pub open spec fn floor_rects(self, n: int) -> Seq<Rect>
        decreases n,
    {
        if n <= 0 {
            Seq::empty()
        } else {
            let before = self.floor_rects(n - 1);
            match self.floor_rect(n - 1) {
                Some(rect) => if before.contains(rect) {
                    before
                } else {
                    before.push(rect)
                },
                None => before,
            }
        }
    }

    /// Where the map is drawn that a pane stands on.
    fn find_floor_rect(&self, k: usize) -> (r: Option<Rect>)
        requires
            k < self.panes@.len(),
        ensures
            r == self.floor_rect(k as int),
    {
        let source: usize = match &self.panes[k].content {
            PaneContent::Volume(volume) => {
                if volume.hide_floor {
                    return None;
                }
                match volume.source_pane {
                    Some(source) => source,
                    None => {
                        return None;
                    },
                }
            },
            _ => {
                return None;
            },
        };
        if source < self.visible_pane_count() && self.panes[source].is_map() && source
            < self.map.pane_rects.len() {
            self.map.pane_rects[source]
        } else {
            None
        }
    }

    /// Where the maps are drawn that some shown 3D view stands on, each once.
    pub fn mirror_source_rects(&self) -> (r: Vec<Rect>)
        ensures
            r@ == self.floor_rects(self.shown()),
    {
        let count: usize = self.visible_pane_count();
        let mut rects: Vec<Rect> = Vec::new();
        let mut i: usize = 0;
        assert(rects@ =~= self.floor_rects(0));
        while i < count
            invariant
                count == self.shown(),
                count <= self.panes@.len(),
                i <= count,
                rects@ == self.floor_rects(i as int),
            decreases count - i,
        {
            match self.find_floor_rect(i) {
                Some(rect) => {
                    if !holds_rect(&rects, rect) {
                        rects.push(rect);
                    }
                },
                None => {},
            }
            i = i + 1;
        }
        rects
    }
}

/// Whether a rectangle is in the list.
fn holds_rect(list: &Vec<Rect>, rect: Rect) -> (r: bool)
    ensures
        r == list@.contains(rect),
{
    let mut i: usize = 0;
    while i < list.len()
        invariant
            i <= list@.len(),
            forall|k: int| 0 <= k < i ==> list@[k] != rect,
        decreases list@.len() - i,
    {
        if list[i] == rect {
            return true;
        }
        i = i + 1;
    }
    false
}

/// Turning a layer on for a pane asks for its data exactly where there is none yet,
/// none is on its way and nobody has asked; turning it off asks for nothing.
pub proof fn law_data_is_fetched_when_it_lacks(
    state: Gui,
    asked: Seq<Request>,
    idx: usize,
    kind: OverlayKind,
    on: bool,
)
    ensures
        ({
            let after = state.asked_after_switch(asked, idx, kind, on);
            let feed = state.overlays.feed(kind);
            let already = exists|i: int|
                0 <= i < asked.len() && (#[trigger] asked[i]) is Overlay && asked[i]->Overlay_kind
                    == kind;
            &&& on && !feed.has_data && !feed.fetching && !already ==> after == asked.push(
                Request::Overlay { kind, pane_idx: idx },
            )
            &&& !on || feed.has_data || feed.fetching || already ==> after == asked
        }),
{
    if exists|i: int|
        0 <= i < asked.len() && (#[trigger] asked[i]) is Overlay && asked[i]->Overlay_kind == kind {
        let i = choose|i: int|
            0 <= i < asked.len() && (#[trigger] asked[i]) is Overlay && asked[i]->Overlay_kind
                == kind;
        assert(asked[i] matches Request::Overlay { kind: k, .. } && k == kind);
    }
}

/// Turning a layer on or off for a pane turns it on or off there and on no other
/// pane, keeps the layer's options, and moves nothing else of the pane.
pub proof fn law_switch_is_of_one_pane(
    before: Gui,
    idx: int,
    kind: OverlayKind,
    on: bool,
    after: Gui,
    i: int,
)
    requires
        0 <= idx < before.panes@.len(),
        0 <= i < before.panes@.len(),
        before.overlay_set(idx, kind, on, after),
    ensures
        after.panes@.len() == before.panes@.len(),
        after.panes@[idx].overlay_on(kind) == on,
        before.panes@[idx].overlay_configs@.contains_key(kind)
            ==> after.panes@[idx].overlay_configs@[kind].options@
            == before.panes@[idx].overlay_configs@[kind].options@,
        after.overlays.settings@.contains_key(kind),
        after.overlays.settings@[kind].enabled == on,
        after.overlays.feeds == before.overlays.feeds,
        i != idx ==> after.panes@[i] == before.panes@[i],
        after.panes@[idx].site == before.panes@[idx].site,
        after.panes@[idx].content == before.panes@[idx].content,
        after.panes@[idx].viewport == before.panes@[idx].viewport,
        after.panes@[idx].draw_order == before.panes@[idx].draw_order,
        after.panes@[idx].selected_product == before.panes@[idx].selected_product,
        after.active_pane == before.active_pane,
        after.pane_layout == before.pane_layout,
{
}

/// Turning a layer on and off again leaves every other layer that the pane has
/// settings for as it was.
pub proof fn law_switching_back_leaves_the_others(
    before: LayerHandlers,
    pane: PaneState,
    kind: OverlayKind,
    on: bool,
    mid: LayerHandlers,
    there: PaneState,
    after: LayerHandlers,
    back: PaneState,
    other: OverlayKind,
)
    requires
        overlay_written(before, pane, kind, on, mid, there),
        overlay_written(mid, there, kind, !on, after, back),
        other != kind,
        pane.overlay_configs@.contains_key(other),
    ensures
        back.overlay_configs@.contains_key(other),
        back.overlay_configs@[other] == pane.overlay_configs@[other],
        back.overlay_on(kind) == !on,
{
    let loaded = before.settings@.union_prefer_right(pane.overlay_configs@);
    let again = mid.settings@.union_prefer_right(there.overlay_configs@);
    crate::overlays::law_switching_touches_one_layer(loaded, kind, on, mid.settings@, other);
    crate::overlays::law_switching_touches_one_layer(again, kind, !on, after.settings@, other);
}

/// A pane is ground exactly where some 3D view on screen that shows its floor was
/// dragged on it.
pub proof fn law_floor_is_under_a_view(state: Gui, pane_idx: int, k: int)
    requires
        state.pane_layout@.count >= 0,
        0 <= k < state.panes@.len(),
    ensures
        k < state.pane_layout@.count && state.panes@[k].content is Volume
            && !state.panes@[k].content->Volume_0.hide_floor
            && state.panes@[k].content->Volume_0.source_pane is Some
            && state.panes@[k].content->Volume_0.source_pane->0 == pane_idx ==> state.is_floor(
            pane_idx,
        ),
        state.is_floor(pane_idx) ==> exists|j: int|
            0 <= j < state.panes@.len() && j < state.pane_layout@.count && (
            #[trigger] state.panes@[j]).content is Volume
                && !state.panes@[j].content->Volume_0.hide_floor
                && state.panes@[j].content->Volume_0.source_pane is Some
                && state.panes@[j].content->Volume_0.source_pane->0 == pane_idx,
{
    if state.panes@[k].content is Volume && !state.panes@[k].content->Volume_0.hide_floor
        && state.panes@[k].content->Volume_0.source_pane is Some
        && state.panes@[k].content->Volume_0.source_pane->0 == pane_idx {
        assert(state.stands_on(k, pane_idx));
    }
    if state.is_floor(pane_idx) {
        let j = choose|j: int| 0 <= j < state.shown() && #[trigger] state.stands_on(j, pane_idx);
        assert(state.panes@[j].content is Volume);
    }
}

/// Only maps that some 3D view stands on count towards the tiles that are kept, each
/// with as many as it would keep.
pub proof fn law_floor_tiles_add_up(state: Gui, n: int, resident: Seq<usize>)
    requires
        n >= 0,
    ensures
        state.floor_tiles(0, resident) == 0,
        n < resident.len() && state.panes@[n].content is MapView && state.is_floor(n)
            ==> state.floor_tiles(n + 1, resident) == state.floor_tiles(n, resident) + resident[n],
        n >= resident.len() || !(state.panes@[n].content is MapView) || !state.is_floor(n)
            ==> state.floor_tiles(n + 1, resident) == state.floor_tiles(n, resident),
{
}

/// The places of the maps under 3D views are listed, each once, and no other place
/// is.
pub proof fn law_floors_are_listed_once(state: Gui, n: int, k: int)
    requires
        0 <= k < n,
    ensures
        state.floor_rects(n).no_duplicates(),
        state.floor_rect(k) is Some ==> state.floor_rects(n).contains(state.floor_rect(k)->0),
        forall|rect: Rect| #[trigger]
            state.floor_rects(n).contains(rect) ==> exists|j: int|
                0 <= j < n && #[trigger] state.floor_rect(j) == Some(rect),
    decreases n,
{
    let before = state.floor_rects(n - 1);
    let after = state.floor_rects(n);
    if n == 1 {
        assert(before =~= Seq::<Rect>::empty());
    } else if k < n - 1 {
        law_floors_are_listed_once(state, n - 1, k);
    } else {
        law_floors_are_listed_once(state, n - 1, 0);
    }
    if let Some(rect) = state.floor_rect(n - 1) {
        if before.contains(rect) {
            assert(after == before);
        } else {
            assert(after == before.push(rect));
            assert(after[before.len() as int] == rect);
        }
    }
    if k < n - 1 && state.floor_rect(k) is Some {
        let at = before.index_of(state.floor_rect(k)->0);
        assert(after[at] == state.floor_rect(k)->0);
    }
    assert forall|rect: Rect| #[trigger] after.contains(rect) implies exists|j: int|
        0 <= j < n && #[trigger] state.floor_rect(j) == Some(rect) by {
        if before.contains(rect) {
            let j = choose|j: int| 0 <= j < n - 1 && #[trigger] state.floor_rect(j) == Some(rect);
            assert(state.floor_rect(j) == Some(rect));
        } else {
            let at = after.index_of(rect);
            assert(at == before.len());
            assert(state.floor_rect(n - 1) == Some(rect));
        }
    }
}

/// A 3D view stands on the map it was dragged on, where that is on screen and drawn
/// and the view shows its floor, and on nothing else.
pub proof fn law_view_stands_on_its_map(state: Gui, k: int)
    ensures
        state.floor_rect(k) matches Some(rect) ==> {
            &&& state.panes@[k].content is Volume
            &&& !state.panes@[k].content->Volume_0.hide_floor
            &&& state.panes@[k].content->Volume_0.source_pane is Some
            &&& {
                let source = state.panes@[k].content->Volume_0.source_pane->0 as int;
                &&& source < state.shown()
                &&& state.panes@[source].content is MapView
                &&& state.map.pane_rects@[source] == Some(rect)
            }
        },
        state.panes@[k].content is Volume && !state.panes@[k].content->Volume_0.hide_floor
            && state.panes@[k].content->Volume_0.source_pane is Some ==> {
            let source = state.panes@[k].content->Volume_0.source_pane->0 as int;
            source < state.shown() && state.panes@[source].content is MapView && source
                < state.map.pane_rects@.len() ==> state.floor_rect(k)
                == state.map.pane_rects@[source]
        },
{
}

/// Only a map that some 3D view stands on fetches deeper, by the frame's bias, and only
/// while the tiles of all such maps together fit.
pub proof fn law_only_floors_fetch_deeper(
    state: Gui,
    pane_idx: int,
    resident: Seq<usize>,
    capacity: int,
)
    ensures
        !state.is_floor(pane_idx) ==> state.tile_bias(pane_idx, resident, capacity) == 0,
        state.floor_tiles(state.shown(), resident) > capacity ==> state.tile_bias(
            pane_idx,
            resident,
            capacity,
        ) == 0,
        state.is_floor(pane_idx) && state.floor_tiles(state.shown(), resident) <= capacity
            ==> state.tile_bias(pane_idx, resident, capacity) == state.map.floor_tile_zoom_bias,
{
}

} // verus!
