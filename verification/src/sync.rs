//! What panes share: time, layers and viewport.

use vstd::prelude::*;
use crate::content::PaneContent;
use crate::gui::Gui;
use crate::kinds::PaneKind;
use crate::overlays::{copy_configs, copy_enabled, copy_kinds, OverlayKind};
use crate::pane::PaneState;
use crate::scan::{copy_scan, facts_of};
use crate::viewport::{MapPoint, Viewport};

verus! {

/// Those of the first `n` indices that answer, in order.
pub open spec fn indices_where(n: int, answers: spec_fn(int) -> bool) -> Seq<int>
    decreases n,
{
    if n <= 0 {
        Seq::empty()
    } else {
        let before = indices_where(n - 1, answers);
        if answers(n - 1) {
            before.push(n - 1)
        } else {
            before
        }
    }
}

/// The list of indices that answer holds exactly those, in order.
pub proof fn lemma_indices_where(n: int, answers: spec_fn(int) -> bool)
    ensures
        forall|i: int| #[trigger]
            indices_where(n, answers).contains(i) <==> 0 <= i < n && answers(i),
        forall|j: int, k: int|
            0 <= j < k < indices_where(n, answers).len() ==> #[trigger] indices_where(
                n,
                answers,
            )[j] < #[trigger] indices_where(n, answers)[k],
    decreases n,
{
    if n > 0 {
        lemma_indices_where(n - 1, answers);
        let before = indices_where(n - 1, answers);
        let now = indices_where(n, answers);
        assert forall|i: int| #[trigger] now.contains(i) <==> 0 <= i < n && answers(i) by {
            assert(before.contains(i) <==> 0 <= i < n - 1 && answers(i));
            if now.contains(i) {
                let k = now.index_of(i);
                if k < before.len() {
                    assert(before[k] == i);
                    assert(before.contains(i));
                }
            }
            if before.contains(i) {
                let k = before.index_of(i);
                assert(now[k] == i);
            }
            if i == n - 1 && answers(i) {
                assert(now[before.len() as int] == i);
            }
        }
        assert forall|j: int, k: int| 0 <= j < k < now.len() implies #[trigger] now[j]
            < #[trigger] now[k] by {
            if k == before.len() {
                assert(before.contains(before[j]));
            }
        }
    }
}

impl Gui {
    /// Whether shared time reaches a pane: the pane that is driven, and with
    /// layers in sync every other that is still linked.
    pub open spec fn shares_time(self, idx: int) -> bool {
        idx == self.active_pane || idx >= self.panes@.len() || self.panes@[idx].time_link
    }

    /// Whether a shared loop action reaches a pane: shared time does, and the
    /// pane is driven or animates frames. A 3D pane that is not driven is left
    /// out, and so is a section that has not been aimed.
    pub open spec fn shares_loop(self, idx: int) -> bool {
        self.shares_time(idx) && (idx == self.active_pane || idx >= self.panes@.len() || (
        !self.panes@[idx].unaimed_section() && self.panes@[idx].kind_of() != PaneKind::Volume))
    }

    /// Whether panes act together.
    pub open spec fn layers_synced(self) -> bool {
        self.settings.sync_layers && self.pane_layout@.count > 1
    }

    /// The panes that shared time reaches, in order.
    pub open spec fn time_targets(self) -> Seq<int> {
        if self.layers_synced() {
            indices_where(self.pane_layout@.count, |i: int| self.shares_time(i))
        } else {
            seq![self.active_pane as int]
        }
    }

    /// The panes that a shared loop action reaches, in order.
    pub open spec fn loop_targets(self) -> Seq<int> {
        if self.layers_synced() {
            indices_where(self.pane_layout@.count, |i: int| self.shares_loop(i))
        } else {
            seq![self.active_pane as int]
        }
    }

    /// The panes that shared time reaches.
    pub fn time_sync_targets(&self) -> (r: Vec<usize>)
        ensures
            r@.map_values(|i: usize| i as int) =~= self.time_targets(),
    {
        let mut targets: Vec<usize> = Vec::new();
        let count: usize = self.pane_layout.pane_count();
        if !(self.settings.sync_layers && count > 1) {
            targets.push(self.active_pane);
            return targets;
        }
        let ghost answers = |i: int| self.shares_time(i);
        let mut i: usize = 0;
        while i < count
            invariant
                count == self.pane_layout@.count,
                answers == |i: int| self.shares_time(i),
                i <= count,
                targets@.map_values(|k: usize| k as int) =~= indices_where(i as int, answers),
            decreases count - i,
        {
            let linked: bool = i == self.active_pane || match self.pane(i) {
                Some(pane) => pane.time_link,
                None => true,
            };
            assert(linked == answers(i as int));
            if linked {
                targets.push(i);
            }
            i = i + 1;
        }
        targets
    }

    /// The panes that a shared loop action reaches.
    pub fn loop_sync_targets(&self) -> (r: Vec<usize>)
        ensures
            r@.map_values(|i: usize| i as int) =~= self.loop_targets(),
    {
        let mut targets: Vec<usize> = Vec::new();
        let count: usize = self.pane_layout.pane_count();
        if !(self.settings.sync_layers && count > 1) {
            targets.push(self.active_pane);
            return targets;
        }
        let ghost answers = |i: int| self.shares_loop(i);
        let mut i: usize = 0;
        while i < count
            invariant
                count == self.pane_layout@.count,
                answers == |i: int| self.shares_loop(i),
                i <= count,
                targets@.map_values(|k: usize| k as int) =~= indices_where(i as int, answers),
            decreases count - i,
        {
            let reached: bool = i == self.active_pane || match self.pane(i) {
                Some(pane) => pane.time_link && pane.can_loop() && pane.kind() != PaneKind::Volume,
                None => true,
            };
            assert(reached == answers(i as int));
            if reached {
                targets.push(i);
            }
            i = i + 1;
        }
        targets
    }

    /// The pane that is driven is always reached, whatever its own links say.
    pub proof fn law_driven_pane_responds(self)
        requires
            self.active_pane < self.pane_layout@.count,
        ensures
            self.time_targets().contains(self.active_pane as int),
            self.loop_targets().contains(self.active_pane as int),
    {
        let active = self.active_pane as int;
        if self.layers_synced() {
            lemma_indices_where(self.pane_layout@.count, |i: int| self.shares_time(i));
            lemma_indices_where(self.pane_layout@.count, |i: int| self.shares_loop(i));
        } else {
            assert(self.time_targets()[0] == active);
            assert(self.loop_targets()[0] == active);
        }
    }

    /// A pane that is not driven and has left shared time is reached by nothing
    /// that is shared.
    pub proof fn law_unlinked_pane_is_left_alone(self, idx: int)
        requires
            0 <= idx < self.panes@.len(),
            idx != self.active_pane,
            !self.panes@[idx].time_link,
        ensures
            !self.time_targets().contains(idx),
            !self.loop_targets().contains(idx),
    {
        if self.layers_synced() {
            lemma_indices_where(self.pane_layout@.count, |i: int| self.shares_time(i));
            lemma_indices_where(self.pane_layout@.count, |i: int| self.shares_loop(i));
        }
    }
}

/// A pane once it shows what `source` shows. The kind and its state stay the
/// pane's own, and so does its time where it has left shared time.
pub open spec fn converged(source: PaneState, before: PaneState, after: PaneState) -> bool {
    &&& after == (PaneState {
        site: after.site,
        scan_info: after.scan_info,
        viewing_live: if before.time_link {
            source.viewing_live
        } else {
            before.viewing_live
        },
        time_step_secs: if before.time_link {
            source.time_step_secs
        } else {
            before.time_step_secs
        },
        draw_order: after.draw_order,
        enabled_overlays: after.enabled_overlays,
        overlay_configs: after.overlay_configs,
        selected_product: source.selected_product,
        selected_elevation: source.selected_elevation,
        ..before
    })
    &&& after.site@ == source.site@
    &&& facts_of(after.scan_info) == facts_of(source.scan_info)
    &&& after.draw_order@ == source.draw_order@
    &&& after.enabled_overlays@ == source.enabled_overlays@
    &&& after.overlay_configs@ == source.overlay_configs@
}

/// Show on `pane` what `source` shows.
fn converge(pane: &mut PaneState, source: &PaneState)
    ensures
        converged(*source, *old(pane), *final(pane)),
{
    pane.site = source.site.clone();
    pane.scan_info = copy_scan(&source.scan_info);
    if pane.time_link {
        pane.viewing_live = source.viewing_live;
        pane.time_step_secs = source.time_step_secs;
    }
    pane.draw_order = copy_kinds(&source.draw_order);
    pane.enabled_overlays = copy_enabled(&source.enabled_overlays);
    pane.overlay_configs = copy_configs(&source.overlay_configs);
    pane.selected_product = source.selected_product;
    pane.selected_elevation = source.selected_elevation;
}

/// A pane of a group in which pane `active`, which is `source`, leads.
pub open spec fn follows(
    source: PaneState,
    active: int,
    i: int,
    before: PaneState,
    after: PaneState,
) -> bool {
    if i != active && before.layer_link {
        converged(source, before, after)
    } else {
        after == before
    }
}

/// Show on every linked pane but `active` what `source` shows.
fn converge_all(panes: &mut Vec<PaneState>, source: &PaneState, active: usize)
    ensures
        final(panes)@.len() == old(panes)@.len(),
        forall|i: int|
            0 <= i < old(panes)@.len() ==> follows(
                *source,
                active as int,
                i,
                old(panes)@[i],
                #[trigger] final(panes)@[i],
            ),
{
    let mut i: usize = 0;
    while i < panes.len()
        invariant
            i <= panes@.len(),
            panes@.len() == old(panes)@.len(),
            forall|k: int|
                0 <= k < i ==> follows(
                    *source,
                    active as int,
                    k,
                    old(panes)@[k],
                    #[trigger] panes@[k],
                ),
            forall|k: int| i <= k < panes@.len() ==> #[trigger] panes@[k] == old(panes)@[k],
        decreases panes@.len() - i,
    {
        if i != active && panes[i].layer_link {
            converge(&mut panes[i], source);
        }
        i = i + 1;
    }
}

impl Gui {
    /// Whether `after` is this interface once the active pane's layers have
    /// reached its linked group: with sync on, from a linked pane to linked
    /// panes only.
    pub open spec fn layers_propagated(self, after: Gui) -> bool {
        let source = self.panes@[self.active_pane as int];
        if self.layers_synced() && source.layer_link {
            &&& after == (Gui { panes: after.panes, ..self })
            &&& after.panes@.len() == self.panes@.len()
            &&& forall|i: int|
                0 <= i < self.panes@.len() ==> follows(
                    source,
                    self.active_pane as int,
                    i,
                    self.panes@[i],
                    #[trigger] after.panes@[i],
                )
        } else {
            after == self
        }
    }

    /// Propagate what the active pane is looking at to the panes linked with it:
    /// site, scan, selection, draw order and layers, and time where a pane still
    /// shares it. The kind of a pane is not part of that.
    pub fn propagate_layer_sync(&mut self)
        requires
            old(self).wf(),
        ensures
            old(self).layers_propagated(*final(self)),
            final(self).wf(),
    {
        let active: usize = self.active_pane;
        if !self.settings.sync_layers || self.pane_layout.pane_count() <= 1
            || !self.panes[active].layer_link {
            return;
        }
        let mut panes: Vec<PaneState> = Vec::new();
        core::mem::swap(&mut panes, &mut self.panes);
        let ghost before = panes@;
        let mut source = PaneState::default();
        let ghost placeholder = source;
        core::mem::swap(&mut source, &mut panes[active]);
        let ghost held = panes@;
        converge_all(&mut panes, &source, active);
        let ghost moved = panes@;
        core::mem::swap(&mut source, &mut panes[active]);
        proof {
            assert forall|i: int| 0 <= i < before.len() implies follows(
                before[active as int],
                active as int,
                i,
                before[i],
                #[trigger] panes@[i],
            ) by {
                assert(follows(before[active as int], active as int, i, held[i], moved[i]));
                if i != active {
                    assert(held[i] == before[i]);
                    assert(panes@[i] == moved[i]);
                }
            }
        }
        self.panes = panes;
    }
}

/// Propagating the layers twice shows the same on every pane as once.
pub proof fn law_layer_sync_settles(before: Gui, once: Gui, twice: Gui, i: int)
    requires
        before.wf(),
        before.layers_propagated(once),
        once.layers_propagated(twice),
        0 <= i < before.panes@.len(),
    ensures
        ({
            let p = once.panes@[i];
            let q = twice.panes@[i];
            &&& q.site@ == p.site@
            &&& facts_of(q.scan_info) == facts_of(p.scan_info)
            &&& q.viewing_live == p.viewing_live
            &&& q.time_step_secs == p.time_step_secs
            &&& q.draw_order@ == p.draw_order@
            &&& q.enabled_overlays@ == p.enabled_overlays@
            &&& q.overlay_configs@ == p.overlay_configs@
            &&& q.selected_product == p.selected_product
            &&& q.selected_elevation == p.selected_elevation
            &&& q.content == p.content
        }),
{
    let active = before.active_pane as int;
    if before.layers_synced() && before.panes@[active].layer_link {
        assert(follows(
            before.panes@[active],
            active,
            active,
            before.panes@[active],
            once.panes@[active],
        ));
        assert(follows(before.panes@[active], active, i, before.panes@[i], once.panes@[i]));
        assert(follows(once.panes@[active], active, i, once.panes@[i], twice.panes@[i]));
    }
}

/// A pane that left the group keeps everything when the group changes, and a
/// group pane keeps its kind, its viewport and its animation.
pub proof fn law_layer_sync_respects_links(before: Gui, after: Gui, i: int)
    requires
        before.wf(),
        before.layers_propagated(after),
        0 <= i < before.panes@.len(),
    ensures
        !before.panes@[i].layer_link ==> after.panes@[i] == before.panes@[i],
        after.panes@[i].content == before.panes@[i].content,
        after.panes@[i].viewport == before.panes@[i].viewport,
        after.panes@[i].loop_state == before.panes@[i].loop_state,
{
    if before.layers_synced() && before.panes@[before.active_pane as int].layer_link {
        assert(follows(
            before.panes@[before.active_pane as int],
            before.active_pane as int,
            i,
            before.panes@[i],
            after.panes@[i],
        ));
    }
}

impl Gui {
    /// Whether pane `i` belongs to the group whose viewports move together: a
    /// map that is linked.
    pub open spec fn in_viewport_group(self, i: int) -> bool {
        self.panes@[i].kind_of() == PaneKind::MapView && self.panes@[i].viewport_link
    }

    /// Whether pane `i` of the group has moved since `zooms` and `centres` were
    /// taken.
    pub open spec fn viewport_moved(
        self,
        i: int,
        zooms: Seq<i64>,
        centres: Seq<Option<MapPoint>>,
    ) -> bool {
        &&& self.in_viewport_group(i)
        &&& i < zooms.len()
        &&& self.panes@[i].viewport.moved_from(zooms[i] as int, centres[i])
    }

    /// The first of the first `n` panes that has moved.
    pub open spec fn first_moved(
        self,
        n: int,
        zooms: Seq<i64>,
        centres: Seq<Option<MapPoint>>,
    ) -> Option<int>
        decreases n,
    {
        if n <= 0 {
            None
        } else {
            match self.first_moved(n - 1, zooms, centres) {
                Some(i) => Some(i),
                None => if self.viewport_moved(n - 1, zooms, centres) {
                    Some(n - 1)
                } else {
                    None
                },
            }
        }
    }

    /// The pane whose viewport the group takes over: the first that has moved,
    /// or the active one where none has. A pane outside the group leads nobody.
    pub open spec fn viewport_leader(
        self,
        zooms: Seq<i64>,
        centres: Seq<Option<MapPoint>>,
    ) -> Option<int> {
        match self.first_moved(self.shown(), zooms, centres) {
            Some(i) => Some(i),
            None => if self.in_viewport_group(self.active_pane as int) {
                Some(self.active_pane as int)
            } else {
                None
            },
        }
    }

    /// Whether `after` is this interface once its linked maps look where one of
    /// them does.
    pub open spec fn viewports_synced(
        self,
        zooms: Seq<i64>,
        centres: Seq<Option<MapPoint>>,
        after: Gui,
    ) -> bool {
        let leader = self.viewport_leader(zooms, centres);
        if !self.settings.viewport_sync || self.shown() <= 1 || leader is None {
            after == self
        } else {
            &&& after == (Gui { panes: after.panes, ..self })
            &&& after.panes@.len() == self.panes@.len()
            &&& forall|i: int|
                0 <= i < self.panes@.len() ==> led(
                    self.panes@[leader->0].viewport,
                    i < self.shown() && i != leader->0 && self.in_viewport_group(i),
                    self.panes@[i],
                    #[trigger] after.panes@[i],
                )
        }
    }

    /// Move every linked, shown map to where one of them has gone. Panes without
    /// a map neither lead nor follow: what they remember is where they come back
    /// to.
    pub fn sync_viewports(&mut self, zooms: &Vec<i64>, centres: &Vec<Option<MapPoint>>)
        requires
            old(self).wf(),
            zooms@.len() <= centres@.len(),
        ensures
            old(self).viewports_synced(zooms@, centres@, *final(self)),
            final(self).wf(),
    {
        let count: usize = self.visible_pane_count();
        if !self.settings.viewport_sync || count <= 1 {
            return;
        }
        let leader: usize = match self.find_leader(zooms, centres) {
            Some(leader) => leader,
            None => {
                return;
            },
        };
        let source: Viewport = self.panes[leader].viewport;
        let ghost before = *self;
        lead_all(&mut self.panes, source, leader, count);
        proof {
            assert forall|i: int| 0 <= i < before.panes@.len() implies led(
                source,
                i < before.shown() && i != leader && before.in_viewport_group(i),
                before.panes@[i],
                #[trigger] self.panes@[i],
            ) by {}
        }
    }

    /// The pane whose viewport the group takes over, if any.
    fn find_leader(&self, zooms: &Vec<i64>, centres: &Vec<Option<MapPoint>>) -> (r: Option<usize>)
        requires
            self.wf(),
            zooms@.len() <= centres@.len(),
        ensures
            match r {
                Some(i) => i < self.panes@.len() && self.viewport_leader(zooms@, centres@) == Some(
                    i as int,
                ),
                None => self.viewport_leader(zooms@, centres@) is None,
            },
    {
        let count: usize = self.visible_pane_count();
        let mut i: usize = 0;
        while i < count
            invariant
                count == self.shown(),
                count <= self.panes@.len(),
                zooms@.len() <= centres@.len(),
                i <= count,
                self.first_moved(i as int, zooms@, centres@) is None,
            decreases count - i,
        {
            let pane: &PaneState = &self.panes[i];
            if pane.is_map() && pane.viewport_link && i < zooms.len() && pane.viewport.has_moved(
                zooms[i],
                centres[i],
            ) {
                proof {
                    assert(self.first_moved(i + 1, zooms@, centres@) == Some(i as int));
                    self.lemma_first_moved_stays(i + 1, count as int, zooms@, centres@);
                }
                return Some(i);
            }
            i = i + 1;
        }
        if self.panes[self.active_pane].is_map() && self.panes[self.active_pane].viewport_link {
            Some(self.active_pane)
        } else {
            None
        }
    }

    proof fn lemma_first_moved_stays(
        self,
        m: int,
        n: int,
        zooms: Seq<i64>,
        centres: Seq<Option<MapPoint>>,
    )
        requires
            0 <= m <= n,
            self.first_moved(m, zooms, centres) is Some,
        ensures
            self.first_moved(n, zooms, centres) == self.first_moved(m, zooms, centres),
        decreases n,
    {
        if m < n {
            self.lemma_first_moved_stays(m, n - 1, zooms, centres);
        }
    }
}

/// A pane's viewport after a sync: led by `source` where it follows.
pub open spec fn led(
    source: Viewport,
    following: bool,
    before: PaneState,
    after: PaneState,
) -> bool {
    if following {
        &&& after == (PaneState { viewport: after.viewport, ..before })
        &&& before.viewport.led_by(source, after.viewport)
    } else {
        after == before
    }
}

/// Lead every linked map among the first `count` panes but `leader`.
fn lead_all(panes: &mut Vec<PaneState>, source: Viewport, leader: usize, count: usize)
    ensures
        final(panes)@.len() == old(panes)@.len(),
        forall|i: int|
            0 <= i < old(panes)@.len() ==> led(
                source,
                i < count && i != leader && old(panes)@[i].kind_of() == PaneKind::MapView && old(
                    panes,
                )@[i].viewport_link,
                old(panes)@[i],
                #[trigger] final(panes)@[i],
            ),
{
    let mut i: usize = 0;
    while i < panes.len()
        invariant
            i <= panes@.len(),
            panes@.len() == old(panes)@.len(),
            forall|k: int|
                0 <= k < i ==> led(
                    source,
                    k < count && k != leader && old(panes)@[k].kind_of() == PaneKind::MapView
                        && old(panes)@[k].viewport_link,
                    old(panes)@[k],
                    #[trigger] panes@[k],
                ),
            forall|k: int| i <= k < panes@.len() ==> #[trigger] panes@[k] == old(panes)@[k],
        decreases panes@.len() - i,
    {
        if i < count && i != leader && panes[i].is_map() && panes[i].viewport_link {
            let mut viewport: Viewport = panes[i].viewport;
            viewport.follow(source);
            panes[i].viewport = viewport;
        }
        i = i + 1;
    }
}

/// A pane without a map keeps its viewport through every sync, and never leads
/// one.
pub proof fn law_only_maps_share_a_viewport(
    before: Gui,
    zooms: Seq<i64>,
    centres: Seq<Option<MapPoint>>,
    after: Gui,
    i: int,
)
    requires
        before.wf(),
        before.viewports_synced(zooms, centres, after),
        0 <= i < before.panes@.len(),
        before.panes@[i].kind_of() != PaneKind::MapView || !before.panes@[i].viewport_link,
    ensures
        after.panes@[i] == before.panes@[i],
        before.viewport_leader(zooms, centres) != Some(i),
{
    lemma_leader_in_group(before, before.shown(), zooms, centres);
    if !(!before.settings.viewport_sync || before.shown() <= 1 || before.viewport_leader(
        zooms,
        centres,
    ) is None) {
        assert(led(
            before.panes@[before.viewport_leader(zooms, centres)->0].viewport,
            i < before.shown() && i != before.viewport_leader(zooms, centres)->0
                && before.in_viewport_group(i),
            before.panes@[i],
            after.panes@[i],
        ));
    }
}

proof fn lemma_leader_in_group(
    state: Gui,
    n: int,
    zooms: Seq<i64>,
    centres: Seq<Option<MapPoint>>,
)
    ensures
        state.first_moved(n, zooms, centres) matches Some(i) ==> state.in_viewport_group(i),
    decreases n,
{
    if n > 0 {
        lemma_leader_in_group(state, n - 1, zooms, centres);
    }
}

/// With sync on, more than one pane and a linked pane in front, every linked pane
/// comes to show what that pane shows: the same layers on, each set the same way
/// and stacked the same, the same site and scan, and the same product and tilt. A
/// pane that shares time takes the time over too, and one that does not keeps its
/// own.
pub proof fn law_linked_panes_show_the_same(before: Gui, after: Gui, i: int, kind: OverlayKind)
    requires
        before.wf(),
        before.layers_propagated(after),
        before.settings.sync_layers,
        before.pane_layout@.count > 1,
        before.panes@[before.active_pane as int].layer_link,
        0 <= i < before.panes@.len(),
        before.panes@[i].layer_link,
    ensures
        ({
            let lead = before.panes@[before.active_pane as int];
            let own = before.panes@[i];
            let pane = after.panes@[i];
            &&& pane.overlay_on(kind) == lead.overlay_on(kind)
            &&& pane.enabled_overlays@ == lead.enabled_overlays@
            &&& pane.overlay_configs@ == lead.overlay_configs@
            &&& pane.draw_order@ == lead.draw_order@
            &&& pane.site@ == lead.site@
            &&& facts_of(pane.scan_info) == facts_of(lead.scan_info)
            &&& pane.selected_product == lead.selected_product
            &&& pane.selected_elevation == lead.selected_elevation
            &&& own.time_link ==> pane.viewing_live == lead.viewing_live && pane.time_step_secs
                == lead.time_step_secs
            &&& !own.time_link && i != before.active_pane ==> pane.viewing_live == own.viewing_live
                && pane.time_step_secs == own.time_step_secs
        }),
{
    assert(follows(
        before.panes@[before.active_pane as int],
        before.active_pane as int,
        i,
        before.panes@[i],
        after.panes@[i],
    ));
}

/// After the layers have been shared, any two linked panes have the same layers
/// on.
pub proof fn law_any_two_linked_panes_agree(
    before: Gui,
    after: Gui,
    i: int,
    j: int,
    kind: OverlayKind,
)
    requires
        before.wf(),
        before.layers_propagated(after),
        before.settings.sync_layers,
        before.pane_layout@.count > 1,
        before.panes@[before.active_pane as int].layer_link,
        0 <= i < after.panes@.len(),
        0 <= j < after.panes@.len(),
        after.panes@[i].layer_link,
        after.panes@[j].layer_link,
    ensures
        after.panes@[i].overlay_on(kind) == after.panes@[j].overlay_on(kind),
        after.panes@[i].selected_product == after.panes@[j].selected_product,
        after.panes@[i].site@ == after.panes@[j].site@,
{
    let active = before.active_pane as int;
    let lead = before.panes@[active];
    assert(follows(lead, active, i, before.panes@[i], after.panes@[i]));
    assert(follows(lead, active, j, before.panes@[j], after.panes@[j]));
    law_linked_panes_show_the_same(before, after, i, kind);
    law_linked_panes_show_the_same(before, after, j, kind);
}

/// Sharing the layers never changes the pane in front, nor anything but panes,
/// and changes nothing at all with sync off, with a single pane, or from a pane
/// that has left the group.
pub proof fn law_layers_flow_from_the_front_pane(before: Gui, after: Gui)
    requires
        before.wf(),
        before.layers_propagated(after),
    ensures
        after.panes@.len() == before.panes@.len(),
        after.panes@[before.active_pane as int] == before.panes@[before.active_pane as int],
        after == (Gui { panes: after.panes, ..before }),
        !before.settings.sync_layers || before.pane_layout@.count <= 1
            || !before.panes@[before.active_pane as int].layer_link ==> after == before,
{
    let active = before.active_pane as int;
    if before.layers_synced() && before.panes@[active].layer_link {
        assert(follows(
            before.panes@[active],
            active,
            active,
            before.panes@[active],
            after.panes@[active],
        ));
    }
}

/// What a pane that is led keeps: its kind and that kind's state, its viewport, its
/// animation, its pictures and its links.
pub proof fn law_a_led_pane_keeps_its_own(before: Gui, after: Gui, i: int)
    requires
        before.wf(),
        before.layers_propagated(after),
        0 <= i < before.panes@.len(),
    ensures
        ({
            let own = before.panes@[i];
            let pane = after.panes@[i];
            &&& pane.content == own.content
            &&& pane.viewport == own.viewport
            &&& pane.loop_state == own.loop_state
            &&& pane.overlay_textures == own.overlay_textures
            &&& pane.data_time == own.data_time
            &&& pane.time_link == own.time_link
            &&& pane.layer_link == own.layer_link
            &&& pane.viewport_link == own.viewport_link
            &&& pane.loading_site == own.loading_site
            &&& pane.hover_value == own.hover_value
            &&& pane.overlay_hover_value == own.overlay_hover_value
            &&& pane.radar_sites_render_gen == own.radar_sites_render_gen
        }),
{
    law_layer_sync_respects_links(before, after, i);
    if before.layers_synced() && before.panes@[before.active_pane as int].layer_link {
        assert(follows(
            before.panes@[before.active_pane as int],
            before.active_pane as int,
            i,
            before.panes@[i],
            after.panes@[i],
        ));
    }
}

/// Where pane `m` is the first linked map on screen that has moved since the frame
/// began, every linked map on screen goes where it went: to its zoom and, where it
/// has one, its centre. Pane `m` itself stays where it is.
pub proof fn law_linked_maps_follow_the_one_that_moved(
    before: Gui,
    zooms: Seq<i64>,
    centres: Seq<Option<MapPoint>>,
    after: Gui,
    m: int,
    i: int,
)
    requires
        before.wf(),
        before.viewports_synced(zooms, centres, after),
        before.settings.viewport_sync,
        before.pane_layout@.count > 1,
        before.panes@.len() > 1,
        zooms.len() <= centres.len(),
        0 <= m < before.panes@.len(),
        m < before.pane_layout@.count,
        m < zooms.len(),
        before.panes@[m].content is MapView,
        before.panes@[m].viewport_link,
        before.panes@[m].viewport.moved_from(zooms[m] as int, centres[m]),
        forall|k: int|
            0 <= k < m && before.panes@[k].content is MapView && before.panes@[k].viewport_link
                ==> !(#[trigger] before.panes@[k]).viewport.moved_from(
                zooms[k] as int,
                centres[k],
            ),
        0 <= i < before.panes@.len(),
        i < before.pane_layout@.count,
        before.panes@[i].content is MapView,
        before.panes@[i].viewport_link,
    ensures
        after.panes@[i].viewport.level() == before.panes@[m].viewport.level(),
        before.panes@[m].viewport.middle() matches Some(place)
            ==> after.panes@[i].viewport.middle() == Some(place),
        before.panes@[m].viewport.middle() is None ==> after.panes@[i].viewport.middle()
            == before.panes@[i].viewport.middle(),
        after.panes@[m] == before.panes@[m],
{
    before.lemma_first_moved_is(m, before.shown(), zooms, centres);
    assert(led(
        before.panes@[m].viewport,
        i < before.shown() && i != m && before.in_viewport_group(i),
        before.panes@[i],
        after.panes@[i],
    ));
    assert(led(
        before.panes@[m].viewport,
        m < before.shown() && m != m && before.in_viewport_group(m),
        before.panes@[m],
        after.panes@[m],
    ));
}

/// Where no linked map on screen has moved, every linked map on screen takes the
/// viewport of the pane in front, if that is one of them, and otherwise none moves.
pub proof fn law_linked_maps_settle_on_the_front_pane(
    before: Gui,
    zooms: Seq<i64>,
    centres: Seq<Option<MapPoint>>,
    after: Gui,
    i: int,
)
    requires
        before.wf(),
        before.viewports_synced(zooms, centres, after),
        before.settings.viewport_sync,
        before.pane_layout@.count > 1,
        before.panes@.len() > 1,
        zooms.len() <= centres.len(),
        forall|k: int|
            0 <= k < before.panes@.len() && k < before.pane_layout@.count && k < zooms.len()
                && before.panes@[k].content is MapView && before.panes@[k].viewport_link ==> !(
            #[trigger] before.panes@[k]).viewport.moved_from(zooms[k] as int, centres[k]),
        0 <= i < before.panes@.len(),
        i < before.pane_layout@.count,
        before.panes@[i].content is MapView,
        before.panes@[i].viewport_link,
    ensures
        ({
            let front = before.panes@[before.active_pane as int];
            if front.content is MapView && front.viewport_link {
                &&& after.panes@[i].viewport.level() == front.viewport.level()
                &&& front.viewport.middle() matches Some(place)
                    ==> after.panes@[i].viewport.middle() == Some(place)
            } else {
                after.panes@[i] == before.panes@[i]
            }
        }),
{
    before.lemma_none_moved(before.shown(), zooms, centres);
    let active = before.active_pane as int;
    if before.in_viewport_group(active) {
        assert(led(
            before.panes@[active].viewport,
            i < before.shown() && i != active && before.in_viewport_group(i),
            before.panes@[i],
            after.panes@[i],
        ));
    }
}

/// After a sync that some linked map led with a centre, any two linked maps on
/// screen look at the same place at the same zoom.
pub proof fn law_any_two_linked_maps_agree(
    before: Gui,
    zooms: Seq<i64>,
    centres: Seq<Option<MapPoint>>,
    after: Gui,
    m: int,
    i: int,
    j: int,
)
    requires
        before.wf(),
        before.viewports_synced(zooms, centres, after),
        before.settings.viewport_sync,
        before.pane_layout@.count > 1,
        before.panes@.len() > 1,
        zooms.len() <= centres.len(),
        0 <= m < before.panes@.len(),
        m < before.pane_layout@.count,
        m < zooms.len(),
        before.panes@[m].content is MapView,
        before.panes@[m].viewport_link,
        before.panes@[m].viewport.middle() is Some,
        before.panes@[m].viewport.moved_from(zooms[m] as int, centres[m]),
        forall|k: int|
            0 <= k < m && before.panes@[k].content is MapView && before.panes@[k].viewport_link
                ==> !(#[trigger] before.panes@[k]).viewport.moved_from(
                zooms[k] as int,
                centres[k],
            ),
        0 <= i < before.panes@.len(),
        i < before.pane_layout@.count,
        before.panes@[i].content is MapView,
        before.panes@[i].viewport_link,
        0 <= j < before.panes@.len(),
        j < before.pane_layout@.count,
        before.panes@[j].content is MapView,
        before.panes@[j].viewport_link,
    ensures
        after.panes@[i].viewport.level() == after.panes@[j].viewport.level(),
        after.panes@[i].viewport.middle() == after.panes@[j].viewport.middle(),
{
    law_linked_maps_follow_the_one_that_moved(before, zooms, centres, after, m, i);
    law_linked_maps_follow_the_one_that_moved(before, zooms, centres, after, m, j);
}

/// A viewport sync moves viewports and nothing else, and none that is off screen;
/// with sync off or a single pane on screen it moves none.
pub proof fn law_viewport_sync_moves_viewports_only(
    before: Gui,
    zooms: Seq<i64>,
    centres: Seq<Option<MapPoint>>,
    after: Gui,
    i: int,
)
    requires
        before.wf(),
        before.viewports_synced(zooms, centres, after),
        0 <= i < before.panes@.len(),
    ensures
        after.panes@.len() == before.panes@.len(),
        after == (Gui { panes: after.panes, ..before }),
        after.panes@[i] == (PaneState {
            viewport: after.panes@[i].viewport,
            ..before.panes@[i]
        }),
        i >= before.pane_layout@.count ==> after.panes@[i] == before.panes@[i],
        !before.settings.viewport_sync || before.pane_layout@.count <= 1 || before.panes@.len() <= 1
            ==> after == before,
{
    let leader = before.viewport_leader(zooms, centres);
    if !(!before.settings.viewport_sync || before.shown() <= 1 || leader is None) {
        assert(led(
            before.panes@[leader->0].viewport,
            i < before.shown() && i != leader->0 && before.in_viewport_group(i),
            before.panes@[i],
            after.panes@[i],
        ));
    }
}

impl Gui {
    proof fn lemma_none_moved(self, n: int, zooms: Seq<i64>, centres: Seq<Option<MapPoint>>)
        requires
            n <= self.shown(),
            forall|k: int|
                0 <= k < n && k < zooms.len() && self.panes@[k].content is MapView
                    && self.panes@[k].viewport_link ==> !(
                #[trigger] self.panes@[k]).viewport.moved_from(zooms[k] as int, centres[k]),
        ensures
            self.first_moved(n, zooms, centres) is None,
        decreases n,
    {
        if n > 0 {
            self.lemma_none_moved(n - 1, zooms, centres);
            assert(!self.viewport_moved(n - 1, zooms, centres));
        }
    }

    proof fn lemma_first_moved_is(
        self,
        m: int,
        n: int,
        zooms: Seq<i64>,
        centres: Seq<Option<MapPoint>>,
    )
        requires
            0 <= m < n <= self.shown(),
            self.viewport_moved(m, zooms, centres),
            forall|k: int|
                0 <= k < m && self.panes@[k].content is MapView && self.panes@[k].viewport_link
                    ==> !(#[trigger] self.panes@[k]).viewport.moved_from(
                    zooms[k] as int,
                    centres[k],
                ),
        ensures
            self.first_moved(n, zooms, centres) == Some(m),
    {
        self.lemma_none_moved(m, zooms, centres);
        assert(self.first_moved(m + 1, zooms, centres) == Some(m));
        self.lemma_first_moved_stays(m + 1, n, zooms, centres);
    }

    /// Shared time reaches the pane in front, and with layers in sync every other
    /// pane on screen that is linked to it, in order; with sync off it reaches the
    /// pane in front alone.
    pub proof fn law_shared_time_reaches_the_linked(self, i: int)
        requires
            0 <= i < self.panes@.len(),
            i < self.pane_layout@.count,
        ensures
            self.settings.sync_layers && self.pane_layout@.count > 1 ==> (
            self.time_targets().contains(i) <==> i == self.active_pane
                || self.panes@[i].time_link),
            !self.settings.sync_layers || self.pane_layout@.count <= 1 ==> self.time_targets()
                == seq![self.active_pane as int] && self.loop_targets()
                == seq![self.active_pane as int],
            self.settings.sync_layers && self.pane_layout@.count > 1 ==> (
            self.loop_targets().contains(i) <==> i == self.active_pane || (
            self.panes@[i].time_link && match self.panes@[i].content {
                PaneContent::MapView => true,
                PaneContent::CrossSection(section) => section.line is Some,
                PaneContent::Volume(_) => false,
            })),
    {
        lemma_indices_where(self.pane_layout@.count, |i: int| self.shares_time(i));
        lemma_indices_where(self.pane_layout@.count, |i: int| self.shares_loop(i));
    }
}

impl Gui {
    /// Shared time and shared loops reach each pane once, in order, and none that is off
    /// screen but the one in front.
    pub proof fn law_shared_targets_are_on_screen(self, j: int, k: int)
        requires
            0 <= j < k,
        ensures
            k < self.time_targets().len() ==> self.time_targets()[j] < self.time_targets()[k],
            k < self.loop_targets().len() ==> self.loop_targets()[j] < self.loop_targets()[k],
            k < self.time_targets().len() ==> 0 <= self.time_targets()[j]
                && self.time_targets()[k] < self.pane_layout@.count,
            k < self.loop_targets().len() ==> 0 <= self.loop_targets()[j]
                && self.loop_targets()[k] < self.pane_layout@.count,
    {
        lemma_indices_where(self.pane_layout@.count, |i: int| self.shares_time(i));
        lemma_indices_where(self.pane_layout@.count, |i: int| self.shares_loop(i));
        if k < self.time_targets().len() && self.layers_synced() {
            let targets = self.time_targets();
            assert(targets.contains(targets[j]));
            assert(targets.contains(targets[k]));
        }
        if k < self.loop_targets().len() && self.layers_synced() {
            let targets = self.loop_targets();
            assert(targets.contains(targets[j]));
            assert(targets.contains(targets[k]));
        }
    }
}

} // verus!
