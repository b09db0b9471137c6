//! Which pane a drawn line or a dragged box lands in.

use vstd::prelude::*;
use crate::actions::{lemma_requests_push, requests, GuiAction, Request};
use crate::content::{CrossSectionPane, PaneContent, VolumePane};
use crate::geo::{SectionLine, VolumeRegion};
use crate::gui::{
    seeded, Gestures, Gui, PendingKind, PendingLine, PendingRegion,
};
use crate::kinds::PaneKind;
use crate::layout::{even_arrangement, PaneLayout, MAX_PANES_DESKTOP};
use crate::overlays::{LayerHandlers, OverlayKind};
use crate::pane::PaneState;
use crate::scan::{copy_scan, facts_of, ScanFacts, ScanInfo};

verus! {

/// The first pane that answers, if one does.
pub open spec fn first_where(
    panes: Seq<PaneState>,
    answers: spec_fn(PaneState) -> bool,
) -> Option<int>
    decreases panes.len(),
{
    if panes.len() == 0 {
        None
    } else {
        match first_where(panes.drop_last(), answers) {
            Some(i) => Some(i),
            None => if answers(panes.last()) {
                Some(panes.len() - 1)
            } else {
                None
            },
        }
    }
}

/// The first pane that answers is one that does, and none before it does.
proof fn lemma_first_where(panes: Seq<PaneState>, answers: spec_fn(PaneState) -> bool)
    ensures
        match first_where(panes, answers) {
            Some(i) => {
                &&& 0 <= i < panes.len()
                &&& answers(panes[i])
                &&& forall|k: int| 0 <= k < i ==> !answers(#[trigger] panes[k])
            },
            None => forall|k: int| 0 <= k < panes.len() ==> !answers(#[trigger] panes[k]),
        },
    decreases panes.len(),
{
    if panes.len() > 0 {
        let front = panes.drop_last();
        lemma_first_where(front, answers);
        assert forall|k: int| 0 <= k < front.len() implies front[k] == #[trigger] panes[k] by {}
    }
}

/// A place found by looking from the front is the first that answers.
proof fn lemma_found_first(
    panes: Seq<PaneState>,
    answers: spec_fn(PaneState) -> bool,
    found: Option<int>,
)
    requires
        match found {
            Some(i) => {
                &&& 0 <= i < panes.len()
                &&& answers(panes[i])
                &&& forall|k: int| 0 <= k < i ==> !answers(#[trigger] panes[k])
            },
            None => forall|k: int| 0 <= k < panes.len() ==> !answers(#[trigger] panes[k]),
        },
    ensures
        first_where(panes, answers) == found,
{
    lemma_first_where(panes, answers);
}

/// Whether a pane is a section whose line was drawn on pane `source`.
pub open spec fn is_section_of(pane: PaneState, source: usize) -> bool {
    pane.content matches PaneContent::CrossSection(section) && section.source_pane == Some(source)
}

/// A pane born on a site, with what is known of its scan and every switch and
/// setting the handlers hold.
pub open spec fn newborn(
    site: Seq<char>,
    scan: Option<ScanFacts>,
    handlers: LayerHandlers,
    after: PaneState,
) -> bool {
    exists|fresh: PaneState|
        {
            &&& #[trigger] fresh.is_initial(site)
            &&& facts_of(after.scan_info) == scan
            &&& seeded(PaneState { scan_info: after.scan_info, ..fresh }, handlers, after)
        }
}

impl Gui {
    /// Whether every pane of this interface, seeded, is in `after` where it was.
    pub open spec fn panes_seeded(self, after: Gui) -> bool {
        forall|i: int|
            0 <= i < self.panes@.len() ==> seeded(
                self.panes@[i],
                self.overlays,
                #[trigger] after.panes@[i],
            )
    }

    /// Whether `after` is this layout with `count` panes: the panes there are,
    /// seeded, and as many new ones behind them as it takes, on the active
    /// pane's site. A count past what any layout has a grid for changes no count
    /// and makes no pane.
    pub open spec fn resized(self, count: usize, after: Gui) -> bool {
        if count > MAX_PANES_DESKTOP {
            &&& after == (Gui { panes: after.panes, ..self })
            &&& after.panes@.len() == self.panes@.len()
            &&& self.panes_seeded(after)
        } else {
            let reached = if count < 1 {
                1
            } else {
                count as int
            };
            let active = self.panes@[self.active_pane as int];
            &&& after == (Gui {
                panes: after.panes,
                pane_layout: after.pane_layout,
                active_pane: if self.active_pane >= reached {
                    0
                } else {
                    self.active_pane
                },
                ..self
            })
            &&& after.pane_layout@ == even_arrangement(reached)
            &&& after.panes@.len() == if self.panes@.len() < count {
                count as nat
            } else {
                self.panes@.len()
            }
            &&& self.panes_seeded(after)
            &&& forall|i: int|
                self.panes@.len() <= i < after.panes@.len() ==> newborn(
                    active.site@,
                    facts_of(active.scan_info),
                    self.overlays,
                    #[trigger] after.panes@[i],
                )
        }
    }

    /// Grow or shrink the layout to `count` panes, seeding any new ones, and
    /// report whether the layout reached that count. A layout asked for more than
    /// it allows stays as it is, rather than remember panes that are drawn
    /// nowhere. The one writer of the pane count.
    pub fn set_pane_count(&mut self, count: usize) -> (r: bool)
        requires
            old(self).wf(),
        ensures
            old(self).resized(count, *final(self)),
            count > MAX_PANES_DESKTOP ==> {
                &&& !r
                &&& final(self).pane_layout == old(self).pane_layout
                &&& final(self).active_pane == old(self).active_pane
                &&& final(self).panes@.len() == old(self).panes@.len()
            },
            final(self).wf(),
            r == (1 <= count <= MAX_PANES_DESKTOP),
    {
        if count > MAX_PANES_DESKTOP {
            self.initialize_pane_enabled();
            return false;
        }
        let site: String = self.panes[self.active_pane].site.clone();
        let scan: Option<ScanInfo> = copy_scan(&self.panes[self.active_pane].scan_info);
        let mut panes: Vec<PaneState> = Vec::new();
        core::mem::swap(&mut panes, &mut self.panes);
        grow_panes(&mut panes, count, &site, &scan);
        let ghost grown = panes@;
        self.panes = panes;
        self.initialize_pane_enabled();
        self.pane_layout = PaneLayout::for_count(count);
        if self.active_pane >= self.pane_layout.pane_count() {
            self.active_pane = 0;
        }
        proof {
            assert forall|i: int|
                old(self).panes@.len() <= i < self.panes@.len() implies newborn(
                site@,
                facts_of(old(self).panes@[old(self).active_pane as int].scan_info),
                old(self).overlays,
                #[trigger] self.panes@[i],
            ) by {
                assert(seeded(grown[i], old(self).overlays, self.panes@[i]));
                let fresh = choose|fresh: PaneState|
                    {
                        &&& #[trigger] fresh.is_initial(site@)
                        &&& grown[i] == (PaneState { scan_info: grown[i].scan_info, ..fresh })
                    };
                assert(self.panes@[i].scan_info == grown[i].scan_info);
                assert(fresh.is_initial(site@));
            }
        }
        self.pane_layout.pane_count() == count
    }
}

/// Add panes on `site` until there are `count`.
fn grow_panes(
    panes: &mut Vec<PaneState>,
    count: usize,
    site: &String,
    scan: &Option<ScanInfo>,
)
    ensures
        final(panes)@.len() == if old(panes)@.len() < count {
            count as nat
        } else {
            old(panes)@.len()
        },
        old(panes)@.is_prefix_of(final(panes)@),
        forall|i: int|
            old(panes)@.len() <= i < final(panes)@.len() ==> facts_of(
                (#[trigger] final(panes)@[i]).scan_info,
            ) == facts_of(*scan) && exists|fresh: PaneState|
                {
                    &&& #[trigger] fresh.is_initial(site@)
                    &&& final(panes)@[i] == (PaneState {
                        scan_info: final(panes)@[i].scan_info,
                        ..fresh
                    })
                },
{
    while panes.len() < count
        invariant
            old(panes)@.is_prefix_of(panes@),
            panes@.len() == old(panes)@.len() || panes@.len() <= count,
            forall|i: int|
                old(panes)@.len() <= i < panes@.len() ==> facts_of(
                    (#[trigger] panes@[i]).scan_info,
                ) == facts_of(*scan) && exists|fresh: PaneState|
                    {
                        &&& #[trigger] fresh.is_initial(site@)
                        &&& panes@[i] == (PaneState { scan_info: panes@[i].scan_info, ..fresh })
                    },
        decreases count - panes@.len(),
    {
        let mut pane = PaneState::with_site(site.clone());
        let ghost fresh = pane;
        pane.scan_info = copy_scan(scan);
        let ghost before = panes@;
        panes.push(pane);
        proof {
            assert(fresh.is_initial(site@));
            assert forall|i: int| old(panes)@.len() <= i < panes@.len() implies facts_of(
                (#[trigger] panes@[i]).scan_info,
            ) == facts_of(*scan) && exists|fresh: PaneState|
                {
                    &&& #[trigger] fresh.is_initial(site@)
                    &&& panes@[i] == (PaneState { scan_info: panes@[i].scan_info, ..fresh })
                } by {
                if i < before.len() {
                    assert(panes@[i] == before[i]);
                }
            }
        }
    }
}

/// Where a drawn line lands.
pub enum Landing {
    /// In a pane that is there.
    There(int),
    /// In a pane added behind the others.
    Grown,
}

impl Gui {
    /// The pane a line drawn on `source` is for: a section already drawn from
    /// this map; else a new pane, while the layout can grow; else the first
    /// section there is; else the last pane that is not the one drawn on; else
    /// that one.
    pub open spec fn landing(self, source: usize) -> Landing {
        let panes = self.shown_panes();
        let last = self.shown() - 1;
        match first_where(panes, |p: PaneState| is_section_of(p, source)) {
            Some(i) => Landing::There(i),
            None => if self.pane_layout@.count + 1 <= self.platform.width.pane_limit() {
                Landing::Grown
            } else {
                match first_where(panes, |p: PaneState| p.content is CrossSection) {
                    Some(i) => Landing::There(i),
                    None => if last >= 0 && last != source {
                        Landing::There(last)
                    } else if last >= 1 {
                        Landing::There(last - 1)
                    } else {
                        Landing::There(source as int)
                    },
                }
            },
        }
    }

    /// The index of the pane a line drawn on `source` lands in.
    pub open spec fn landing_index(self, source: usize) -> int {
        match self.landing(source) {
            Landing::There(i) => i,
            Landing::Grown => self.pane_layout@.count,
        }
    }

    /// The first shown pane that is a section, drawn from `source` if one is
    /// given.
    fn find_section(&self, source: Option<usize>) -> (r: Option<usize>)
        ensures
            match r {
                Some(i) => Some(i as int),
                None => None,
            } == match source {
                Some(s) => first_where(
                    self.shown_panes(),
                    |p: PaneState| is_section_of(p, s),
                ),
                None => first_where(
                    self.shown_panes(),
                    |p: PaneState| p.content is CrossSection,
                ),
            },
    {
        let count: usize = self.visible_pane_count();
        let ghost panes = self.shown_panes();
        let ghost answers = match source {
            Some(s) => |p: PaneState| is_section_of(p, s),
            None => |p: PaneState| p.content is CrossSection,
        };
        let mut i: usize = 0;
        while i < count
            invariant
                count == self.shown(),
                count <= self.panes@.len(),
                panes == self.shown_panes(),
                i <= count,
                answers == match source {
                    Some(s) => |p: PaneState| is_section_of(p, s),
                    None => |p: PaneState| p.content is CrossSection,
                },
                forall|k: int| 0 <= k < i ==> !answers(#[trigger] panes[k]),
            decreases count - i,
        {
            assert(panes[i as int] == self.panes@[i as int]);
            let suits: bool = match &self.panes[i].content {
                PaneContent::CrossSection(section) => match source {
                    Some(s) => match section.source_pane {
                        Some(own) => own == s,
                        None => false,
                    },
                    None => true,
                },
                _ => false,
            };
            assert(suits == answers(panes[i as int]));
            if suits {
                proof {
                    lemma_found_first(panes, answers, Some(i as int));
                }
                return Some(i);
            }
            i = i + 1;
        }
        proof {
            lemma_found_first(panes, answers, None);
        }
        None
    }

    /// The highest shown pane that is not `source`.
    fn highest_pane_other_than(&self, source: usize) -> (r: Option<usize>)
        ensures
            r == if self.shown() >= 1 && self.shown() - 1 != source {
                Some((self.shown() - 1) as usize)
            } else if self.shown() >= 2 {
                Some((self.shown() - 2) as usize)
            } else {
                None
            },
    {
        let count: usize = self.visible_pane_count();
        if count >= 1 && count - 1 != source {
            Some(count - 1)
        } else if count >= 2 {
            Some(count - 2)
        } else {
            None
        }
    }

    /// Whether `room` is this interface with a place for a line drawn on
    /// `source`: grown by a pane where the line needs one, and untouched where
    /// it does not.
    pub open spec fn makes_room(self, source: usize, room: Gui) -> bool {
        match self.landing(source) {
            Landing::There(_) => room == self,
            Landing::Grown => self.resized((self.pane_layout@.count + 1) as usize, room),
        }
    }
}

/// Whether `after` is a pane aimed along `line`, drawn on pane `source`, which
/// is `map`: a section of the map's site, scan and product, without the picture
/// of any earlier line.
pub open spec fn aimed_along(
    before: PaneState,
    map: PaneState,
    source: usize,
    line: SectionLine,
    after: PaneState,
) -> bool {
    exists|section: PaneState| #[trigger]
        before.converted(PaneKind::CrossSection, section) && {
            &&& section.content is CrossSection
            &&& after == (PaneState {
                selected_product: map.selected_product,
                site: after.site,
                scan_info: after.scan_info,
                content: PaneContent::CrossSection(
                    Box::new(
                        CrossSectionPane {
                            line: Some(line),
                            source_pane: Some(source),
                            section: None,
                            texture: None,
                            unavailable: None,
                            rendered_for: None,
                            ..*section.content->CrossSection_0
                        },
                    ),
                ),
                ..section
            })
            &&& after.site@ == map.site@
            &&& facts_of(after.scan_info) == facts_of(map.scan_info)
        }
}

/// Aim a pane along `line`.
fn aim_along(
    pane: &mut PaneState,
    product: crate::kinds::RadarProduct,
    site: String,
    scan: Option<ScanInfo>,
    source: usize,
    line: SectionLine,
)
    ensures
        forall|map: PaneState|
            map.selected_product == product && map.site@ == site@ && facts_of(map.scan_info)
                == facts_of(scan) ==> #[trigger] aimed_along(
                *old(pane),
                map,
                source,
                line,
                *final(pane),
            ),
{
    pane.set_kind(PaneKind::CrossSection);
    let ghost section_pane = *pane;
    pane.selected_product = product;
    pane.site = site;
    pane.scan_info = scan;
    match &mut pane.content {
        PaneContent::CrossSection(section) => {
            section.line = Some(line);
            section.source_pane = Some(source);
            section.section = None;
            section.texture = None;
            section.unavailable = None;
            section.rendered_for = None;
        },
        _ => {},
    }
    assert(old(pane).converted(PaneKind::CrossSection, section_pane));
}

impl Gui {
    /// Whether `after` is this interface once the line that was drawn, if any,
    /// has landed.
    pub open spec fn line_landed(self, after: Gui) -> bool {
        let calm = Gui {
            gestures: Gestures { pending_section_line: None, ..self.gestures },
            ..self
        };
        match self.gestures.pending_section_line {
            None => after == self,
            Some(drawn) => if drawn.pane_idx >= self.panes@.len() {
                after == calm
            } else {
                let source = drawn.pane_idx;
                let target = calm.landing_index(source);
                exists|room: Gui| #[trigger]
                    calm.makes_room(source, room) && {
                        &&& 0 <= target < room.panes@.len()
                        &&& after == (Gui {
                            panes: after.panes,
                            active_pane: target as usize,
                            ..room
                        })
                        &&& after.panes@ == room.panes@.update(target, after.panes@[target])
                        &&& aimed_along(
                            room.panes@[target],
                            self.panes@[source as int],
                            source,
                            drawn.line,
                            after.panes@[target],
                        )
                    }
            },
        }
    }

    /// Give the line this frame drew to a pane, converting or adding one if need
    /// be. A line drawn on a pane that is there always lands.
    pub fn apply_pending_section_line(&mut self)
        requires
            old(self).wf(),
        ensures
            old(self).line_landed(*final(self)),
            final(self).wf(),
    {
        let drawn: PendingLine = match self.gestures.pending_section_line {
            Some(drawn) => drawn,
            None => {
                return;
            },
        };
        self.gestures.pending_section_line = None;
        let ghost calm = *self;
        let source: usize = drawn.pane_idx;
        if source >= self.panes.len() {
            return;
        }
        let product = self.panes[source].selected_product;
        let site: String = self.panes[source].site.clone();
        let scan: Option<ScanInfo> = copy_scan(&self.panes[source].scan_info);
        let target: usize = self.make_room(source);
        let ghost room = *self;
        let mut panes: Vec<PaneState> = Vec::new();
        core::mem::swap(&mut panes, &mut self.panes);
        aim_along(&mut panes[target], product, site, scan, source, drawn.line);
        self.panes = panes;
        self.active_pane = target;
        assert(aimed_along(
            room.panes@[target as int],
            old(self).panes@[source as int],
            source,
            drawn.line,
            self.panes@[target as int],
        ));
        assert(calm.makes_room(source, room));
    }

    /// Find the pane a line drawn on `source` is for, adding one where the line
    /// needs one.
    fn make_room(&mut self, source: usize) -> (r: usize)
        requires
            old(self).wf(),
            source < old(self).panes@.len(),
        ensures
            old(self).makes_room(source, *final(self)),
            r == old(self).landing_index(source),
            r < final(self).panes@.len(),
            final(self).wf(),
    {
        let ghost calm = *self;
        let count: usize = self.pane_layout.pane_count();
        match self.find_section(Some(source)) {
            Some(idx) => {
                proof {
                    lemma_first_where(
                        calm.shown_panes(),
                        |p: PaneState| is_section_of(p, source),
                    );
                }
                return idx;
            },
            None => {},
        }
        if count + 1 <= self.platform.width.max_panes() {
            let _ = self.set_pane_count(count + 1);
            return count;
        }
        match self.find_section(None) {
            Some(idx) => {
                proof {
                    lemma_first_where(
                        calm.shown_panes(),
                        |p: PaneState| p.content is CrossSection,
                    );
                }
                idx
            },
            None => match self.highest_pane_other_than(source) {
                Some(idx) => idx,
                None => source,
            },
        }
    }

    /// Whether `after` is this interface once the dropped end of a line, if any,
    /// is written.
    pub open spec fn edit_landed(self, after: Gui) -> bool {
        let calm = Gui {
            gestures: Gestures { pending_section_edit: None, ..self.gestures },
            ..self
        };
        match self.gestures.pending_section_edit {
            None => after == self,
            Some(edit) => if edit.pane_idx < self.panes@.len()
                && self.panes@[edit.pane_idx as int].content is CrossSection {
                let pane = self.panes@[edit.pane_idx as int];
                &&& after == (Gui { panes: after.panes, ..calm })
                &&& after.panes@ == self.panes@.update(
                    edit.pane_idx as int,
                    PaneState {
                        content: PaneContent::CrossSection(
                            Box::new(
                                CrossSectionPane {
                                    line: Some(edit.line),
                                    ..*pane.content->CrossSection_0
                                },
                            ),
                        ),
                        ..pane
                    },
                )
            } else {
                after == calm
            },
        }
    }

    /// Write a dropped handle's line onto the section pane it belongs to. The
    /// line and nothing else: the old picture stands until the new cut lands.
    pub fn apply_pending_section_edit(&mut self)
        ensures
            old(self).edit_landed(*final(self)),
    {
        let edit: PendingLine = match self.gestures.pending_section_edit {
            Some(edit) => edit,
            None => {
                return;
            },
        };
        self.gestures.pending_section_edit = None;
        if edit.pane_idx >= self.panes.len() || self.panes[edit.pane_idx].cross_section().is_none() {
            return;
        }
        let mut panes: Vec<PaneState> = Vec::new();
        core::mem::swap(&mut panes, &mut self.panes);
        if let Some(section) = panes[edit.pane_idx].cross_section_mut() {
            section.line = Some(edit.line);
        }
        self.panes = panes;
    }
}

impl Gui {
    /// Ask for a pane to become another kind at the end of the frame. A pane
    /// that is not there is recorded too, and dropped when the request is
    /// applied.
    pub fn request_pane_kind(&mut self, pane_idx: usize, kind: PaneKind)
        ensures
            *final(self) == (Gui {
                gestures: Gestures {
                    pending_pane_kind: Some(PendingKind { pane_idx, kind }),
                    ..old(self).gestures
                },
                ..*old(self)
            }),
    {
        self.gestures.pending_pane_kind = Some(PendingKind { pane_idx, kind });
    }

    /// Whether `after` is this interface once the conversion that was asked for,
    /// if any, is made.
    pub open spec fn kind_applied(self, after: Gui) -> bool {
        let calm = Gui {
            gestures: Gestures { pending_pane_kind: None, ..self.gestures },
            ..self
        };
        match self.gestures.pending_pane_kind {
            None => after == self,
            Some(asked) => if asked.pane_idx < self.panes@.len() {
                let i = asked.pane_idx as int;
                &&& after == (Gui { panes: after.panes, ..calm })
                &&& after.panes@ == self.panes@.update(i, after.panes@[i])
                &&& self.panes@[i].converted(asked.kind, after.panes@[i])
            } else {
                after == calm
            },
        }
    }

    /// What applying the conversion asks of the application: a pane that stops
    /// being a 3D view lets go of its grid.
    pub open spec fn kind_requests(self) -> Seq<Request> {
        match self.gestures.pending_pane_kind {
            Some(asked) => if asked.pane_idx < self.panes@.len()
                && self.panes@[asked.pane_idx as int].kind_of() == PaneKind::Volume && asked.kind
                != PaneKind::Volume {
                seq![Request::Release { pane_idx: asked.pane_idx }]
            } else {
                Seq::empty()
            },
            None => Seq::empty(),
        }
    }

    /// Apply the pane conversion the frame asked for, if any.
    pub fn apply_pending_pane_kind(&mut self, actions: &mut Vec<GuiAction>)
        ensures
            old(self).kind_applied(*final(self)),
            requests(final(actions)@) == requests(old(actions)@) + old(self).kind_requests(),
            old(self).wf() ==> final(self).wf(),
    {
        let ghost asked_before = requests(actions@);
        assert(asked_before + Seq::<Request>::empty() =~= asked_before);
        let asked: PendingKind = match self.gestures.pending_pane_kind {
            Some(asked) => asked,
            None => {
                return;
            },
        };
        self.gestures.pending_pane_kind = None;
        if asked.pane_idx >= self.panes.len() {
            return;
        }
        if self.panes[asked.pane_idx].kind() == PaneKind::Volume && asked.kind
            != PaneKind::Volume {
            proof {
                lemma_requests_push(
                    actions@,
                    GuiAction::ReleaseVolume { pane_idx: asked.pane_idx },
                );
                assert(asked_before.push(Request::Release { pane_idx: asked.pane_idx })
                    =~= asked_before + seq![Request::Release { pane_idx: asked.pane_idx }]);
            }
            actions.push(GuiAction::ReleaseVolume { pane_idx: asked.pane_idx });
        }
        let mut panes: Vec<PaneState> = Vec::new();
        core::mem::swap(&mut panes, &mut self.panes);
        panes[asked.pane_idx].set_kind(asked.kind);
        self.panes = panes;
    }
}

/// Which pane a dragged region goes to.
#[derive(Clone, Copy, Debug, PartialEq, Eq, Structural)]
pub enum RegionDestination {
    /// A 3D pane that is there.
    Existing(usize),
    /// A new pane, in a layout of this many.
    Grow(usize),
    /// A pane of another kind.
    Convert(usize),
}

/// Whether `after` is a pane aimed at `region`, dragged on pane `source`, which
/// is `map`: a 3D view of the map's site and scan. A camera and a product of its
/// own are kept.
pub open spec fn aimed_at(
    before: PaneState,
    map: PaneState,
    source: usize,
    region: VolumeRegion,
    after: PaneState,
) -> bool {
    exists|view: PaneState| #[trigger]
        before.converted(PaneKind::Volume, view) && {
            &&& view.content is Volume
            &&& after == (PaneState {
                site: after.site,
                scan_info: after.scan_info,
                content: PaneContent::Volume(
                    Box::new(
                        VolumePane {
                            region: Some(region),
                            source_pane: Some(source),
                            ..*view.content->Volume_0
                        },
                    ),
                ),
                ..view
            })
            &&& after.site@ == map.site@
            &&& facts_of(after.scan_info) == facts_of(map.scan_info)
        }
}

/// Aim a pane at a region.
fn aim_at(
    pane: &mut PaneState,
    site: String,
    scan: Option<ScanInfo>,
    source: usize,
    region: VolumeRegion,
)
    ensures
        forall|map: PaneState|
            map.site@ == site@ && facts_of(map.scan_info) == facts_of(scan) ==> #[trigger] aimed_at(
                *old(pane),
                map,
                source,
                region,
                *final(pane),
            ),
{
    pane.set_kind(PaneKind::Volume);
    let ghost view = *pane;
    pane.site = site;
    pane.scan_info = scan;
    match &mut pane.content {
        PaneContent::Volume(volume) => {
            volume.region = Some(region);
            volume.source_pane = Some(source);
        },
        _ => {},
    }
    assert(old(pane).converted(PaneKind::Volume, view));
}

impl RegionDestination {
    /// The index of the pane.
    pub open spec fn index(self) -> int {
        match self {
            RegionDestination::Existing(idx) => idx as int,
            RegionDestination::Grow(count) => count - 1,
            RegionDestination::Convert(idx) => idx as int,
        }
    }
}

impl Gui {
    /// Whether `room` is this interface with a place for a region: resized where
    /// the destination says so, and untouched where it does not.
    pub open spec fn region_room(self, destination: RegionDestination, room: Gui) -> bool {
        match destination {
            RegionDestination::Grow(count) => self.resized(count, room),
            _ => room == self,
        }
    }

    /// Whether a region can be put there once there is room: a layout that
    /// refused to grow has no place for it, nor has a pane that is gone.
    pub open spec fn region_fits(self, destination: RegionDestination, room: Gui) -> bool {
        &&& destination matches RegionDestination::Grow(count) ==> 1 <= count <= MAX_PANES_DESKTOP
        &&& 0 <= destination.index() < room.panes@.len()
    }

    /// Whether `after` is this interface once the region that was dragged, if
    /// any, is put where `destination` says. The drag mode is off afterwards,
    /// and the map the region was dragged on stays the active pane.
    pub open spec fn region_landed(
        self,
        destination: Option<RegionDestination>,
        after: Gui,
    ) -> bool {
        let calm = Gui {
            gestures: (Gestures { pending_region: None, ..self.gestures }).region_arming(false),
            ..self
        };
        match self.gestures.pending_region {
            None => after == self,
            Some(dragged) => if dragged.source_pane >= self.panes@.len() || destination is None {
                after == calm
            } else {
                let there = destination->0;
                let target = there.index();
                exists|room: Gui| #[trigger]
                    calm.region_room(there, room) && if calm.region_fits(there, room) {
                        &&& after == (Gui { panes: after.panes, ..room })
                        &&& after.panes@ == room.panes@.update(target, after.panes@[target])
                        &&& aimed_at(
                            room.panes@[target],
                            self.panes@[dragged.source_pane as int],
                            dragged.source_pane,
                            dragged.region,
                            after.panes@[target],
                        )
                    } else {
                        after == room
                    }
            },
        }
    }

    /// Aim a 3D pane at the region the frame committed, if any. `destination` is
    /// the pane it is for, or `None` where there is none.
    pub fn apply_pending_region(&mut self, destination: Option<RegionDestination>)
        requires
            old(self).wf(),
        ensures
            old(self).region_landed(destination, *final(self)),
            final(self).wf(),
    {
        let dragged: PendingRegion = match self.gestures.pending_region {
            Some(dragged) => dragged,
            None => {
                return;
            },
        };
        self.gestures.pending_region = None;
        self.set_region_arm(false);
        let ghost calm = *self;
        let source: usize = dragged.source_pane;
        if source >= self.panes.len() {
            return;
        }
        let there: RegionDestination = match destination {
            Some(there) => there,
            None => {
                return;
            },
        };
        let site: String = self.panes[source].site.clone();
        let scan: Option<ScanInfo> = copy_scan(&self.panes[source].scan_info);
        let target: usize = match self.make_region_room(there) {
            Some(target) => target,
            None => {
                assert(calm.region_room(there, *self));
                return;
            },
        };
        let ghost room = *self;
        let mut panes: Vec<PaneState> = Vec::new();
        core::mem::swap(&mut panes, &mut self.panes);
        aim_at(&mut panes[target], site, scan, source, dragged.region);
        self.panes = panes;
        assert(aimed_at(
            room.panes@[target as int],
            old(self).panes@[source as int],
            source,
            dragged.region,
            self.panes@[target as int],
        ));
        assert(calm.region_room(there, room));
    }

    /// Make room for a region, and say which pane it goes to, if it can go
    /// anywhere.
    fn make_region_room(&mut self, there: RegionDestination) -> (r: Option<usize>)
        requires
            old(self).wf(),
        ensures
            old(self).region_room(there, *final(self)),
            final(self).wf(),
            r is Some <==> old(self).region_fits(there, *final(self)),
            r matches Some(target) ==> target == there.index(),
    {
        let target: usize = match there {
            RegionDestination::Existing(idx) => idx,
            RegionDestination::Convert(idx) => idx,
            RegionDestination::Grow(count) => {
                if !self.set_pane_count(count) {
                    return None;
                }
                count - 1
            },
        };
        if target < self.panes.len() {
            Some(target)
        } else {
            None
        }
    }
}

/// A line drawn on a pane that is there always lands: afterwards the active
/// pane is a section aimed along it, of the site and the product of the map it
/// was drawn on, with no picture of an earlier line.
pub proof fn law_drawn_line_lands(before: Gui, after: Gui)
    requires
        before.line_landed(after),
        before.gestures.pending_section_line is Some,
        before.gestures.pending_section_line->0.pane_idx < before.panes@.len(),
    ensures
        ({
            let drawn = before.gestures.pending_section_line->0;
            let map = before.panes@[drawn.pane_idx as int];
            &&& after.active_pane < after.panes@.len()
            &&& after.panes@[after.active_pane as int].content is CrossSection
            &&& {
                let pane = after.panes@[after.active_pane as int];
                let section = pane.content->CrossSection_0;
                &&& section.line == Some(drawn.line)
                &&& section.source_pane == Some(drawn.pane_idx)
                &&& section.section is None
                &&& section.texture is None
                &&& section.rendered_for is None
                &&& section.unavailable is None
                &&& pane.site@ == map.site@
                &&& pane.selected_product == map.selected_product
                &&& facts_of(pane.scan_info) == facts_of(map.scan_info)
            }
            &&& after.gestures.pending_section_line is None
        }),
{
    let drawn = before.gestures.pending_section_line->0;
    let calm = Gui {
        gestures: Gestures { pending_section_line: None, ..before.gestures },
        ..before
    };
    let target = calm.landing_index(drawn.pane_idx);
    let room = choose|room: Gui| #[trigger]
        calm.makes_room(drawn.pane_idx, room) && {
            &&& 0 <= target < room.panes@.len()
            &&& after == (Gui { panes: after.panes, active_pane: target as usize, ..room })
            &&& after.panes@ == room.panes@.update(target, after.panes@[target])
            &&& aimed_along(
                room.panes@[target],
                before.panes@[drawn.pane_idx as int],
                drawn.pane_idx,
                drawn.line,
                after.panes@[target],
            )
        };
    assert(room.panes.len() == room.panes@.len());
}

/// The map a line is drawn on is taken for the section only where it is the one
/// pane there is and the layout cannot grow.
pub proof fn law_map_under_line_is_kept(state: Gui, source: usize)
    requires
        source < state.shown(),
        state.panes@[source as int].kind_of() == PaneKind::MapView,
        state.shown() > 1 || state.pane_layout@.count + 1 <= state.platform.width.pane_limit(),
        state.pane_layout@.count <= state.panes@.len(),
    ensures
        state.landing_index(source) != source,
{
    let panes = state.shown_panes();
    lemma_first_where(panes, |p: PaneState| is_section_of(p, source));
    lemma_first_where(panes, |p: PaneState| p.content is CrossSection);
    assert(panes[source as int] == state.panes@[source as int]);
}

/// A second line drawn on the same map is cut in the pane the first one got,
/// while that pane is shown: lines do not fill the screen with panes.
pub proof fn law_second_line_re_aims(before: Gui, once: Gui)
    requires
        before.line_landed(once),
        before.gestures.pending_section_line is Some,
        before.gestures.pending_section_line->0.pane_idx < before.panes@.len(),
        once.active_pane < once.shown(),
    ensures
        ({
            let source = before.gestures.pending_section_line->0.pane_idx;
            &&& once.landing(source) is There
            &&& once.landing_index(source) == once.active_pane
        }),
{
    let drawn = before.gestures.pending_section_line->0;
    let source = drawn.pane_idx;
    let panes = once.shown_panes();
    let active = once.active_pane as int;
    law_drawn_line_lands(before, once);
    let calm = Gui {
        gestures: Gestures { pending_section_line: None, ..before.gestures },
        ..before
    };
    let target = calm.landing_index(source);
    let room = choose|room: Gui| #[trigger]
        calm.makes_room(source, room) && {
            &&& 0 <= target < room.panes@.len()
            &&& once == (Gui { panes: once.panes, active_pane: target as usize, ..room })
            &&& once.panes@ == room.panes@.update(target, once.panes@[target])
            &&& aimed_along(
                room.panes@[target],
                before.panes@[source as int],
                source,
                drawn.line,
                once.panes@[target],
            )
        };
    assert(room.panes.len() == room.panes@.len());
    let earlier = calm.shown_panes();
    lemma_first_where(earlier, |p: PaneState| is_section_of(p, source));
    lemma_first_where(earlier, |p: PaneState| p.content is CrossSection);
    assert forall|k: int| 0 <= k < active implies !is_section_of(#[trigger] panes[k], source) by {
        assert(panes[k] == once.panes@[k]);
        assert(once.panes@[k] == room.panes@[k]);
        if k < earlier.len() {
            assert(earlier[k] == before.panes@[k]);
            assert(!is_section_of(earlier[k], source));
            assert(room.panes@[k].content == before.panes@[k].content);
        }
    }
    lemma_first_where(panes, |p: PaneState| is_section_of(p, source));
    assert(panes[active] == once.panes@[active]);
    assert(is_section_of(panes[active], source));
}

/// Asking for a number of panes from one to six gives a layout of that many, and a
/// pane for each; asking for more changes no count. Panes are never forgotten: a
/// smaller layout keeps those it no longer shows.
pub proof fn law_resizing_reaches_the_count(before: Gui, count: usize, after: Gui)
    requires
        before.wf(),
        before.resized(count, after),
    ensures
        1 <= count <= 6 ==> after.pane_layout@.count == count && after.panes@.len() >= count,
        count > 6 ==> after.pane_layout == before.pane_layout && after.panes@.len()
            == before.panes@.len() && after.active_pane == before.active_pane,
        after.panes@.len() >= before.panes@.len(),
        count <= before.panes@.len() ==> after.panes@.len() == before.panes@.len(),
        count <= 6 ==> after.active_pane < after.pane_layout@.count,
        before.active_pane < count <= 6 ==> after.active_pane == before.active_pane,
{
}

/// Resizing leaves every pane that was there what it was: only switches and settings
/// it lacked are filled in.
pub proof fn law_resizing_keeps_the_panes(before: Gui, count: usize, after: Gui, i: int)
    requires
        before.wf(),
        before.resized(count, after),
        0 <= i < before.panes@.len(),
    ensures
        after.panes@[i] == (PaneState {
            enabled_overlays: after.panes@[i].enabled_overlays,
            overlay_configs: after.panes@[i].overlay_configs,
            ..before.panes@[i]
        }),
        forall|kind: OverlayKind| #[trigger]
            before.panes@[i].enabled_overlays@.contains_key(kind) ==> after.panes@[i].overlay_on(
                kind,
            ) == before.panes@[i].overlay_on(kind),
{
    assert(seeded(before.panes@[i], before.overlays, after.panes@[i]));
}

/// A pane that is added is a live map of the site and the scan of the pane in front,
/// linked in every way, with the layers on that the handlers have on.
pub proof fn law_added_pane_shows_the_active_site(
    before: Gui,
    count: usize,
    after: Gui,
    i: int,
    kind: OverlayKind,
)
    requires
        before.wf(),
        before.resized(count, after),
        before.panes@.len() <= i < after.panes@.len(),
    ensures
        ({
            let front = before.panes@[before.active_pane as int];
            let born = after.panes@[i];
            &&& born.content is MapView
            &&& born.site@ == front.site@
            &&& facts_of(born.scan_info) == facts_of(front.scan_info)
            &&& born.viewing_live
            &&& born.time_link
            &&& born.viewport_link
            &&& born.layer_link
            &&& !born.loop_state.active()
            &&& born.overlay_on(kind) == (before.overlays.settings@.contains_key(kind)
                && before.overlays.settings@[kind].enabled)
        }),
{
    let front = before.panes@[before.active_pane as int];
    assert(newborn(
        front.site@,
        facts_of(front.scan_info),
        before.overlays,
        after.panes@[i],
    ));
}

/// Growing a layout and shrinking it back shows the same panes again, the new ones
/// remembered behind them.
pub proof fn law_shrunk_panes_come_back(
    before: Gui,
    small: Gui,
    back: Gui,
    fewer: usize,
    count: usize,
    i: int,
)
    requires
        before.wf(),
        before.resized(fewer, small),
        small.resized(count, back),
        1 <= fewer <= count <= 6,
        count <= before.panes@.len(),
        0 <= i < count,
    ensures
        back.pane_layout@.count == count,
        back.panes@[i].content == before.panes@[i].content,
        back.panes@[i].site == before.panes@[i].site,
        back.panes@[i].viewport == before.panes@[i].viewport,
        back.panes@[i].loop_state == before.panes@[i].loop_state,
        back.panes@[i].selected_product == before.panes@[i].selected_product,
{
    assert(seeded(before.panes@[i], before.overlays, small.panes@[i]));
    assert(seeded(small.panes@[i], small.overlays, back.panes@[i]));
}

/// Where a line drawn on a map lands: in the first section on screen that was drawn
/// from that map; without one, in a new pane while the screen has room; without
/// room, in the first section on screen; without any, in the last pane that is not
/// the map itself; and in the map where it is alone.
pub proof fn law_line_finds_its_pane(state: Gui, source: usize)
    requires
        state.pane_layout@.count >= 1,
        source < state.panes@.len(),
    ensures
        ({
            let at = state.landing_index(source);
            let room = state.pane_layout@.count < state.platform.width.pane_limit();
            let own = exists|i: int|
                0 <= i < state.shown() && is_section_of(#[trigger] state.panes@[i], source);
            let any = exists|i: int|
                0 <= i < state.shown() && (#[trigger] state.panes@[i]).content is CrossSection;
            &&& own ==> {
                &&& state.landing(source) is There
                &&& 0 <= at < state.shown()
                &&& is_section_of(state.panes@[at], source)
                &&& forall|k: int|
                    0 <= k < at ==> !is_section_of(#[trigger] state.panes@[k], source)
            }
            &&& !own && room ==> state.landing(source) is Grown && at == state.pane_layout@.count
            &&& !own && !room ==> state.landing(source) is There
            &&& !own && !room && any ==> {
                &&& 0 <= at < state.shown()
                &&& state.panes@[at].content is CrossSection
                &&& forall|k: int|
                    0 <= k < at ==> !((#[trigger] state.panes@[k]).content is CrossSection)
            }
            &&& !own && !room && !any && state.shown() > 1 ==> {
                &&& at != source
                &&& at == state.shown() - 1 || (source == state.shown() - 1 && at == state.shown()
                    - 2)
            }
            &&& !own && !room && !any && state.shown() == 1 && source == 0 ==> at == source
        }),
{
    let panes = state.shown_panes();
    let from_here = |p: PaneState| is_section_of(p, source);
    let section = |p: PaneState| p.content is CrossSection;
    lemma_first_where(panes, from_here);
    lemma_first_where(panes, section);
    assert forall|k: int| 0 <= k < state.shown() implies #[trigger] state.panes@[k]
        == panes[k] by {}
    if exists|i: int|
        0 <= i < state.shown() && is_section_of(#[trigger] state.panes@[i], source) {
        let i = choose|i: int|
            0 <= i < state.shown() && is_section_of(#[trigger] state.panes@[i], source);
        assert(from_here(panes[i]));
    }
    if exists|i: int|
        0 <= i < state.shown() && (#[trigger] state.panes@[i]).content is CrossSection {
        let i = choose|i: int|
            0 <= i < state.shown() && (#[trigger] state.panes@[i]).content is CrossSection;
        assert(section(panes[i]));
    }
}

/// A section is drawn from a map exactly where it remembers that map.
pub proof fn law_section_remembers_its_map(pane: PaneState, source: usize)
    ensures
        is_section_of(pane, source) <==> pane.content is CrossSection
            && pane.content->CrossSection_0.source_pane == Some(source),
{
}

/// A line that lands changes one pane: every other keeps its content, its site, its
/// selection, its viewport and its animation. The layout grows by one pane or not at
/// all.
pub proof fn law_line_changes_one_pane(before: Gui, after: Gui, i: int)
    requires
        before.wf(),
        before.pane_layout@.count >= 1,
        before.line_landed(after),
        0 <= i < before.panes@.len(),
        i != after.active_pane || before.gestures.pending_section_line is None,
    ensures
        after.panes@.len() >= before.panes@.len(),
        after.panes@[i] == (PaneState {
            enabled_overlays: after.panes@[i].enabled_overlays,
            overlay_configs: after.panes@[i].overlay_configs,
            ..before.panes@[i]
        }),
        before.gestures.pending_section_line is None ==> after == before,
        after.pane_layout@.count == before.pane_layout@.count || after.pane_layout@.count
            == before.pane_layout@.count + 1,
{
    if let Some(drawn) = before.gestures.pending_section_line {
        if drawn.pane_idx < before.panes@.len() {
            let source = drawn.pane_idx;
            let calm = Gui {
                gestures: Gestures { pending_section_line: None, ..before.gestures },
                ..before
            };
            let target = calm.landing_index(source);
            let room = choose|room: Gui| #[trigger]
                calm.makes_room(source, room) && {
                    &&& 0 <= target < room.panes@.len()
                    &&& after == (Gui { panes: after.panes, active_pane: target as usize, ..room })
                    &&& after.panes@ == room.panes@.update(target, after.panes@[target])
                    &&& aimed_along(
                        room.panes@[target],
                        before.panes@[source as int],
                        source,
                        drawn.line,
                        after.panes@[target],
                    )
                };
            assert(room.panes.len() == room.panes@.len());
            assert(after.panes@[i] == room.panes@[i]);
            if calm.landing(source) is Grown {
                assert(calm.pane_layout@.count + 1 <= 6);
                assert(seeded(calm.panes@[i], calm.overlays, room.panes@[i]));
            }
        }
    }
}

/// A line is drawn for the pane it lands in and leaves that pane's own past behind:
/// a pane that was a section goes on being looked at as before, and any other starts
/// anew.
pub proof fn law_aimed_pane_keeps_its_view(
    before: PaneState,
    map: PaneState,
    source: usize,
    line: SectionLine,
    after: PaneState,
)
    requires
        aimed_along(before, map, source, line, after),
    ensures
        after.content is CrossSection,
        after.content->CrossSection_0.line == Some(line),
        after.content->CrossSection_0.source_pane == Some(source),
        after.content->CrossSection_0.section is None,
        after.content->CrossSection_0.texture is None,
        after.content->CrossSection_0.rendered_for is None,
        after.site@ == map.site@,
        facts_of(after.scan_info) == facts_of(map.scan_info),
        after.selected_product == map.selected_product,
        after.viewport == before.viewport,
        after.selected_elevation == before.selected_elevation,
        after.viewing_live == before.viewing_live,
        after.enabled_overlays == before.enabled_overlays,
        before.content is CrossSection ==> after.loop_state == before.loop_state,
        !(before.content is CrossSection) ==> !after.loop_state.active(),
        before.content is CrossSection ==> after.content->CrossSection_0.detail_open
            == before.content->CrossSection_0.detail_open,
        after == (PaneState {
            selected_product: after.selected_product,
            site: after.site,
            scan_info: after.scan_info,
            content: after.content,
            loop_state: after.loop_state,
            ..before
        }),
{
}

/// A region is dragged for the pane it lands in: that pane becomes a 3D view of it, of the
/// map's site and scan, and keeps all else it had, the camera of an earlier view too.
pub proof fn law_aimed_view_keeps_its_own(
    before: PaneState,
    map: PaneState,
    source: usize,
    region: VolumeRegion,
    after: PaneState,
)
    requires
        aimed_at(before, map, source, region, after),
    ensures
        after.content is Volume,
        after.content->Volume_0.region == Some(region),
        after.content->Volume_0.source_pane == Some(source),
        after.site@ == map.site@,
        facts_of(after.scan_info) == facts_of(map.scan_info),
        before.content is Volume ==> *after.content->Volume_0 == (VolumePane {
            region: Some(region),
            source_pane: Some(source),
            ..*before.content->Volume_0
        }),
        before.content is Volume ==> after.loop_state == before.loop_state,
        !(before.content is Volume) ==> {
            &&& !after.loop_state.active()
            &&& after.content->Volume_0.camera@.eye_distance == 2_500_000
            &&& !after.content->Volume_0.hide_floor
        },
        after == (PaneState {
            site: after.site,
            scan_info: after.scan_info,
            content: after.content,
            loop_state: after.loop_state,
            ..before
        }),
{
}

/// A line or a region that lands touches the panes, the layout and the gesture that is over,
/// and nothing else of the interface.
pub proof fn law_landing_touches_nothing_else(
    before: Gui,
    destination: Option<RegionDestination>,
    after: Gui,
)
    requires
        before.line_landed(after) || before.region_landed(destination, after),
    ensures
        after == (Gui {
            panes: after.panes,
            pane_layout: after.pane_layout,
            active_pane: after.active_pane,
            gestures: after.gestures,
            ..before
        }),
        before.line_landed(after) ==> after.gestures == (Gestures {
            pending_section_line: None,
            ..before.gestures
        }),
        !before.line_landed(after) ==> after.gestures == (Gestures {
            pending_region: after.gestures.pending_region,
            region_arm: after.gestures.region_arm,
            region_drag: after.gestures.region_drag,
            ..before.gestures
        }),
{
    if before.line_landed(after) {
        if let Some(drawn) = before.gestures.pending_section_line {
            if drawn.pane_idx < before.panes@.len() {
                let calm = Gui {
                    gestures: Gestures { pending_section_line: None, ..before.gestures },
                    ..before
                };
                let target = calm.landing_index(drawn.pane_idx);
                let room = choose|room: Gui| #[trigger]
                    calm.makes_room(drawn.pane_idx, room) && {
                        &&& 0 <= target < room.panes@.len()
                        &&& after == (Gui {
                            panes: after.panes,
                            active_pane: target as usize,
                            ..room
                        })
                        &&& after.panes@ == room.panes@.update(target, after.panes@[target])
                        &&& aimed_along(
                            room.panes@[target],
                            before.panes@[drawn.pane_idx as int],
                            drawn.pane_idx,
                            drawn.line,
                            after.panes@[target],
                        )
                    };
                assert(room.gestures == calm.gestures);
            }
        }
    } else if before.gestures.pending_region is Some && destination is Some
        && before.gestures.pending_region->0.source_pane < before.panes@.len() {
        let calm = Gui {
            gestures: (Gestures { pending_region: None, ..before.gestures }).region_arming(false),
            ..before
        };
        let dragged = before.gestures.pending_region->0;
        let there = destination->0;
        let target = there.index();
        let room = choose|room: Gui| #[trigger]
            calm.region_room(there, room) && if calm.region_fits(there, room) {
                &&& after == (Gui { panes: after.panes, ..room })
                &&& after.panes@ == room.panes@.update(target, after.panes@[target])
                &&& aimed_at(
                    room.panes@[target],
                    before.panes@[dragged.source_pane as int],
                    dragged.source_pane,
                    dragged.region,
                    after.panes@[target],
                )
            } else {
                after == room
            };
        assert(room.gestures == calm.gestures);
    }
}

/// A conversion or a dropped handle touches one pane and the gesture that is over, and the
/// pane only in what it is of.
pub proof fn law_conversion_touches_nothing_else(before: Gui, after: Gui, i: int)
    requires
        before.kind_applied(after) || before.edit_landed(after),
        0 <= i < before.panes@.len(),
    ensures
        after == (Gui { panes: after.panes, gestures: after.gestures, ..before }),
        after.panes@[i] == (PaneState {
            content: after.panes@[i].content,
            loop_state: after.panes@[i].loop_state,
            ..before.panes@[i]
        }),
        after.gestures == (Gestures {
            pending_pane_kind: after.gestures.pending_pane_kind,
            pending_section_edit: after.gestures.pending_section_edit,
            ..before.gestures
        }),
{
}

/// A dropped handle moves the line of the section it belongs to and nothing else:
/// not its picture, not its map, and no other pane. On a pane that is no section it
/// does nothing.
pub proof fn law_dropped_handle_moves_one_line(before: Gui, after: Gui, i: int)
    requires
        before.edit_landed(after),
        0 <= i < before.panes@.len(),
    ensures
        after.gestures.pending_section_edit is None,
        after.panes@.len() == before.panes@.len(),
        before.gestures.pending_section_edit is None ==> after == before,
        before.gestures.pending_section_edit matches Some(edit) ==> {
            if i == edit.pane_idx && before.panes@[i].content is CrossSection {
                let was = before.panes@[i].content->CrossSection_0;
                &&& after.panes@[i].content is CrossSection
                &&& after.panes@[i].content->CrossSection_0.line == Some(edit.line)
                &&& after.panes@[i].content->CrossSection_0.texture == was.texture
                &&& after.panes@[i].content->CrossSection_0.section == was.section
                &&& after.panes@[i].content->CrossSection_0.rendered_for == was.rendered_for
                &&& after.panes@[i].content->CrossSection_0.source_pane == was.source_pane
                &&& after.panes@[i].loop_state == before.panes@[i].loop_state
                &&& after.panes@[i].site == before.panes@[i].site
            } else {
                after.panes@[i] == before.panes@[i]
            }
        },
{
}

/// The conversion that was asked for is made, on that pane alone, and is asked for
/// no longer. The pane lets go of a voxel grid exactly where it stops being a 3D
/// view.
pub proof fn law_asked_conversion_is_made(before: Gui, after: Gui, i: int)
    requires
        before.kind_applied(after),
        0 <= i < before.panes@.len(),
    ensures
        after.gestures.pending_pane_kind is None,
        after.panes@.len() == before.panes@.len(),
        before.gestures.pending_pane_kind is None ==> after == before && before.kind_requests()
            == Seq::<Request>::empty(),
        before.gestures.pending_pane_kind matches Some(asked) ==> {
            &&& i == asked.pane_idx ==> after.panes@[i].kind_of() == asked.kind
                && after.panes@[i].site == before.panes@[i].site
                && after.panes@[i].viewport == before.panes@[i].viewport
                && after.panes@[i].selected_product == before.panes@[i].selected_product
            &&& i == asked.pane_idx ==> before.kind_requests() == if before.panes@[i].content
                is Volume && asked.kind != PaneKind::Volume {
                seq![Request::Release { pane_idx: asked.pane_idx }]
            } else {
                Seq::<Request>::empty()
            }
            &&& i != asked.pane_idx ==> after.panes@[i] == before.panes@[i]
        },
{
}

/// A dragged region that has a place to go lands there: that pane becomes a 3D view
/// of the region and of the map's site and scan. The map stays in front while it is
/// on screen, nothing is armed afterwards, and no other pane is touched.
pub proof fn law_dragged_region_lands(
    before: Gui,
    there: RegionDestination,
    after: Gui,
    i: int,
)
    requires
        before.wf(),
        before.region_landed(Some(there), after),
        before.gestures.pending_region is Some,
        before.gestures.pending_region->0.source_pane < before.panes@.len(),
        !(there is Grow),
        0 <= there.index() < before.panes@.len(),
        0 <= i < before.panes@.len(),
    ensures
        ({
            let dragged = before.gestures.pending_region->0;
            let map = before.panes@[dragged.source_pane as int];
            let pane = after.panes@[there.index()];
            &&& pane.content is Volume
            &&& pane.content->Volume_0.region == Some(dragged.region)
            &&& pane.content->Volume_0.source_pane == Some(dragged.source_pane)
            &&& pane.site@ == map.site@
            &&& facts_of(pane.scan_info) == facts_of(map.scan_info)
            &&& before.panes@[there.index()].content is Volume ==> pane.content->Volume_0.camera
                == before.panes@[there.index()].content->Volume_0.camera
            &&& pane.selected_product == before.panes@[there.index()].selected_product
            &&& i != there.index() ==> after.panes@[i] == before.panes@[i]
            &&& after.active_pane == before.active_pane
            &&& after.gestures.pending_region is None
            &&& !after.gestures.region_arm
            &&& after.gestures.region_drag is None
        }),
{
    let calm = Gui {
        gestures: (Gestures { pending_region: None, ..before.gestures }).region_arming(false),
        ..before
    };
    assert(calm.region_fits(there, calm));
}

/// A region that asks for a new pane grows the layout to that many and lands in the
/// last of them; where the layout refuses, no pane is aimed.
pub proof fn law_dragged_region_grows_the_layout(
    before: Gui,
    count: usize,
    after: Gui,
)
    requires
        before.wf(),
        before.region_landed(Some(RegionDestination::Grow(count)), after),
        before.gestures.pending_region is Some,
        before.gestures.pending_region->0.source_pane < before.panes@.len(),
    ensures
        ({
            let dragged = before.gestures.pending_region->0;
            let map = before.panes@[dragged.source_pane as int];
            &&& after.gestures.pending_region is None
            &&& !after.gestures.region_arm
            &&& 1 <= count <= 6 ==> {
                &&& after.pane_layout@.count == count
                &&& after.panes@.len() >= count
                &&& after.panes@[count - 1].content is Volume
                &&& after.panes@[count - 1].content->Volume_0.region == Some(dragged.region)
                &&& after.panes@[count - 1].content->Volume_0.source_pane == Some(
                    dragged.source_pane,
                )
                &&& after.panes@[count - 1].site@ == map.site@
            }
            &&& count > 6 ==> after.pane_layout@ == before.pane_layout@
        }),
{
    let calm = Gui {
        gestures: (Gestures { pending_region: None, ..before.gestures }).region_arming(false),
        ..before
    };
    let there = RegionDestination::Grow(count);
    let dragged = before.gestures.pending_region->0;
    let target = there.index();
    let room = choose|room: Gui| #[trigger]
        calm.region_room(there, room) && if calm.region_fits(there, room) {
            &&& after == (Gui { panes: after.panes, ..room })
            &&& after.panes@ == room.panes@.update(target, after.panes@[target])
            &&& aimed_at(
                room.panes@[target],
                before.panes@[dragged.source_pane as int],
                dragged.source_pane,
                dragged.region,
                after.panes@[target],
            )
        } else {
            after == room
        };
    assert(calm.resized(count, room));
}

/// A region that was dragged on a pane that is gone, or that has nowhere to go, is
/// dropped, and without one nothing happens.
pub proof fn law_region_without_a_place_is_dropped(
    before: Gui,
    destination: Option<RegionDestination>,
    after: Gui,
)
    requires
        before.region_landed(destination, after),
    ensures
        before.gestures.pending_region is None ==> after == before,
        before.gestures.pending_region is Some && (destination is None
            || before.gestures.pending_region->0.source_pane >= before.panes@.len()) ==> {
            &&& after.panes == before.panes
            &&& after.pane_layout == before.pane_layout
            &&& after.gestures.pending_region is None
            &&& !after.gestures.region_arm
        },
{
}

} // verus!
