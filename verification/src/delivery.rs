//! Scans as they arrive, and what every pane does about them.

use vstd::prelude::*;
use crate::actions::RadarConfig;
use crate::gui::{Gui, MapState, RadarState};
use crate::measure::Measure;
use crate::pane::PaneState;
use crate::poll::{AutoPollState, BASE_INTERVAL_SECS};
use crate::scan::{facts_of, ProductRanks, ScanFacts, ScanInfo};
use crate::text::same_text;
use crate::viewport::Viewport;

verus! {

/// The zoom the first scan of a session sets, in millionths of a level.
pub const DEFAULT_INITIAL_ZOOM: i64 = 7_000_000;

/// A viewport once the first scan of a session is in: zoomed in, where this is
/// that scan.
pub open spec fn zoomed(before: Viewport, first: bool, after: Viewport) -> bool {
    if first {
        after.level() == DEFAULT_INITIAL_ZOOM && after.middle() == before.middle()
    } else {
        after == before
    }
}

/// A pane once a site's whole scan is in.
pub open spec fn delivered(
    before: PaneState,
    site: Seq<char>,
    info: ScanFacts,
    first: bool,
    after: PaneState,
) -> bool {
    &&& after == (PaneState { scan_info: after.scan_info, viewport: after.viewport, ..before })
    &&& zoomed(before.viewport, first, after.viewport)
    &&& if before.site@ == site {
        facts_of(after.scan_info) == Some(info)
    } else {
        after.scan_info == before.scan_info
    }
}

/// A pane once part of a site's scan is in.
pub open spec fn chunk_delivered(
    before: PaneState,
    site: Seq<char>,
    fresh: ScanFacts,
    ranks: ProductRanks,
    first: bool,
    after: PaneState,
) -> bool {
    &&& after == (PaneState { scan_info: after.scan_info, viewport: after.viewport, ..before })
    &&& zoomed(before.viewport, first, after.viewport)
    &&& if before.site@ == site {
        &&& after.scan_info is Some
        &&& match before.scan_info {
            Some(known) => known@.merges(fresh, ranks@, after.scan_info->0@),
            None => after.scan_info->0@ == fresh,
        }
    } else {
        after.scan_info == before.scan_info
    }
}

fn deliver(pane: &mut PaneState, site: &str, info: &ScanInfo)
    ensures
        delivered(*old(pane), site@, info@, false, *final(pane)),
{
    if same_text(pane.site.as_str(), site) {
        pane.scan_info = Some(info.clone());
    }
}

fn deliver_all(panes: &mut Vec<PaneState>, site: &str, info: &ScanInfo)
    ensures
        final(panes)@.len() == old(panes)@.len(),
        forall|i: int|
            0 <= i < old(panes)@.len() ==> delivered(
                old(panes)@[i],
                site@,
                info@,
                false,
                #[trigger] final(panes)@[i],
            ),
{
    let mut i: usize = 0;
    while i < panes.len()
        invariant
            i <= panes@.len(),
            panes@.len() == old(panes)@.len(),
            forall|k: int|
                0 <= k < i ==> delivered(
                    old(panes)@[k],
                    site@,
                    info@,
                    false,
                    #[trigger] panes@[k],
                ),
            forall|k: int| i <= k < panes@.len() ==> #[trigger] panes@[k] == old(panes)@[k],
        decreases panes@.len() - i,
    {
        deliver(&mut panes[i], site, info);
        i = i + 1;
    }
}

fn deliver_chunk(pane: &mut PaneState, site: &str, fresh: &ScanInfo, ranks: &ProductRanks)
    ensures
        chunk_delivered(*old(pane), site@, fresh@, *ranks, false, *final(pane)),
{
    if !same_text(pane.site.as_str(), site) {
        return;
    }
    let merged: ScanInfo = match pane.scan_info.take() {
        Some(known) => known.merged_with(fresh, ranks),
        None => fresh.clone(),
    };
    pane.scan_info = Some(merged);
}

fn deliver_chunk_all(
    panes: &mut Vec<PaneState>,
    site: &str,
    fresh: &ScanInfo,
    ranks: &ProductRanks,
)
    ensures
        final(panes)@.len() == old(panes)@.len(),
        forall|i: int|
            0 <= i < old(panes)@.len() ==> chunk_delivered(
                old(panes)@[i],
                site@,
                fresh@,
                *ranks,
                false,
                #[trigger] final(panes)@[i],
            ),
{
    let mut i: usize = 0;
    while i < panes.len()
        invariant
            i <= panes@.len(),
            panes@.len() == old(panes)@.len(),
            forall|k: int|
                0 <= k < i ==> chunk_delivered(
                    old(panes)@[k],
                    site@,
                    fresh@,
                    *ranks,
                    false,
                    #[trigger] panes@[k],
                ),
            forall|k: int| i <= k < panes@.len() ==> #[trigger] panes@[k] == old(panes)@[k],
        decreases panes@.len() - i,
    {
        deliver_chunk(&mut panes[i], site, fresh, ranks);
        i = i + 1;
    }
}

/// Zoom every pane to where the first scan of a session is seen.
fn zoom_all(panes: &mut Vec<PaneState>)
    ensures
        final(panes)@.len() == old(panes)@.len(),
        forall|i: int|
            0 <= i < old(panes)@.len() ==> (#[trigger] final(panes)@[i]) == (PaneState {
                viewport: final(panes)@[i].viewport,
                ..old(panes)@[i]
            }) && zoomed(old(panes)@[i].viewport, true, final(panes)@[i].viewport),
{
    let mut i: usize = 0;
    while i < panes.len()
        invariant
            i <= panes@.len(),
            panes@.len() == old(panes)@.len(),
            forall|k: int|
                0 <= k < i ==> (#[trigger] panes@[k]) == (PaneState {
                    viewport: panes@[k].viewport,
                    ..old(panes)@[k]
                }) && zoomed(old(panes)@[k].viewport, true, panes@[k].viewport),
            forall|k: int| i <= k < panes@.len() ==> #[trigger] panes@[k] == old(panes)@[k],
        decreases panes@.len() - i,
    {
        let mut viewport: Viewport = panes[i].viewport;
        let _ = viewport.set_zoom(Measure::Micro(DEFAULT_INITIAL_ZOOM));
        panes[i].viewport = viewport;
        i = i + 1;
    }
}

impl Gui {
    /// Zoom in on the first scan of a session and never again, so that a later
    /// one does not throw away where the user has gone.
    fn claim_initial_zoom(&mut self)
        ensures
            final(self).panes@.len() == old(self).panes@.len(),
            forall|i: int|
                0 <= i < old(self).panes@.len() ==> (#[trigger] final(self).panes@[i]) == (
                PaneState { viewport: final(self).panes@[i].viewport, ..old(self).panes@[i] })
                    && zoomed(
                    old(self).panes@[i].viewport,
                    !old(self).map.initial_zoom_set,
                    final(self).panes@[i].viewport,
                ),
            *final(self) == (Gui {
                panes: final(self).panes,
                map: MapState { initial_zoom_set: true, ..old(self).map },
                ..*old(self)
            }),
    {
        if !self.map.initial_zoom_set {
            zoom_all(&mut self.panes);
            self.map.initial_zoom_set = true;
        }
    }

    /// Whether `after` is this interface once a site's whole scan is in.
    pub open spec fn scan_taken(self, site: Seq<char>, info: ScanFacts, after: Gui) -> bool {
        &&& after.panes@.len() == self.panes@.len()
        &&& forall|i: int|
            0 <= i < self.panes@.len() ==> delivered(
                self.panes@[i],
                site,
                info,
                !self.map.initial_zoom_set,
                #[trigger] after.panes@[i],
            )
        &&& after == (Gui {
            panes: after.panes,
            radar: RadarState { fetching: false, ..self.radar },
            auto_poll: AutoPollState { interval_secs: BASE_INTERVAL_SECS, ..self.auto_poll },
            map: MapState { initial_zoom_set: true, ..self.map },
            ..self
        })
    }

    /// Whether `after` is this interface once part of a site's scan is in.
    pub open spec fn chunk_taken(self, site: Seq<char>, fresh: ScanFacts, after: Gui) -> bool {
        &&& after.panes@.len() == self.panes@.len()
        &&& forall|i: int|
            0 <= i < self.panes@.len() ==> chunk_delivered(
                self.panes@[i],
                site,
                fresh,
                self.ranks,
                !self.map.initial_zoom_set,
                #[trigger] after.panes@[i],
            )
        &&& after == (Gui {
            panes: after.panes,
            map: MapState { initial_zoom_set: true, ..self.map },
            ..self
        })
    }

    /// A site's whole scan is in: every pane on the site takes it, the fetch is
    /// over, and the poll interval is back to its base.
    pub fn set_scan_info_for_site(&mut self, site: &str, info: ScanInfo)
        ensures
            old(self).scan_taken(site@, info@, *final(self)),
            final(self).panes@.len() == old(self).panes@.len(),
            forall|i: int|
                0 <= i < old(self).panes@.len() ==> delivered(
                    old(self).panes@[i],
                    site@,
                    info@,
                    !old(self).map.initial_zoom_set,
                    #[trigger] final(self).panes@[i],
                ),
            *final(self) == (Gui {
                panes: final(self).panes,
                radar: RadarState { fetching: false, ..old(self).radar },
                auto_poll: AutoPollState {
                    interval_secs: BASE_INTERVAL_SECS,
                    ..old(self).auto_poll
                },
                map: MapState { initial_zoom_set: true, ..old(self).map },
                ..*old(self)
            }),
    {
        deliver_all(&mut self.panes, site, &info);
        let ghost taken = self.panes@;
        self.radar.fetching = false;
        self.auto_poll.on_success();
        self.claim_initial_zoom();
        proof {
            assert forall|i: int| 0 <= i < old(self).panes@.len() implies delivered(
                old(self).panes@[i],
                site@,
                info@,
                !old(self).map.initial_zoom_set,
                #[trigger] self.panes@[i],
            ) by {
                assert(delivered(old(self).panes@[i], site@, info@, false, taken[i]));
            }
        }
    }

    /// Part of a site's scan is in: every pane on the site adds it to what it
    /// knows. Neither the spinner nor the poll interval is touched: they belong
    /// to a fetch that someone is waiting for.
    pub fn apply_chunk_scan_info(&mut self, site: &str, fresh: ScanInfo)
        ensures
            old(self).chunk_taken(site@, fresh@, *final(self)),
            final(self).panes@.len() == old(self).panes@.len(),
            forall|i: int|
                0 <= i < old(self).panes@.len() ==> chunk_delivered(
                    old(self).panes@[i],
                    site@,
                    fresh@,
                    old(self).ranks,
                    !old(self).map.initial_zoom_set,
                    #[trigger] final(self).panes@[i],
                ),
            *final(self) == (Gui {
                panes: final(self).panes,
                map: MapState { initial_zoom_set: true, ..old(self).map },
                ..*old(self)
            }),
    {
        let mut panes: Vec<PaneState> = Vec::new();
        core::mem::swap(&mut panes, &mut self.panes);
        deliver_chunk_all(&mut panes, site, &fresh, &self.ranks);
        let ghost taken = panes@;
        self.panes = panes;
        self.claim_initial_zoom();
        proof {
            assert forall|i: int| 0 <= i < old(self).panes@.len() implies chunk_delivered(
                old(self).panes@[i],
                site@,
                fresh@,
                old(self).ranks,
                !old(self).map.initial_zoom_set,
                #[trigger] self.panes@[i],
            ) by {
                assert(chunk_delivered(
                    old(self).panes@[i],
                    site@,
                    fresh@,
                    old(self).ranks,
                    false,
                    taken[i],
                ));
            }
        }
    }

    /// A scan is in for one pane.
    pub fn set_scan_info_for_pane(&mut self, pane_idx: usize, info: ScanInfo)
        ensures
            final(self).panes@ == if pane_idx < old(self).panes@.len() {
                old(self).panes@.update(
                    pane_idx as int,
                    PaneState { scan_info: Some(info), ..old(self).panes@[pane_idx as int] },
                )
            } else {
                old(self).panes@
            },
            *final(self) == (Gui { panes: final(self).panes, ..*old(self) }),
    {
        if pane_idx < self.panes.len() {
            self.panes[pane_idx].scan_info = Some(info);
        }
    }
}

/// One more, starting over after the largest.
pub open spec fn bumped(generation: u64) -> u64 {
    if generation == u64::MAX {
        0
    } else {
        (generation + 1) as u64
    }
}

/// A pane once the loading of a site is over.
pub open spec fn loading_cleared(before: PaneState, site: Seq<char>, after: PaneState) -> bool {
    after == if before.site@ == site {
        PaneState {
            loading_site: None,
            radar_sites_render_gen: bumped(before.radar_sites_render_gen),
            ..before
        }
    } else {
        before
    }
}

fn clear_loading(panes: &mut Vec<PaneState>, site: &str)
    ensures
        final(panes)@.len() == old(panes)@.len(),
        forall|i: int|
            0 <= i < old(panes)@.len() ==> loading_cleared(
                old(panes)@[i],
                site@,
                #[trigger] final(panes)@[i],
            ),
{
    let mut i: usize = 0;
    while i < panes.len()
        invariant
            i <= panes@.len(),
            panes@.len() == old(panes)@.len(),
            forall|k: int|
                0 <= k < i ==> loading_cleared(old(panes)@[k], site@, #[trigger] panes@[k]),
            forall|k: int| i <= k < panes@.len() ==> #[trigger] panes@[k] == old(panes)@[k],
        decreases panes@.len() - i,
    {
        if same_text(panes[i].site.as_str(), site) {
            panes[i].loading_site = None;
            panes[i].radar_sites_render_gen = panes[i].radar_sites_render_gen.wrapping_add(1);
        }
        i = i + 1;
    }
}

fn bump_markers(panes: &mut Vec<PaneState>)
    ensures
        final(panes)@.len() == old(panes)@.len(),
        forall|i: int|
            0 <= i < old(panes)@.len() ==> #[trigger] final(panes)@[i] == (PaneState {
                radar_sites_render_gen: bumped(old(panes)@[i].radar_sites_render_gen),
                ..old(panes)@[i]
            }),
{
    let mut i: usize = 0;
    while i < panes.len()
        invariant
            i <= panes@.len(),
            panes@.len() == old(panes)@.len(),
            forall|k: int|
                0 <= k < i ==> #[trigger] panes@[k] == (PaneState {
                    radar_sites_render_gen: bumped(old(panes)@[k].radar_sites_render_gen),
                    ..old(panes)@[k]
                }),
            forall|k: int| i <= k < panes@.len() ==> #[trigger] panes@[k] == old(panes)@[k],
        decreases panes@.len() - i,
    {
        panes[i].radar_sites_render_gen = panes[i].radar_sites_render_gen.wrapping_add(1);
        i = i + 1;
    }
}

fn drop_graphics(panes: &mut Vec<PaneState>)
    ensures
        final(panes)@.len() == old(panes)@.len(),
        forall|i: int|
            0 <= i < old(panes)@.len() ==> old(panes)@[i].without_graphics(
                #[trigger] final(panes)@[i],
            ),
{
    let mut i: usize = 0;
    while i < panes.len()
        invariant
            i <= panes@.len(),
            panes@.len() == old(panes)@.len(),
            forall|k: int|
                0 <= k < i ==> old(panes)@[k].without_graphics(#[trigger] panes@[k]),
            forall|k: int| i <= k < panes@.len() ==> #[trigger] panes@[k] == old(panes)@[k],
        decreases panes@.len() - i,
    {
        panes[i].clear_graphics();
        i = i + 1;
    }
}

fn move_to_site(panes: &mut Vec<PaneState>, site: &str)
    ensures
        final(panes)@.len() == old(panes)@.len(),
        forall|i: int|
            0 <= i < old(panes)@.len() ==> {
                &&& (#[trigger] final(panes)@[i]).site@ == site@
                &&& final(panes)@[i] == (PaneState {
                    site: final(panes)@[i].site,
                    ..old(panes)@[i]
                })
            },
{
    let mut i: usize = 0;
    while i < panes.len()
        invariant
            i <= panes@.len(),
            panes@.len() == old(panes)@.len(),
            forall|k: int|
                0 <= k < i ==> (#[trigger] panes@[k]).site@ == site@ && panes@[k] == (PaneState {
                    site: panes@[k].site,
                    ..old(panes)@[k]
                }),
            forall|k: int| i <= k < panes@.len() ==> #[trigger] panes@[k] == old(panes)@[k],
        decreases panes@.len() - i,
    {
        panes[i].site = String::from_str(site);
        i = i + 1;
    }
}

impl Gui {
    /// The loading of a site is over on every pane that views it.
    pub fn clear_loading_site_for_site(&mut self, site: &str)
        ensures
            final(self).panes@.len() == old(self).panes@.len(),
            forall|i: int|
                0 <= i < old(self).panes@.len() ==> loading_cleared(
                    old(self).panes@[i],
                    site@,
                    #[trigger] final(self).panes@[i],
                ),
            *final(self) == (Gui { panes: final(self).panes, ..*old(self) }),
    {
        clear_loading(&mut self.panes, site);
    }

    /// Have every pane draw its site markers anew.
    pub fn bump_all_radar_sites_gen(&mut self)
        ensures
            final(self).panes@.len() == old(self).panes@.len(),
            forall|i: int|
                0 <= i < old(self).panes@.len() ==> #[trigger] final(self).panes@[i] == (
                PaneState {
                    radar_sites_render_gen: bumped(old(self).panes@[i].radar_sites_render_gen),
                    ..old(self).panes@[i]
                }),
            *final(self) == (Gui { panes: final(self).panes, ..*old(self) }),
    {
        bump_markers(&mut self.panes);
    }

    /// Drop everything that dies with the graphics context, on every pane that
    /// is remembered, shown or not.
    pub fn clear_graphics_state(&mut self)
        ensures
            final(self).panes@.len() == old(self).panes@.len(),
            forall|i: int|
                0 <= i < old(self).panes@.len() ==> old(self).panes@[i].without_graphics(
                    #[trigger] final(self).panes@[i],
                ),
            *final(self) == (Gui { panes: final(self).panes, ..*old(self) }),
    {
        drop_graphics(&mut self.panes);
    }

    /// Point every pane at a site, for a first run.
    pub fn set_initial_site(&mut self, site: &str)
        ensures
            final(self).panes@.len() == old(self).panes@.len(),
            forall|i: int|
                0 <= i < old(self).panes@.len() ==> (#[trigger] final(self).panes@[i]).site@
                    == site@ && final(self).panes@[i] == (PaneState {
                    site: final(self).panes@[i].site,
                    ..old(self).panes@[i]
                }),
            final(self).radar.config.site@ == site@,
            *final(self) == (Gui {
                panes: final(self).panes,
                radar: RadarState {
                    config: RadarConfig {
                        site: final(self).radar.config.site,
                        ..old(self).radar.config
                    },
                    ..old(self).radar
                },
                ..*old(self)
            }),
    {
        move_to_site(&mut self.panes, site);
        self.radar.config.site = String::from_str(site);
    }
}

/// A partial volume never takes a tilt away from a pane on its site.
pub proof fn law_chunk_never_shrinks_picker(
    before: PaneState,
    site: Seq<char>,
    fresh: ScanFacts,
    ranks: ProductRanks,
    first: bool,
    after: PaneState,
    product: crate::kinds::RadarProduct,
    angle: i64,
)
    requires
        chunk_delivered(before, site, fresh, ranks, first, after),
        before.site@ == site,
        before.scan_info matches Some(known) && known@.tilts.contains_key(product)
            && known@.tilts[product].contains(angle),
    ensures
        after.scan_info is Some,
        after.scan_info->0@.tilts.contains_key(product),
        after.scan_info->0@.tilts[product].contains(angle),
{
    before.scan_info->0@.law_merge_keeps_tilts(
        fresh,
        ranks@,
        after.scan_info->0@,
        product,
        angle,
    );
}

/// A pane on another site is not touched by a scan, beyond the zoom of the
/// first one.
pub proof fn law_scan_stays_on_its_site(
    before: PaneState,
    site: Seq<char>,
    info: ScanFacts,
    ranks: ProductRanks,
    after: PaneState,
)
    requires
        before.site@ != site,
        delivered(before, site, info, false, after) || chunk_delivered(
            before,
            site,
            info,
            ranks,
            false,
            after,
        ),
    ensures
        after == before,
{
}

/// A scan reaches every pane on its site, and only those, and replaces what they knew.
/// The first of a session also zooms every pane to where a site is seen, and no later
/// one moves a map. Nothing else of a pane changes.
pub proof fn law_scan_reaches_its_site(
    before: PaneState,
    site: Seq<char>,
    info: ScanFacts,
    first: bool,
    after: PaneState,
)
    requires
        delivered(before, site, info, first, after),
    ensures
        before.site@ == site ==> after.scan_info is Some && after.scan_info->0@ == info,
        before.site@ != site ==> after.scan_info == before.scan_info,
        first ==> after.viewport.level() == 7_000_000 && after.viewport.middle()
            == before.viewport.middle(),
        !first ==> after.viewport == before.viewport,
        after.site == before.site,
        after.selected_product == before.selected_product,
        after.selected_elevation == before.selected_elevation,
        after.loop_state == before.loop_state,
        after.content == before.content,
        after.viewing_live == before.viewing_live,
        after == (PaneState {
            scan_info: after.scan_info,
            viewport: after.viewport,
            ..before
        }),
{
}

/// Part of a scan is the whole of what a pane on its site knows where it knew nothing,
/// and otherwise brings its own moment and adds its products to those that were listed.
pub proof fn law_part_of_a_scan_adds_to_what_is_known(
    before: PaneState,
    site: Seq<char>,
    fresh: ScanFacts,
    ranks: ProductRanks,
    first: bool,
    after: PaneState,
    product: crate::kinds::RadarProduct,
)
    requires
        chunk_delivered(before, site, fresh, ranks, first, after),
    ensures
        before.site@ != site ==> after.scan_info == before.scan_info,
        before.site@ == site ==> after.scan_info is Some,
        before.site@ == site && before.scan_info is None ==> after.scan_info->0@ == fresh,
        before.site@ == site ==> after.scan_info->0@.timestamp == fresh.timestamp
            && after.scan_info->0@.status == fresh.status,
        before.site@ == site && before.scan_info is Some ==> (
        after.scan_info->0@.products.contains(product) <==> (
        before.scan_info->0@.products.contains(product) || fresh.products.contains(product))),
        first ==> after.viewport.level() == 7_000_000 && after.viewport.middle()
            == before.viewport.middle(),
        !first ==> after.viewport == before.viewport,
        after.site == before.site,
        after.selected_product == before.selected_product,
        after.loop_state == before.loop_state,
        after.content == before.content,
{
    if before.site@ == site && before.scan_info is Some {
        before.scan_info->0@.law_merge_keeps_products(
            fresh,
            ranks@,
            after.scan_info->0@,
            product,
        );
    }
}

/// Two scans in a row leave what the second says.
pub proof fn law_later_scan_stands(
    before: PaneState,
    site: Seq<char>,
    earlier: ScanFacts,
    later: ScanFacts,
    first: bool,
    mid: PaneState,
    after: PaneState,
)
    requires
        delivered(before, site, earlier, first, mid),
        delivered(mid, site, later, false, after),
        before.site@ == site,
    ensures
        after.scan_info is Some,
        after.scan_info->0@ == later,
        after.viewport == mid.viewport,
{
}

/// The loading of a site is over on the panes that view it, whose markers are drawn
/// anew, and on no other.
pub proof fn law_loading_is_over_for_its_site(
    before: PaneState,
    site: Seq<char>,
    after: PaneState,
)
    requires
        loading_cleared(before, site, after),
    ensures
        before.site@ == site ==> after.loading_site is None && after.radar_sites_render_gen
            != before.radar_sites_render_gen,
        before.site@ != site ==> after == before,
        after.site == before.site,
        after.scan_info == before.scan_info,
        after.loop_state == before.loop_state,
{
}

/// A number that is bumped is another one, and two that differ still do.
pub proof fn law_bumping_never_repeats(generation: u64, other: u64)
    ensures
        bumped(generation) != generation,
        generation != other ==> bumped(generation) != bumped(other),
        generation < u64::MAX ==> bumped(generation) == generation + 1,
{
}

/// A whole scan ends the fetch and brings the polls back to every minute, and reaches
/// every pane on its site, on screen or not. Only the first of a session moves a map.
pub proof fn law_whole_scan_ends_the_fetch(
    before: Gui,
    site: Seq<char>,
    info: ScanFacts,
    after: Gui,
    i: int,
)
    requires
        before.scan_taken(site, info, after),
        0 <= i < before.panes@.len(),
    ensures
        !after.radar.fetching,
        after.auto_poll.interval_secs == 60,
        after.auto_poll.enabled == before.auto_poll.enabled,
        after.radar.config == before.radar.config,
        after.map.initial_zoom_set,
        before.panes@[i].site@ == site ==> after.panes@[i].scan_info is Some
            && after.panes@[i].scan_info->0@ == info,
        before.panes@[i].site@ != site ==> after.panes@[i].scan_info
            == before.panes@[i].scan_info,
        before.map.initial_zoom_set ==> after.panes@[i].viewport == before.panes@[i].viewport,
        !before.map.initial_zoom_set ==> after.panes@[i].viewport.level() == 7_000_000,
        after.active_pane == before.active_pane,
        after.settings == before.settings,
{
    assert(delivered(
        before.panes@[i],
        site,
        info,
        !before.map.initial_zoom_set,
        after.panes@[i],
    ));
}

/// Part of a scan is no answer to a fetch: neither the spinner nor the timers are touched.
/// It reaches every pane on its site.
pub proof fn law_part_of_a_scan_ends_no_fetch(
    before: Gui,
    site: Seq<char>,
    fresh: ScanFacts,
    after: Gui,
    i: int,
)
    requires
        before.chunk_taken(site, fresh, after),
        0 <= i < before.panes@.len(),
    ensures
        after.radar == before.radar,
        after.auto_poll == before.auto_poll,
        after.map.initial_zoom_set,
        before.panes@[i].site@ == site ==> after.panes@[i].scan_info is Some
            && after.panes@[i].scan_info->0@.timestamp == fresh.timestamp,
        before.panes@[i].site@ != site ==> after.panes@[i].scan_info
            == before.panes@[i].scan_info,
        before.map.initial_zoom_set ==> after.panes@[i].viewport == before.panes@[i].viewport,
        !before.map.initial_zoom_set ==> after.panes@[i].viewport.level() == 7_000_000,
{
    assert(chunk_delivered(
        before.panes@[i],
        site,
        fresh,
        before.ranks,
        !before.map.initial_zoom_set,
        after.panes@[i],
    ));
}

} // verus!
