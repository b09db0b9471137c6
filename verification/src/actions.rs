//! What the interface asks the application to do.

use vstd::prelude::*;
use crate::overlays::OverlayKind;
use crate::stamp::Stamp;

verus! {

/// Which scan of which site.
pub struct RadarConfig {
    pub site: String,
    pub timestamp: Stamp,
}

impl Clone for RadarConfig {
    fn clone(&self) -> (r: Self)
        ensures
            r == *self,
    {
        RadarConfig { site: self.site.clone(), timestamp: self.timestamp }
    }
}

/// Something for the application to do after the frame.
pub enum GuiAction {
    /// Download a scan.
    FetchRadarScan(RadarConfig),
    /// Look for newer scans without downloading.
    CheckForNewScans(RadarConfig),
    /// Refresh a layer's data, on behalf of a pane.
    FetchOverlay { kind: OverlayKind, pane_idx: usize },
    /// Drop the voxel grid a pane no longer shows.
    ReleaseVolume { pane_idx: usize },
}

/// What an action asks for.
pub enum Request {
    Scan { site: Seq<char>, at: Stamp },
    NewScans { site: Seq<char>, at: Stamp },
    Overlay { kind: OverlayKind, pane_idx: usize },
    Release { pane_idx: usize },
}

impl View for GuiAction {
    type V = Request;

    open spec fn view(&self) -> Request {
        match *self {
            GuiAction::FetchRadarScan(config) => Request::Scan {
                site: config.site@,
                at: config.timestamp,
            },
            GuiAction::CheckForNewScans(config) => Request::NewScans {
                site: config.site@,
                at: config.timestamp,
            },
            GuiAction::FetchOverlay { kind, pane_idx } => Request::Overlay { kind, pane_idx },
            GuiAction::ReleaseVolume { pane_idx } => Request::Release { pane_idx },
        }
    }
}

/// What a list of actions asks for, in order.
pub open spec fn requests(actions: Seq<GuiAction>) -> Seq<Request> {
    actions.map_values(|a: GuiAction| a@)
}

/// One more action asks for one more thing.
pub proof fn lemma_requests_push(actions: Seq<GuiAction>, action: GuiAction)
    ensures
        requests(actions.push(action)) == requests(actions).push(action@),
{
    assert(requests(actions.push(action)) =~= requests(actions).push(action@));
}

/// Whether a fetch of this layer is already asked for.
pub open spec fn asks_for_overlay(asked: Seq<Request>, kind: OverlayKind) -> bool {
    exists|i: int|
        0 <= i < asked.len() && (#[trigger] asked[i] matches Request::Overlay { kind: k, .. } && k
            == kind)
}

/// Whether a fetch of this layer is already queued.
pub fn fetch_queued(actions: &Vec<GuiAction>, kind: OverlayKind) -> (r: bool)
    ensures
        r == asks_for_overlay(requests(actions@), kind),
{
    let ghost asked = requests(actions@);
    let mut i: usize = 0;
    while i < actions.len()
        invariant
            i <= actions@.len(),
            asked == requests(actions@),
            forall|k: int|
                0 <= k < i ==> !(#[trigger] asked[k] matches Request::Overlay { kind: q, .. } && q
                    == kind),
        decreases actions@.len() - i,
    {
        assert(asked[i as int] == actions@[i as int]@);
        if let GuiAction::FetchOverlay { kind: queued, .. } = &actions[i] {
            if *queued == kind {
                return true;
            }
        }
        i = i + 1;
    }
    false
}

/// What is asked for once a layer's fetch is queued: nothing more where it
/// already was.
pub open spec fn queued(asked: Seq<Request>, kind: OverlayKind, pane_idx: usize) -> Seq<Request> {
    if asks_for_overlay(asked, kind) {
        asked
    } else {
        asked.push(Request::Overlay { kind, pane_idx })
    }
}

/// Queue a fetch of a layer, unless one is queued already: the handlers are
/// shared, so one fetch serves every pane.
pub fn push_overlay_fetch_once(
    actions: &mut Vec<GuiAction>,
    kind: OverlayKind,
    pane_idx: usize,
)
    ensures
        requests(final(actions)@) == queued(requests(old(actions)@), kind, pane_idx),
        old(actions)@.is_prefix_of(final(actions)@),
{
    if !fetch_queued(actions, kind) {
        proof {
            lemma_requests_push(actions@, GuiAction::FetchOverlay { kind, pane_idx });
        }
        actions.push(GuiAction::FetchOverlay { kind, pane_idx });
    }
}

/// However often and for whichever panes a layer's fetch is queued, it is asked
/// for once: asking again adds nothing.
pub proof fn law_fetch_is_queued_once(
    asked: Seq<Request>,
    kind: OverlayKind,
    pane_idx: usize,
    other_pane: usize,
)
    ensures
        asks_for_overlay(queued(asked, kind, pane_idx), kind),
        queued(queued(asked, kind, pane_idx), kind, other_pane) == queued(asked, kind, pane_idx),
{
    if !asks_for_overlay(asked, kind) {
        let once = asked.push(Request::Overlay { kind, pane_idx });
        assert(once[asked.len() as int] == Request::Overlay { kind, pane_idx });
    }
}

/// Queueing a layer's fetch keeps what was asked for before, and adds that fetch,
/// for that pane, only where the layer was not asked for yet.
pub proof fn law_queueing_adds_at_most_that_fetch(
    asked: Seq<Request>,
    kind: OverlayKind,
    pane_idx: usize,
)
    ensures
        asked.is_prefix_of(queued(asked, kind, pane_idx)),
        (exists|i: int|
            0 <= i < asked.len() && (#[trigger] asked[i]) is Overlay && asked[i]->Overlay_kind
                == kind) ==> queued(asked, kind, pane_idx) == asked,
        (forall|i: int|
            0 <= i < asked.len() && (#[trigger] asked[i]) is Overlay ==> asked[i]->Overlay_kind
                != kind) ==> queued(asked, kind, pane_idx) == asked.push(
            Request::Overlay { kind, pane_idx },
        ),
{
    if exists|i: int|
        0 <= i < asked.len() && (#[trigger] asked[i]) is Overlay && asked[i]->Overlay_kind == kind {
        let i = choose|i: int|
            0 <= i < asked.len() && (#[trigger] asked[i]) is Overlay && asked[i]->Overlay_kind
                == kind;
        assert(asked[i] matches Request::Overlay { kind: k, .. } && k == kind);
    }
}

} // verus!
