//! Where a map pane is looking.

use vstd::prelude::*;
use crate::measure::{distance, within, Measure};

verus! {

/// The deepest zoom, in millionths of a level.
pub const MAX_ZOOM: i64 = 26_000_000;

/// The zoom of a viewport nothing has set, in millionths of a level.
pub const UNSET_ZOOM: i64 = 16_000_000;

/// How far a zoom moves before it counts, in millionths of a level.
pub const ZOOM_MOVED: i64 = 100;

/// How far a centre moves before it counts, in millionths of a degree.
pub const CENTRE_MOVED: i64 = 10;

/// A place a map can be centred on, in millionths of a degree.
#[derive(Clone, Copy, Debug, PartialEq, Eq, Structural)]
pub struct MapPoint {
    pub lat: i64,
    pub lon: i64,
}

/// A zoom level outside the range a map can show.
#[derive(Clone, Copy, Debug, PartialEq, Eq, Structural)]
pub struct InvalidZoom;

/// A map's zoom and centre. A map that follows the user's own position has no
/// centre.
#[derive(Clone, Copy, Debug, PartialEq, Eq, Structural)]
pub struct Viewport {
    zoom: i64,
    centre: Option<MapPoint>,
}

/// Whether a map can show this zoom.
pub open spec fn zoom_in_range(zoom: Measure) -> bool {
    zoom.finite() && 0 <= zoom.micro() <= MAX_ZOOM
}

/// Whether a centre moved far enough to count.
pub open spec fn centre_moved(before: Option<MapPoint>, after: Option<MapPoint>) -> bool {
    match (before, after) {
        (Some(p), Some(q)) => distance(p.lat as int, q.lat as int) > CENTRE_MOVED || distance(
            p.lon as int,
            q.lon as int,
        ) > CENTRE_MOVED,
        (None, None) => false,
        _ => true,
    }
}

impl Default for Viewport {
    fn default() -> (r: Self)
        ensures
            r.level() == UNSET_ZOOM,
            r.middle() is None,
    {
        Viewport { zoom: UNSET_ZOOM, centre: None }
    }
}

impl Viewport {
    #[verifier::type_invariant]
    spec fn inv(self) -> bool {
        0 <= self.zoom <= MAX_ZOOM
    }

    /// The zoom, in millionths of a level.
    pub closed spec fn level(self) -> int {
        self.zoom as int
    }

    /// The centre, unless the map follows the user's own position.
    pub closed spec fn middle(self) -> Option<MapPoint> {
        self.centre
    }

    /// Whether this viewport moved away from an earlier zoom and centre.
    pub open spec fn moved_from(self, zoom: int, centre: Option<MapPoint>) -> bool {
        distance(self.level(), zoom) > ZOOM_MOVED || centre_moved(centre, self.middle())
    }

    /// The zoom, in millionths of a level.
    pub fn zoom(&self) -> (r: i64)
        ensures
            r == self.level(),
            0 <= r <= MAX_ZOOM,
    {
        proof {
            use_type_invariant(&*self);
        }
        self.zoom
    }

    /// Set the zoom, or refuse one that no map can show and change nothing.
    pub fn set_zoom(&mut self, zoom: Measure) -> (r: Result<(), InvalidZoom>)
        ensures
            r is Ok <==> zoom_in_range(zoom),
            r is Ok ==> final(self).level() == zoom.micro(),
            r is Err ==> final(self).level() == old(self).level(),
            final(self).middle() == old(self).middle(),
    {
        match zoom {
            Measure::Micro(level) => {
                if 0 <= level && level <= MAX_ZOOM {
                    self.zoom = level;
                    Ok(())
                } else {
                    Err(InvalidZoom)
                }
            },
            Measure::NotFinite => Err(InvalidZoom),
        }
    }

    /// The centre, or `None` if the map follows the user's own position.
    pub fn detached(&self) -> (r: Option<MapPoint>)
        ensures
            r == self.middle(),
    {
        self.centre
    }

    /// Centre the map on a point.
    pub fn center_at(&mut self, point: MapPoint)
        ensures
            final(self).middle() == Some(point),
            final(self).level() == old(self).level(),
    {
        proof {
            use_type_invariant(&*self);
        }
        self.centre = Some(point);
    }

    /// This viewport led by `source`: its zoom, and its centre where it has one.
    pub open spec fn led_by(self, source: Viewport, after: Viewport) -> bool {
        &&& after.level() == source.level()
        &&& after.middle() == if source.middle() is Some {
            source.middle()
        } else {
            self.middle()
        }
    }

    /// Take over the zoom of `source`, and its centre where it has one.
    pub fn follow(&mut self, source: Viewport)
        ensures
            old(self).led_by(source, *final(self)),
    {
        proof {
            use_type_invariant(&*self);
            use_type_invariant(&source);
        }
        self.zoom = source.zoom;
        if source.centre.is_some() {
            self.centre = source.centre;
        }
    }

    /// Whether this viewport moved away from an earlier zoom and centre.
    pub fn has_moved(&self, zoom: i64, centre: Option<MapPoint>) -> (r: bool)
        ensures
            r == self.moved_from(zoom as int, centre),
    {
        if !within(self.zoom, zoom, ZOOM_MOVED) {
            return true;
        }
        match (centre, self.centre) {
            (Some(p), Some(q)) => !within(p.lat, q.lat, CENTRE_MOVED) || !within(
                p.lon,
                q.lon,
                CENTRE_MOVED,
            ),
            (None, None) => false,
            _ => true,
        }
    }
}

/// A map has moved once its zoom differs by more than a ten-thousandth of a level,
/// its centre by more than a hundred-thousandth of a degree either way, or it has
/// gained or lost its centre; a smaller drift is no movement.
pub proof fn law_movement_is_what_exceeds_the_drift(
    viewport: Viewport,
    zoom: int,
    centre: Option<MapPoint>,
)
    ensures
        viewport.level() - zoom > 100 ==> viewport.moved_from(zoom, centre),
        zoom - viewport.level() > 100 ==> viewport.moved_from(zoom, centre),
        centre is Some != viewport.middle() is Some ==> viewport.moved_from(zoom, centre),
        centre matches Some(p) && viewport.middle() matches Some(q) && (p.lat - q.lat > 10 || q.lat
            - p.lat > 10 || p.lon - q.lon > 10 || q.lon - p.lon > 10) ==> viewport.moved_from(
            zoom,
            centre,
        ),
        viewport.moved_from(zoom, centre) ==> {
            ||| viewport.level() - zoom > 100
            ||| zoom - viewport.level() > 100
            ||| centre is Some != viewport.middle() is Some
            ||| centre matches Some(p) && viewport.middle() matches Some(q) && (p.lat - q.lat > 10
                || q.lat - p.lat > 10 || p.lon - q.lon > 10 || q.lon - p.lon > 10)
        },
{
}

/// A viewport that follows another looks where the other looks, at its zoom. Where
/// the other has no place of its own to look at, the follower keeps its place.
pub proof fn law_follower_looks_where_the_other_does(
    before: Viewport,
    source: Viewport,
    after: Viewport,
)
    requires
        before.led_by(source, after),
    ensures
        after.level() == source.level(),
        source.middle() matches Some(place) ==> after.middle() == Some(place),
        source.middle() is None ==> after.middle() == before.middle(),
{
}

/// Two viewports that follow one with a centre are alike, wherever they were.
pub proof fn law_followers_are_alike(
    one: Viewport,
    other: Viewport,
    source: Viewport,
    one_after: Viewport,
    other_after: Viewport,
)
    requires
        one.led_by(source, one_after),
        other.led_by(source, other_after),
        source.middle() is Some,
    ensures
        one_after.level() == other_after.level(),
        one_after.middle() == other_after.middle(),
        one_after.middle() is Some,
{
}

/// A map can show every zoom from the whole world to the twenty-sixth level, and no
/// other.
pub proof fn law_zoom_has_its_range(zoom: Measure)
    ensures
        zoom_in_range(zoom) <==> (zoom matches Measure::Micro(level) && 0 <= level <= 26_000_000),
{
}

} // verus!
