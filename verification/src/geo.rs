//! Places on the ground, and the lines and boxes drawn over them.

use vstd::prelude::*;
use crate::measure::{clamp_micro, clamped, Exact, Measure};

verus! {

/// The place of 90 among the floating-point numbers: the greatest latitude.
pub const MAX_LAT: i64 = 0x4056_8000_0000_0000;

/// The place of 180 among the floating-point numbers: the greatest longitude.
pub const MAX_LON: i64 = 0x4066_8000_0000_0000;

/// A point on the ground, in degrees.
#[derive(Clone, Copy, Debug, PartialEq, Eq, Structural)]
pub struct GeoPoint {
    pub lat: Exact,
    pub lon: Exact,
}

impl GeoPoint {
    /// Latitude in `[-90, 90]` and longitude in `[-180, 180]`, both finite.
    pub open spec fn on_earth(self) -> bool {
        &&& self.lat matches Exact::At(lat) && -MAX_LAT <= lat <= MAX_LAT
        &&& self.lon matches Exact::At(lon) && -MAX_LON <= lon <= MAX_LON
    }

    /// Whether this names a point that exists. The range rules out a coordinate
    /// that is no number as well as one that is finite and nonsense.
    pub fn is_on_earth(self) -> (r: bool)
        ensures
            r == self.on_earth(),
    {
        match (self.lat, self.lon) {
            (Exact::At(lat), Exact::At(lon)) => {
                -MAX_LAT <= lat && lat <= MAX_LAT && -MAX_LON <= lon && lon <= MAX_LON
            },
            _ => false,
        }
    }
}

/// The line a cross-section is cut along, stored geographically so that it
/// means the same ground after any pan, zoom or resize.
#[derive(Clone, Copy, Debug, PartialEq, Eq, Structural)]
pub struct SectionLine {
    a: GeoPoint,
    b: GeoPoint,
}

impl SectionLine {
    #[verifier::type_invariant]
    spec fn inv(self) -> bool {
        Self::cuttable(self.a, self.b)
    }

    /// Whether a section can be cut from `a` to `b`: both ends exist, and they
    /// are two different points.
    pub open spec fn cuttable(a: GeoPoint, b: GeoPoint) -> bool {
        a.on_earth() && b.on_earth() && a != b
    }

    /// The end the raster starts at.
    pub closed spec fn from(self) -> GeoPoint {
        self.a
    }

    /// The end the raster finishes at.
    pub closed spec fn to(self) -> GeoPoint {
        self.b
    }

    /// A section line from `a` to `b`, or `None` for a line that cannot be cut.
    pub fn new(a: GeoPoint, b: GeoPoint) -> (r: Option<Self>)
        ensures
            r is Some <==> Self::cuttable(a, b),
            r matches Some(line) ==> line.from() == a && line.to() == b,
    {
        if !a.is_on_earth() || !b.is_on_earth() {
            return None;
        }
        if a == b {
            return None;
        }
        Some(SectionLine { a, b })
    }

    /// The end the section's raster starts at (its left-hand column).
    pub fn a(self) -> (r: GeoPoint)
        ensures
            r == self.from(),
            Self::cuttable(self.from(), self.to()),
    {
        proof {
            use_type_invariant(&self);
        }
        self.a
    }

    /// The end the section's raster finishes at (its right-hand column).
    pub fn b(self) -> (r: GeoPoint)
        ensures
            r == self.to(),
            Self::cuttable(self.from(), self.to()),
    {
        proof {
            use_type_invariant(&self);
        }
        self.b
    }

    /// Two lines with the same ends are the same line.
    pub proof fn law_ends_determine_line(l: SectionLine, m: SectionLine)
        requires
            l.from() == m.from(),
            l.to() == m.to(),
        ensures
            l == m,
    {
    }
}

/// The narrowest half-width that is resampled, in millionths of a kilometre.
pub const MIN_HALF_WIDTH_KM: i64 = 10_000_000;

/// The widest half-width that is resampled, in millionths of a kilometre: the
/// full surveillance range.
pub const MAX_HALF_WIDTH_KM: i64 = 230_000_000;

/// The half-width a pane starts with, in millionths of a kilometre.
pub const DEFAULT_HALF_WIDTH_KM: i64 = 230_000_000;

/// The height of the resampled box, in millionths of a kilometre.
pub const BOX_HEIGHT_KM: i64 = 18_000_000;

/// How far a cell of a grid reaches: so many millionths of a kilometre, and
/// `rest` in `cells` of one more.
#[derive(Clone, Copy, Debug, PartialEq, Eq, Structural)]
pub struct CellSize {
    pub micro: u64,
    pub rest: u64,
    pub cells: usize,
}

/// The square patch of ground a 3D pane resamples.
#[derive(Clone, Copy, Debug, PartialEq, Eq, Structural)]
pub struct VolumeRegion {
    centre: GeoPoint,
    half_width_km: i64,
}

impl VolumeRegion {
    #[verifier::type_invariant]
    spec fn inv(self) -> bool {
        &&& self.centre.on_earth()
        &&& MIN_HALF_WIDTH_KM <= self.half_width_km <= MAX_HALF_WIDTH_KM
    }

    /// Where the box is centred.
    pub closed spec fn middle(self) -> GeoPoint {
        self.centre
    }

    /// Half the box's extent, in millionths of a kilometre.
    pub closed spec fn half_width(self) -> int {
        self.half_width_km as int
    }

    /// A region about `centre`, or `None` if the centre is not a point on Earth
    /// or the half-width is no number. A finite half-width is held to the range
    /// the resampler honours; a control wound past its stop should stop.
    pub fn new(centre: GeoPoint, half_width_km: Measure) -> (r: Option<Self>)
        ensures
            r is Some <==> centre.on_earth() && half_width_km.finite(),
            r matches Some(region) ==> {
                &&& region.middle() == centre
                &&& region.half_width() == clamped(
                    half_width_km.micro(),
                    MIN_HALF_WIDTH_KM as int,
                    MAX_HALF_WIDTH_KM as int,
                )
            },
    {
        if !centre.is_on_earth() {
            return None;
        }
        match half_width_km {
            Measure::Micro(wanted) => {
                let half_width_km: i64 = clamp_micro(wanted, MIN_HALF_WIDTH_KM, MAX_HALF_WIDTH_KM);
                Some(VolumeRegion { centre, half_width_km })
            },
            Measure::NotFinite => None,
        }
    }

    /// The region a pane falls back to: [`DEFAULT_HALF_WIDTH_KM`] about a site.
    pub fn centred_on(centre: GeoPoint) -> (r: Option<Self>)
        ensures
            r is Some <==> centre.on_earth(),
            r matches Some(region) ==> region.middle() == centre && region.half_width()
                == DEFAULT_HALF_WIDTH_KM,
    {
        Self::new(centre, Measure::Micro(DEFAULT_HALF_WIDTH_KM))
    }

    /// Where the box is centred.
    pub fn centre(self) -> (r: GeoPoint)
        ensures
            r == self.middle(),
            r.on_earth(),
    {
        proof {
            use_type_invariant(&self);
        }
        self.centre
    }

    /// Half the box's east-west and north-south extent, in millionths of a
    /// kilometre.
    pub fn half_width_km(self) -> (r: i64)
        ensures
            r == self.half_width(),
            MIN_HALF_WIDTH_KM <= r <= MAX_HALF_WIDTH_KM,
    {
        proof {
            use_type_invariant(&self);
        }
        self.half_width_km
    }

    /// How far a cell reaches along a horizontal axis, for `cells` cells across;
    /// `None` for no cells at all.
    pub fn resolution_km(self, cells: usize) -> (r: Option<CellSize>)
        ensures
            r is Some <==> cells > 0,
            r matches Some(size) ==> {
                &&& size.cells == cells
                &&& size.micro * cells + size.rest == 2 * self.half_width()
                &&& 0 <= size.rest < cells
            },
    {
        proof {
            use_type_invariant(&self);
        }
        if cells == 0 {
            return None;
        }
        let across: u64 = (2 * self.half_width_km) as u64;
        let micro: u64 = across / (cells as u64);
        let rest: u64 = across % (cells as u64);
        proof {
            vstd::arithmetic::div_mod::lemma_fundamental_div_mod(across as int, cells as int);
            vstd::arithmetic::div_mod::lemma_div_is_ordered_by_denominator(
                across as int,
                1,
                cells as int,
            );
            vstd::arithmetic::mul::lemma_mul_is_commutative(micro as int, cells as int);
        }
        Some(CellSize { micro, rest, cells })
    }

    /// Two regions with the same centre and half-width are the same region.
    pub proof fn law_extent_determines_region(p: VolumeRegion, q: VolumeRegion)
        requires
            p.middle() == q.middle(),
            p.half_width() == q.half_width(),
        ensures
            p == q,
    {
    }
}

/// A point is on Earth or not together with its mirror images across the equator
/// and the prime meridian, and a coordinate that is no number is nowhere.
pub proof fn law_earth_is_symmetric(lat: i64, lon: i64)
    requires
        lat > i64::MIN,
        lon > i64::MIN,
    ensures
        ({
            let here = GeoPoint { lat: Exact::At(lat), lon: Exact::At(lon) };
            let south = GeoPoint { lat: Exact::At((-lat) as i64), lon: Exact::At(lon) };
            let west = GeoPoint { lat: Exact::At(lat), lon: Exact::At((-lon) as i64) };
            &&& here.on_earth() == south.on_earth()
            &&& here.on_earth() == west.on_earth()
        }),
        !(GeoPoint { lat: Exact::NotFinite, lon: Exact::At(lon) }).on_earth(),
        !(GeoPoint { lat: Exact::At(lat), lon: Exact::NotFinite }).on_earth(),
{
}

/// The Earth ends at the poles and at the date line: a point is on it exactly where
/// neither coordinate lies past them.
pub proof fn law_earth_ends_at_the_poles(lat: i64, lon: i64)
    ensures
        (GeoPoint { lat: Exact::At(lat), lon: Exact::At(lon) }).on_earth() <==> {
            &&& -0x4056_8000_0000_0000 <= lat <= 0x4056_8000_0000_0000
            &&& -0x4066_8000_0000_0000 <= lon <= 0x4066_8000_0000_0000
        },
{
}

/// A line can be cut one way exactly where it can be cut the other, and never from
/// a point to itself or to a place that does not exist.
pub proof fn law_cuts_go_both_ways(a: GeoPoint, b: GeoPoint)
    ensures
        SectionLine::cuttable(a, b) == SectionLine::cuttable(b, a),
        !SectionLine::cuttable(a, a),
        a.on_earth() && b.on_earth() && (a.lat != b.lat || a.lon != b.lon)
            ==> SectionLine::cuttable(a, b),
        !a.on_earth() ==> !SectionLine::cuttable(a, b),
{
}

} // verus!
