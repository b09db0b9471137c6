//! The orbit camera of a 3D pane.

use vstd::prelude::*;
use crate::measure::{clamp_micro, clamped, shift_clamped, shift_wrapped, Measure, MICRO};

verus! {

/// One full turn, in millionths of a degree.
pub const FULL_TURN: i64 = 360_000_000;

/// How far from the horizontal the eye may look, in millionths of a degree. At
/// the vertical itself the camera has no up.
pub const MAX_PITCH: i64 = 89_000_000;

/// The nearest eye, in millionths of the box's half-diagonal.
pub const MIN_EYE_DISTANCE: i64 = 50_000;

/// The farthest eye, in millionths of the box's half-diagonal.
pub const MAX_EYE_DISTANCE: i64 = 8_000_000;

/// How far the pivot may be pushed along each axis, in millionths of the box's
/// half-extent. At one whole the pivot is on the box's own surface, so the
/// point the camera looks at is always a point of the box.
pub const MAX_PIVOT: i64 = 1_000_000;

/// The vertical stretch a 3D pane starts at.
pub const DEFAULT_VERTICAL_EXAGGERATION: i64 = 3_000_000;

/// True proportions.
pub const MIN_VERTICAL_EXAGGERATION: i64 = 1_000_000;

/// The greatest vertical stretch.
pub const MAX_VERTICAL_EXAGGERATION: i64 = 12_000_000;

/// A point of the box, in millionths of its half-extent along each axis.
#[derive(Clone, Copy, Debug, PartialEq, Eq, Structural)]
pub struct Pivot {
    pub x: i64,
    pub y: i64,
    pub z: i64,
}

impl Pivot {
    /// Whether this is a point of the box.
    pub open spec fn in_box(self) -> bool {
        &&& -MAX_PIVOT <= self.x <= MAX_PIVOT
        &&& -MAX_PIVOT <= self.y <= MAX_PIVOT
        &&& -MAX_PIVOT <= self.z <= MAX_PIVOT
    }
}

/// Three numbers from outside, one for each axis of the box.
#[derive(Clone, Copy, Debug, PartialEq, Eq, Structural)]
pub struct Offsets {
    pub x: Measure,
    pub y: Measure,
    pub z: Measure,
}

impl Offsets {
    /// Whether all three are numbers.
    pub open spec fn finite(self) -> bool {
        self.x.finite() && self.y.finite() && self.z.finite()
    }

    /// The pivot `from` moved by these three, each axis held inside the box.
    pub open spec fn moving(self, from: Pivot) -> Pivot {
        let hold = |v: int| clamped(v, -MAX_PIVOT as int, MAX_PIVOT as int) as i64;
        Pivot {
            x: hold(from.x + self.x.micro()),
            y: hold(from.y + self.y.micro()),
            z: hold(from.z + self.z.micro()),
        }
    }
}

/// A movement of the orbit camera.
#[derive(Clone, Copy, Debug, PartialEq, Eq, Structural)]
pub struct OrbitDelta {
    /// Rotation about the vertical axis. Positive is counter-clockwise from
    /// above.
    pub yaw_deg: Measure,
    /// Change in elevation above the horizontal. Positive raises the eye.
    pub pitch_deg: Measure,
    /// Multiplicative zoom: above one brings the eye in. A positive factor below
    /// one millionth is handed over as one millionth: each of them takes the eye
    /// as far out as it goes.
    pub zoom_factor: Measure,
    /// Where to move the pivot, in fractions of the box's half-extent.
    pub pan: Offsets,
}

impl Default for OrbitDelta {
    /// The camera did not move. The zoom multiplies, so its neutral value is
    /// one.
    fn default() -> (r: Self)
        ensures
            r.yaw_deg == Measure::Micro(0),
            r.pitch_deg == Measure::Micro(0),
            r.zoom_factor == Measure::Micro(MICRO),
            r.pan == (Offsets {
                x: Measure::Micro(0),
                y: Measure::Micro(0),
                z: Measure::Micro(0),
            }),
    {
        OrbitDelta {
            yaw_deg: Measure::Micro(0),
            pitch_deg: Measure::Micro(0),
            zoom_factor: Measure::Micro(MICRO),
            pan: Offsets { x: Measure::Micro(0), y: Measure::Micro(0), z: Measure::Micro(0) },
        }
    }
}

impl OrbitDelta {
    /// Whether every part of the movement can be applied.
    pub open spec fn usable(self) -> bool {
        &&& self.yaw_deg.finite()
        &&& self.pitch_deg.finite()
        &&& self.zoom_factor.finite()
        &&& self.zoom_factor.micro() > 0
        &&& self.pan.finite()
    }
}

/// What a camera is aimed with, all in millionths.
pub struct Pose {
    pub yaw: int,
    pub pitch: int,
    pub eye_distance: int,
    pub pivot: Pivot,
    pub exaggeration: int,
}

impl Pose {
    /// Whether this is a pose a camera can take.
    pub open spec fn legal(self) -> bool {
        &&& 0 <= self.yaw < FULL_TURN
        &&& -MAX_PITCH <= self.pitch <= MAX_PITCH
        &&& MIN_EYE_DISTANCE <= self.eye_distance <= MAX_EYE_DISTANCE
        &&& self.pivot.in_box()
        &&& MIN_VERTICAL_EXAGGERATION <= self.exaggeration <= MAX_VERTICAL_EXAGGERATION
    }

    /// The pose after `delta`: all of it, or none of it where any part is
    /// unusable.
    pub open spec fn nudged(self, delta: OrbitDelta) -> Pose {
        if !delta.usable() {
            self
        } else {
            Pose {
                yaw: (self.yaw + delta.yaw_deg.micro()) % (FULL_TURN as int),
                pitch: clamped(
                    self.pitch + delta.pitch_deg.micro(),
                    -MAX_PITCH as int,
                    MAX_PITCH as int,
                ),
                eye_distance: clamped(
                    (self.eye_distance * MICRO) / delta.zoom_factor.micro(),
                    MIN_EYE_DISTANCE as int,
                    MAX_EYE_DISTANCE as int,
                ),
                pivot: delta.pan.moving(self.pivot),
                exaggeration: self.exaggeration,
            }
        }
    }
}

impl Pose {
    /// The pose with the vertical stretched by `exaggeration`, held to its
    /// travel, or as it is where that is no number.
    pub open spec fn stretched(self, exaggeration: Measure) -> Pose {
        Pose {
            exaggeration: if exaggeration.finite() {
                clamped(
                    exaggeration.micro(),
                    MIN_VERTICAL_EXAGGERATION as int,
                    MAX_VERTICAL_EXAGGERATION as int,
                )
            } else {
                self.exaggeration
            },
            ..self
        }
    }

    /// The legal pose nearest to five saved numbers: the yaw wrapped into one
    /// turn and the others held to their ranges.
    pub open spec fn restored(
        yaw: int,
        pitch: int,
        eye_distance: int,
        pivot: Offsets,
        exaggeration: int,
    ) -> Pose {
        Pose {
            yaw: yaw % (FULL_TURN as int),
            pitch: clamped(pitch, -MAX_PITCH as int, MAX_PITCH as int),
            eye_distance: clamped(
                eye_distance,
                MIN_EYE_DISTANCE as int,
                MAX_EYE_DISTANCE as int,
            ),
            pivot: pivot.moving(Pivot { x: 0, y: 0, z: 0 }),
            exaggeration: clamped(
                exaggeration,
                MIN_VERTICAL_EXAGGERATION as int,
                MAX_VERTICAL_EXAGGERATION as int,
            ),
        }
    }

    /// No movement, usable or not, takes a legal camera out of its limits.
    pub proof fn law_nudge_stays_legal(self, delta: OrbitDelta)
        requires
            self.legal(),
        ensures
            self.nudged(delta).legal(),
    {
        if delta.usable() {
            vstd::arithmetic::div_mod::lemma_mod_bound(
                self.yaw + delta.yaw_deg.micro(),
                FULL_TURN as int,
            );
        }
    }

    /// The movement that moves nothing leaves a legal camera where it is.
    pub proof fn law_no_movement(self, delta: OrbitDelta)
        requires
            self.legal(),
            delta.yaw_deg == Measure::Micro(0),
            delta.pitch_deg == Measure::Micro(0),
            delta.zoom_factor == Measure::Micro(MICRO),
            delta.pan == (Offsets {
                x: Measure::Micro(0),
                y: Measure::Micro(0),
                z: Measure::Micro(0),
            }),
        ensures
            self.nudged(delta) == self,
    {
        vstd::arithmetic::div_mod::lemma_small_mod(self.yaw as nat, FULL_TURN as nat);
        vstd::arithmetic::div_mod::lemma_div_by_multiple(self.eye_distance, MICRO as int);
    }

    /// Every small positive factor takes the eye as far out as it goes: below the
    /// smallest distance over the greatest they are all one.
    pub proof fn law_small_factors_go_farthest(self, delta: OrbitDelta)
        requires
            self.legal(),
            delta.usable(),
            delta.zoom_factor.micro() * MAX_EYE_DISTANCE <= MIN_EYE_DISTANCE * MICRO,
        ensures
            self.nudged(delta).eye_distance == MAX_EYE_DISTANCE,
    {
        let factor = delta.zoom_factor.micro();
        let moved = self.eye_distance * MICRO;
        assert(factor * MAX_EYE_DISTANCE <= moved) by (nonlinear_arith)
            requires
                factor * MAX_EYE_DISTANCE <= MIN_EYE_DISTANCE * MICRO,
                MIN_EYE_DISTANCE <= self.eye_distance,
                moved == self.eye_distance * MICRO,
                MICRO > 0,
        ;
        vstd::arithmetic::div_mod::lemma_div_is_ordered(
            factor * MAX_EYE_DISTANCE,
            moved,
            factor,
        );
        vstd::arithmetic::div_mod::lemma_div_multiples_vanish(MAX_EYE_DISTANCE as int, factor);
    }

    /// A zoom divides the distance of the eye, inward and outward alike: the new
    /// distance times the factor is the old one, to within one millionth of it,
    /// and the limits hold only what would pass them.
    pub proof fn law_zoom_divides_the_distance(self, delta: OrbitDelta, factor: int)
        requires
            self.legal(),
            delta.usable(),
            factor == delta.zoom_factor.micro(),
        ensures
            ({
                let near = self.nudged(delta).eye_distance;
                let far = self.eye_distance * 1_000_000;
                &&& 50_000 * factor <= far && far < 8_000_001 * factor ==> near * factor <= far < (
                near + 1) * factor
                &&& far < 50_000 * factor ==> near == 50_000
                &&& far >= 8_000_000 * factor ==> near == 8_000_000
            }),
    {
        let far = self.eye_distance * MICRO;
        let q = far / factor;
        vstd::arithmetic::div_mod::lemma_fundamental_div_mod(far, factor);
        vstd::arithmetic::div_mod::lemma_mod_bound(far, factor);
        assert(q * factor <= far < (q + 1) * factor) by (nonlinear_arith)
            requires
                far == factor * q + far % factor,
                0 <= far % factor < factor,
        ;
        if q < MIN_EYE_DISTANCE {
            assert(far < MIN_EYE_DISTANCE * factor) by (nonlinear_arith)
                requires
                    far < (q + 1) * factor,
                    q + 1 <= MIN_EYE_DISTANCE,
                    factor > 0,
            ;
        } else {
            assert(far >= MIN_EYE_DISTANCE * factor) by (nonlinear_arith)
                requires
                    far >= q * factor,
                    q >= MIN_EYE_DISTANCE,
                    factor > 0,
            ;
        }
        if q > MAX_EYE_DISTANCE {
            assert(far >= 8_000_001 * factor) by (nonlinear_arith)
                requires
                    far >= q * factor,
                    q >= 8_000_001,
                    factor > 0,
            ;
        } else {
            assert(far < 8_000_001 * factor) by (nonlinear_arith)
                requires
                    far < (q + 1) * factor,
                    q + 1 <= 8_000_001,
                    factor > 0,
            ;
        }
        if far >= 8_000_000 * factor && q < MAX_EYE_DISTANCE {
            assert(false) by (nonlinear_arith)
                requires
                    far >= 8_000_000 * factor,
                    far < (q + 1) * factor,
                    q + 1 <= 8_000_000,
                    factor > 0,
            ;
        }
    }

    /// Zooming and zooming back by the inverse brings the eye to where it was,
    /// short of it by less than the rounding of the two steps, unless the first
    /// step met a limit.
    pub proof fn law_zoom_comes_back(self, delta: OrbitDelta, inverse: OrbitDelta)
        requires
            self.legal(),
            delta.usable(),
            inverse.usable(),
            delta.zoom_factor.micro() * inverse.zoom_factor.micro() == 1_000_000 * 1_000_000,
            50_000 * delta.zoom_factor.micro() <= self.eye_distance * 1_000_000,
            self.eye_distance * 1_000_000 < 8_000_001 * delta.zoom_factor.micro(),
        ensures
            ({
                let back = self.nudged(delta).nudged(inverse).eye_distance;
                &&& back <= self.eye_distance
                &&& (self.eye_distance - back) * 1_000_000 < delta.zoom_factor.micro() + 1_000_000
            }),
    {
        let z = delta.zoom_factor.micro();
        let w = inverse.zoom_factor.micro();
        let m: int = 1_000_000;
        let e = self.eye_distance;
        let moved = self.nudged(delta);
        let d = moved.eye_distance;
        self.law_nudge_stays_legal(delta);
        self.law_zoom_divides_the_distance(delta, z);
        moved.law_zoom_divides_the_distance(inverse, w);
        let back = moved.nudged(inverse).eye_distance;
        moved.law_nudge_stays_legal(inverse);
        assert(d * m <= e * w) by (nonlinear_arith)
            requires
                d * z <= e * m,
                z * w == m * m,
                z > 0,
                w > 0,
                m > 0,
                d > 0,
                e > 0,
        ;
        assert(d * m < 8_000_001 * w) by (nonlinear_arith)
            requires
                d * m <= e * w,
                e <= 8_000_000,
                w > 0,
        ;
        if 50_000 * w <= d * m {
            assert(back * w <= d * m < (back + 1) * w);
            assert(back <= e) by (nonlinear_arith)
                requires
                    back * w <= d * m,
                    d * m <= e * w,
                    w > 0,
            ;
            assert(e * m * w < d * z * w + z * w) by (nonlinear_arith)
                requires
                    e * m < (d + 1) * z,
                    w > 0,
            ;
            assert((e - back) * m < z + m) by (nonlinear_arith)
                requires
                    e * m * w < d * z * w + z * w,
                    z * w == m * m,
                    d * m < (back + 1) * w,
                    w > 0,
                    m > 0,
                    z > 0,
            ;
        } else {
            assert(back == 50_000);
            assert((e - back) * m < z + m) by (nonlinear_arith)
                requires
                    e * m < (d + 1) * z,
                    d * m < 50_000 * w,
                    back == 50_000,
                    z * w == m * m,
                    w > 0,
                    m > 0,
                    z > 0,
            ;
        }
    }

    /// A turn adds to the yaw, counted round the circle: the new yaw differs from
    /// the sum by whole turns and lies within one.
    pub proof fn law_turning_adds_up(self, delta: OrbitDelta)
        requires
            delta.usable(),
        ensures
            0 <= self.nudged(delta).yaw < 360_000_000,
            exists|turns: int|
                self.nudged(delta).yaw == self.yaw + delta.yaw_deg.micro() + #[trigger] (turns
                    * 360_000_000),
    {
        let sum = self.yaw + delta.yaw_deg.micro();
        vstd::arithmetic::div_mod::lemma_fundamental_div_mod(sum, FULL_TURN as int);
        vstd::arithmetic::div_mod::lemma_mod_bound(sum, FULL_TURN as int);
        let turns = -(sum / (FULL_TURN as int));
        assert(self.nudged(delta).yaw == sum + turns * 360_000_000);
    }

    /// Raising and lowering the eye, and moving its pivot, add up exactly until a
    /// limit is met, and then stop there; the stretch is not the camera's to move.
    pub proof fn law_tilt_and_pan_add_up(self, delta: OrbitDelta)
        requires
            delta.usable(),
        ensures
            ({
                let after = self.nudged(delta);
                let pitch = self.pitch + delta.pitch_deg.micro();
                let x = self.pivot.x + delta.pan.x.micro();
                let y = self.pivot.y + delta.pan.y.micro();
                let z = self.pivot.z + delta.pan.z.micro();
                &&& after.exaggeration == self.exaggeration
                &&& -89_000_000 <= pitch <= 89_000_000 ==> after.pitch == pitch
                &&& pitch > 89_000_000 ==> after.pitch == 89_000_000
                &&& pitch < -89_000_000 ==> after.pitch == -89_000_000
                &&& -1_000_000 <= x <= 1_000_000 ==> after.pivot.x == x
                &&& x > 1_000_000 ==> after.pivot.x == 1_000_000
                &&& x < -1_000_000 ==> after.pivot.x == -1_000_000
                &&& -1_000_000 <= y <= 1_000_000 ==> after.pivot.y == y
                &&& y > 1_000_000 ==> after.pivot.y == 1_000_000
                &&& y < -1_000_000 ==> after.pivot.y == -1_000_000
                &&& -1_000_000 <= z <= 1_000_000 ==> after.pivot.z == z
                &&& z > 1_000_000 ==> after.pivot.z == 1_000_000
                &&& z < -1_000_000 ==> after.pivot.z == -1_000_000
            }),
    {
    }

    /// A movement with a part that is no number, or a factor that is not above
    /// zero, moves nothing at all; every other movement is usable.
    pub proof fn law_a_broken_movement_moves_nothing(self, delta: OrbitDelta)
        ensures
            ({
                let broken = delta.yaw_deg is NotFinite || delta.pitch_deg is NotFinite
                    || delta.pan.x is NotFinite || delta.pan.y is NotFinite || delta.pan.z
                    is NotFinite || match delta.zoom_factor {
                    Measure::Micro(factor) => factor <= 0,
                    Measure::NotFinite => true,
                };
                &&& broken ==> self.nudged(delta) == self
                &&& delta.usable() <==> !broken
            }),
    {
    }

    /// A restored camera keeps every number that was in range, takes the limit for
    /// one that was beyond it, and drops whole turns from the yaw.
    pub proof fn law_restore_keeps_what_is_in_range(
        yaw: int,
        pitch: int,
        eye_distance: int,
        pivot: Offsets,
        exaggeration: int,
    )
        ensures
            ({
                let r = Self::restored(yaw, pitch, eye_distance, pivot, exaggeration);
                &&& r.legal()
                &&& exists|turns: int| r.yaw == yaw + #[trigger] (turns * 360_000_000)
                &&& -89_000_000 <= pitch <= 89_000_000 ==> r.pitch == pitch
                &&& pitch > 89_000_000 ==> r.pitch == 89_000_000
                &&& pitch < -89_000_000 ==> r.pitch == -89_000_000
                &&& 50_000 <= eye_distance <= 8_000_000 ==> r.eye_distance == eye_distance
                &&& eye_distance > 8_000_000 ==> r.eye_distance == 8_000_000
                &&& eye_distance < 50_000 ==> r.eye_distance == 50_000
                &&& 1_000_000 <= exaggeration <= 12_000_000 ==> r.exaggeration == exaggeration
                &&& exaggeration > 12_000_000 ==> r.exaggeration == 12_000_000
                &&& exaggeration < 1_000_000 ==> r.exaggeration == 1_000_000
                &&& pivot.x matches Measure::Micro(x) ==> {
                    &&& -1_000_000 <= x <= 1_000_000 ==> r.pivot.x == x
                    &&& x > 1_000_000 ==> r.pivot.x == 1_000_000
                    &&& x < -1_000_000 ==> r.pivot.x == -1_000_000
                }
                &&& pivot.y matches Measure::Micro(y) ==> {
                    &&& -1_000_000 <= y <= 1_000_000 ==> r.pivot.y == y
                    &&& y > 1_000_000 ==> r.pivot.y == 1_000_000
                    &&& y < -1_000_000 ==> r.pivot.y == -1_000_000
                }
                &&& pivot.z matches Measure::Micro(z) ==> {
                    &&& -1_000_000 <= z <= 1_000_000 ==> r.pivot.z == z
                    &&& z > 1_000_000 ==> r.pivot.z == 1_000_000
                    &&& z < -1_000_000 ==> r.pivot.z == -1_000_000
                }
            }),
    {
        vstd::arithmetic::div_mod::lemma_fundamental_div_mod(yaw, FULL_TURN as int);
        vstd::arithmetic::div_mod::lemma_mod_bound(yaw, FULL_TURN as int);
        let turns = -(yaw / (FULL_TURN as int));
        let r = Self::restored(yaw, pitch, eye_distance, pivot, exaggeration);
        assert(r.yaw == yaw + turns * 360_000_000);
    }

    /// The vertical is stretched as asked, from true proportions to twelve times, and
    /// the camera stays where it is.
    pub proof fn law_stretch_is_as_asked(self, exaggeration: Measure)
        ensures
            ({
                let after = self.stretched(exaggeration);
                &&& exaggeration is NotFinite ==> after == self
                &&& exaggeration matches Measure::Micro(wanted) ==> {
                    &&& 1_000_000 <= wanted <= 12_000_000 ==> after.exaggeration == wanted
                    &&& wanted < 1_000_000 ==> after.exaggeration == 1_000_000
                    &&& wanted > 12_000_000 ==> after.exaggeration == 12_000_000
                }
                &&& after.yaw == self.yaw
                &&& after.pitch == self.pitch
                &&& after.eye_distance == self.eye_distance
                &&& after.pivot == self.pivot
            }),
    {
    }

    /// A legal pose comes back from its own saved numbers unchanged.
    pub proof fn law_restore_gives_back(self)
        requires
            self.legal(),
        ensures
            Self::restored(
                self.yaw,
                self.pitch,
                self.eye_distance,
                Offsets {
                    x: Measure::Micro(self.pivot.x),
                    y: Measure::Micro(self.pivot.y),
                    z: Measure::Micro(self.pivot.z),
                },
                self.exaggeration,
            ) == self,
    {
        vstd::arithmetic::div_mod::lemma_small_mod(self.yaw as nat, FULL_TURN as nat);
    }
}

/// Where the eye is, for a 3D pane: an orbit about a point of the volume.
#[derive(Clone, Copy, Debug, PartialEq, Eq, Structural)]
pub struct OrbitCamera {
    yaw_deg: i64,
    pitch_deg: i64,
    eye_distance: i64,
    pivot: Pivot,
    vertical_exaggeration: i64,
}

impl View for OrbitCamera {
    type V = Pose;

    closed spec fn view(&self) -> Pose {
        Pose {
            yaw: self.yaw_deg as int,
            pitch: self.pitch_deg as int,
            eye_distance: self.eye_distance as int,
            pivot: self.pivot,
            exaggeration: self.vertical_exaggeration as int,
        }
    }
}

impl Default for OrbitCamera {
    /// Looking from above the south-west, a little way out, at the box's centre.
    fn default() -> (r: Self)
        ensures
            r@ == (Pose {
                yaw: 225_000_000,
                pitch: 25_000_000,
                eye_distance: 2_500_000,
                pivot: Pivot { x: 0, y: 0, z: 0 },
                exaggeration: DEFAULT_VERTICAL_EXAGGERATION as int,
            }),
    {
        OrbitCamera {
            yaw_deg: 225_000_000,
            pitch_deg: 25_000_000,
            eye_distance: 2_500_000,
            pivot: Pivot { x: 0, y: 0, z: 0 },
            vertical_exaggeration: DEFAULT_VERTICAL_EXAGGERATION,
        }
    }
}

impl OrbitCamera {
    #[verifier::type_invariant]
    spec fn inv(self) -> bool {
        self@.legal()
    }

    /// Move the camera by `delta`, or leave it exactly as it is: the whole delta
    /// is refused if any part of it is unusable.
    pub fn nudge(&mut self, delta: OrbitDelta)
        ensures
            final(self)@ == old(self)@.nudged(delta),
            final(self)@.legal(),
    {
        proof {
            use_type_invariant(&*self);
        }
        match (delta.yaw_deg, delta.pitch_deg, delta.zoom_factor) {
            (Measure::Micro(yaw), Measure::Micro(pitch), Measure::Micro(zoom)) => {
                if zoom <= 0 {
                    return;
                }
                match (delta.pan.x, delta.pan.y, delta.pan.z) {
                    (Measure::Micro(x), Measure::Micro(y), Measure::Micro(z)) => {
                        let pivot = Pivot {
                            x: shift_clamped(self.pivot.x, x, -MAX_PIVOT, MAX_PIVOT),
                            y: shift_clamped(self.pivot.y, y, -MAX_PIVOT, MAX_PIVOT),
                            z: shift_clamped(self.pivot.z, z, -MAX_PIVOT, MAX_PIVOT),
                        };
                        let eye_distance: i64 = zoomed_eye(self.eye_distance, zoom);
                        *self =
                        OrbitCamera {
                            yaw_deg: shift_wrapped(self.yaw_deg, yaw, FULL_TURN),
                            pitch_deg: shift_clamped(
                                self.pitch_deg,
                                pitch,
                                -MAX_PITCH,
                                MAX_PITCH,
                            ),
                            eye_distance,
                            pivot,
                            vertical_exaggeration: self.vertical_exaggeration,
                        };
                    },
                    _ => {},
                }
            },
            _ => {},
        }
    }

    /// Set the vertical exaggeration, or leave it as it is if that is no number.
    /// A finite value is held to the control's travel.
    pub fn set_vertical_exaggeration(&mut self, exaggeration: Measure)
        ensures
            final(self)@ == old(self)@.stretched(exaggeration),
            final(self)@ == (Pose {
                exaggeration: if exaggeration.finite() {
                    clamped(
                        exaggeration.micro(),
                        MIN_VERTICAL_EXAGGERATION as int,
                        MAX_VERTICAL_EXAGGERATION as int,
                    )
                } else {
                    old(self)@.exaggeration
                },
                ..old(self)@
            }),
            final(self)@.legal(),
    {
        proof {
            use_type_invariant(&*self);
        }
        match exaggeration {
            Measure::Micro(wanted) => {
                *self =
                OrbitCamera {
                    yaw_deg: self.yaw_deg,
                    pitch_deg: self.pitch_deg,
                    eye_distance: self.eye_distance,
                    pivot: self.pivot,
                    vertical_exaggeration: clamp_micro(
                        wanted,
                        MIN_VERTICAL_EXAGGERATION,
                        MAX_VERTICAL_EXAGGERATION,
                    ),
                };
            },
            Measure::NotFinite => {},
        }
    }

    /// Rebuild a camera from saved numbers, or `None` if any of them is no
    /// number. Finite numbers out of range are wrapped and held, so the nearest
    /// legal camera comes back.
    pub fn restore(
        yaw_deg: Measure,
        pitch_deg: Measure,
        eye_distance: Measure,
        pivot: Offsets,
        vertical_exaggeration: Measure,
    ) -> (r: Option<Self>)
        ensures
            r is Some <==> yaw_deg.finite() && pitch_deg.finite() && eye_distance.finite()
                && pivot.finite() && vertical_exaggeration.finite(),
            r matches Some(camera) ==> camera@ == Pose::restored(
                yaw_deg.micro(),
                pitch_deg.micro(),
                eye_distance.micro(),
                pivot,
                vertical_exaggeration.micro(),
            ),
            r matches Some(camera) ==> camera@.legal(),
    {
        let held: Pivot = match (pivot.x, pivot.y, pivot.z) {
            (Measure::Micro(x), Measure::Micro(y), Measure::Micro(z)) => Pivot {
                x: shift_clamped(0, x, -MAX_PIVOT, MAX_PIVOT),
                y: shift_clamped(0, y, -MAX_PIVOT, MAX_PIVOT),
                z: shift_clamped(0, z, -MAX_PIVOT, MAX_PIVOT),
            },
            _ => {
                return None;
            },
        };
        match (yaw_deg, pitch_deg, eye_distance, vertical_exaggeration) {
            (
                Measure::Micro(yaw),
                Measure::Micro(pitch),
                Measure::Micro(eye),
                Measure::Micro(stretch),
            ) => Some(
                OrbitCamera {
                    yaw_deg: shift_wrapped(0, yaw, FULL_TURN),
                    pitch_deg: clamp_micro(pitch, -MAX_PITCH, MAX_PITCH),
                    eye_distance: clamp_micro(eye, MIN_EYE_DISTANCE, MAX_EYE_DISTANCE),
                    pivot: held,
                    vertical_exaggeration: clamp_micro(
                        stretch,
                        MIN_VERTICAL_EXAGGERATION,
                        MAX_VERTICAL_EXAGGERATION,
                    ),
                },
            ),
            _ => None,
        }
    }

    /// Azimuth about the vertical axis, in millionths of a degree below one
    /// turn.
    pub fn yaw_deg(self) -> (r: i64)
        ensures
            r == self@.yaw,
            self@.legal(),
    {
        proof {
            use_type_invariant(&self);
        }
        self.yaw_deg
    }

    /// Elevation above the horizontal, in millionths of a degree.
    pub fn pitch_deg(self) -> (r: i64)
        ensures
            r == self@.pitch,
            self@.legal(),
    {
        proof {
            use_type_invariant(&self);
        }
        self.pitch_deg
    }

    /// Eye distance, in millionths of the box's half-diagonal.
    pub fn eye_distance(self) -> (r: i64)
        ensures
            r == self@.eye_distance,
            self@.legal(),
    {
        proof {
            use_type_invariant(&self);
        }
        self.eye_distance
    }

    /// The look-at point, always a point of the box.
    pub fn pivot(self) -> (r: Pivot)
        ensures
            r == self@.pivot,
            self@.legal(),
    {
        proof {
            use_type_invariant(&self);
        }
        self.pivot
    }

    /// How much the vertical axis is stretched when the box is drawn.
    pub fn vertical_exaggeration(self) -> (r: i64)
        ensures
            r == self@.exaggeration,
            self@.legal(),
    {
        proof {
            use_type_invariant(&self);
        }
        self.vertical_exaggeration
    }
}

/// The eye distance after a zoom by `zoom` millionths.
fn zoomed_eye(eye: i64, zoom: i64) -> (r: i64)
    requires
        MIN_EYE_DISTANCE <= eye <= MAX_EYE_DISTANCE,
        zoom > 0,
    ensures
        r == clamped(
            (eye * MICRO) / zoom as int,
            MIN_EYE_DISTANCE as int,
            MAX_EYE_DISTANCE as int,
        ),
        MIN_EYE_DISTANCE <= r <= MAX_EYE_DISTANCE,
{
    let scaled: u64 = (eye * MICRO) as u64;
    let moved: u64 = scaled / (zoom as u64);
    proof {
        vstd::arithmetic::div_mod::lemma_div_is_ordered_by_denominator(
            scaled as int,
            1,
            zoom as int,
        );
    }
    clamp_micro(moved as i64, MIN_EYE_DISTANCE, MAX_EYE_DISTANCE)
}

} // verus!
