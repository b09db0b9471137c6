//! The names things go by: products, views, overlays and kinds of pane.

use vstd::prelude::*;

verus! {

/// A radar product that a pane can show.
#[derive(Clone, Copy, Debug, PartialEq, Eq, Structural)]
pub enum RadarProduct {
    Reflectivity,
    Velocity,
    SpectrumWidth,
    StormRelativeVelocity,
    NormalizedRotation,
    PrecipitationRate,
    VerticallyIntegratedLiquid,
    EchoTops,
    /// Any product that no rule of this crate singles out, by its wire code.
    Other(u16),
}

/// What a render produces.
#[derive(Clone, Copy, Debug, PartialEq, Eq, Structural)]
pub enum RenderView {
    /// One tilt, seen from above.
    PlanView,
    /// A vertical slice along a line.
    CrossSection,
    /// The whole volume in three dimensions.
    Volume,
}

impl RenderView {
    /// Whether this view needs every tilt of the volume.
    pub open spec fn whole_volume(self) -> bool {
        !(self is PlanView)
    }

    /// Whether this view needs every tilt of the volume: a plan view needs one
    /// sweep, a section and a volume need them all.
    pub fn reads_whole_volume(self) -> (r: bool)
        ensures
            r == self.whole_volume(),
    {
        match self {
            RenderView::PlanView => false,
            RenderView::CrossSection => true,
            RenderView::Volume => true,
        }
    }
}

/// Which of the three things a pane is.
#[derive(Clone, Copy, Debug, PartialEq, Eq, Structural)]
pub enum PaneKind {
    /// The plan-view radar map.
    MapView,
    /// A vertical slice through the volume along a line drawn on a map pane.
    CrossSection,
    /// A 3D view of the whole volume.
    Volume,
}

impl Default for PaneKind {
    fn default() -> (r: Self)
        ensures
            r == PaneKind::MapView,
    {
        PaneKind::MapView
    }
}

impl PaneKind {
    /// The view that a render for this kind produces.
    pub open spec fn view_of(self) -> RenderView {
        match self {
            PaneKind::MapView => RenderView::PlanView,
            PaneKind::CrossSection => RenderView::CrossSection,
            PaneKind::Volume => RenderView::Volume,
        }
    }

    /// Whether a pane of this kind reads the whole volume rather than one tilt
    /// out of it. Read off the view, so that the two cannot be classified apart.
    pub fn consumes_whole_volume(self) -> (r: bool)
        ensures
            r == self.view_of().whole_volume(),
            r == (self != PaneKind::MapView),
    {
        self.render_view().reads_whole_volume()
    }

    /// Whether a pane of this kind can animate a sequence of past volumes. All
    /// three can: a tilt and a section are pictures that stay true while they
    /// wait in a list, and a volume frame is the grid that is marched live.
    pub fn can_loop(self) -> (r: bool)
        ensures
            r,
    {
        match self {
            PaneKind::MapView | PaneKind::CrossSection | PaneKind::Volume => true,
        }
    }

    /// What a render dispatched for a pane of this kind produces.
    pub fn render_view(self) -> (r: RenderView)
        ensures
            r == self.view_of(),
    {
        match self {
            PaneKind::MapView => RenderView::PlanView,
            PaneKind::CrossSection => RenderView::CrossSection,
            PaneKind::Volume => RenderView::Volume,
        }
    }

    /// The short name a pane's own identity line uses for its kind.
    pub open spec fn title(self) -> Seq<char> {
        match self {
            PaneKind::MapView => "Map"@,
            PaneKind::CrossSection => "Cross-section"@,
            PaneKind::Volume => "3D volume"@,
        }
    }
}

/// How a 3D pane draws its volume.
#[derive(Clone, Copy, Debug, PartialEq, Eq, Structural)]
pub enum VolumeViewMode {
    /// The translucent, lit accumulation.
    LitVolume,
    /// The first crossing of a threshold, as one opaque surface.
    Isosurface,
}

impl Default for VolumeViewMode {
    fn default() -> (r: Self)
        ensures
            r == VolumeViewMode::LitVolume,
    {
        VolumeViewMode::LitVolume
    }
}

/// A map shows one tilt; a section and a 3D view are made from all of them, and each
/// kind of pane has a view and a name of its own.
pub proof fn law_kinds_have_their_own_views(p: PaneKind, q: PaneKind)
    ensures
        p.view_of() == q.view_of() ==> p == q,
        p.view_of().whole_volume() <==> p != PaneKind::MapView,
        PaneKind::MapView.view_of() == RenderView::PlanView,
        PaneKind::CrossSection.view_of() == RenderView::CrossSection,
        PaneKind::Volume.view_of() == RenderView::Volume,
        PaneKind::MapView.title() == "Map"@,
        PaneKind::CrossSection.title() == "Cross-section"@,
        PaneKind::Volume.title() == "3D volume"@,
{
}

} // verus!
