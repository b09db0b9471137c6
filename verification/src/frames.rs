//! The pictures of an animation loop, and what identifies them.

use vstd::prelude::*;
use std::sync::Arc;
use crate::geo::{SectionLine, VolumeRegion};
use crate::kinds::{RadarProduct, RenderView};
use crate::measure::Measure;
use crate::stamp::Stamp;

verus! {

/// A radar site: its code and where it stands, in millionths of a degree.
pub struct RadarSite {
    pub name: String,
    pub lat: i64,
    pub lon: i64,
}

/// A plan-view picture and where it belongs.
pub struct RadarImageData {
    pub texture: egui::TextureHandle,
    /// Millionths of a degree.
    pub lat: i64,
    /// Millionths of a degree.
    pub lon: i64,
    /// Millionths of a kilometre.
    pub max_range_km: i64,
    /// The values behind the pixels, each as its raw bits. Empty on a loop
    /// frame.
    pub value_data: Arc<Vec<u32>>,
}

impl Clone for RadarImageData {
    fn clone(&self) -> (r: Self)
        ensures
            r == *self,
    {
        RadarImageData {
            texture: self.texture.clone(),
            lat: self.lat,
            lon: self.lon,
            max_range_km: self.max_range_km,
            value_data: self.value_data.clone(),
        }
    }
}

/// A cross-section picture and the labels that belong to it.
pub struct SectionImageData {
    pub texture: egui::TextureHandle,
    /// Where the ladder's rungs are, in millionths of a degree.
    pub tilt_elevations_deg: Vec<i64>,
    /// The fingerprint of the tilt ladder this picture was cut from.
    pub ladder: u64,
}

impl Clone for SectionImageData {
    fn clone(&self) -> (r: Self)
        ensures
            r.texture == self.texture,
            r.tilt_elevations_deg@ == self.tilt_elevations_deg@,
            r.ladder == self.ladder,
    {
        SectionImageData {
            texture: self.texture.clone(),
            tilt_elevations_deg: self.tilt_elevations_deg.clone(),
            ladder: self.ladder,
        }
    }
}

/// Which volume a section or a voxel grid was built from.
pub struct VolumeStamp {
    /// The code of the site the volume belongs to.
    pub site: String,
    /// When the radar collected the volume.
    pub collected: Stamp,
}

impl Clone for VolumeStamp {
    fn clone(&self) -> (r: Self)
        ensures
            r == *self,
    {
        VolumeStamp { site: self.site.clone(), collected: self.collected }
    }
}

/// Everything a built voxel grid depends on.
pub struct VolumeTarget {
    pub volume: VolumeStamp,
    pub product: RadarProduct,
    /// The ground to resample, or `None` for the default box about the site.
    pub region: Option<VolumeRegion>,
}

impl Clone for VolumeTarget {
    fn clone(&self) -> (r: Self)
        ensures
            r == *self,
    {
        VolumeTarget { volume: self.volume.clone(), product: self.product, region: self.region }
    }
}

/// The resident grid one 3D loop frame marches, named by what built it.
pub struct VolumeFrameGrid {
    /// The id of the grid in the application's store.
    pub id: u64,
    /// Everything the grid was built from.
    pub target: VolumeTarget,
}

impl Clone for VolumeFrameGrid {
    fn clone(&self) -> (r: Self)
        ensures
            r == *self,
    {
        VolumeFrameGrid { id: self.id, target: self.target.clone() }
    }
}

/// A finished loop frame's picture, in whichever shape its pane draws.
pub enum LoopFrameImage {
    /// A plan-view raster.
    PlanView(RadarImageData),
    /// A vertical slice along the loop's line.
    Section(SectionImageData),
    /// A resident voxel grid, named rather than held.
    Volume(VolumeFrameGrid),
}

impl LoopFrameImage {
    /// Which view this picture is.
    pub open spec fn view_of(self) -> RenderView {
        match self {
            LoopFrameImage::PlanView(_) => RenderView::PlanView,
            LoopFrameImage::Section(_) => RenderView::CrossSection,
            LoopFrameImage::Volume(_) => RenderView::Volume,
        }
    }

    /// Which view this picture is.
    pub fn render_view(&self) -> (r: RenderView)
        ensures
            r == self.view_of(),
    {
        match self {
            LoopFrameImage::PlanView(_) => RenderView::PlanView,
            LoopFrameImage::Section(_) => RenderView::CrossSection,
            LoopFrameImage::Volume(_) => RenderView::Volume,
        }
    }

    /// The plan-view image, or `None` if this frame is none.
    pub fn plan_view(&self) -> (r: Option<&RadarImageData>)
        ensures
            r is Some <==> self is PlanView,
            r matches Some(image) ==> *image == self->PlanView_0,
    {
        match self {
            LoopFrameImage::PlanView(image) => Some(image),
            LoopFrameImage::Section(_) | LoopFrameImage::Volume(_) => None,
        }
    }

    /// The section image, or `None` if this frame is none.
    pub fn section(&self) -> (r: Option<&SectionImageData>)
        ensures
            r is Some <==> self is Section,
            r matches Some(image) ==> *image == self->Section_0,
    {
        match self {
            LoopFrameImage::Section(image) => Some(image),
            LoopFrameImage::PlanView(_) | LoopFrameImage::Volume(_) => None,
        }
    }

    /// The resident grid this frame marches, or `None` if it is a raster.
    pub fn volume(&self) -> (r: Option<&VolumeFrameGrid>)
        ensures
            r is Some <==> self is Volume,
            r matches Some(grid) ==> *grid == self->Volume_0,
    {
        match self {
            LoopFrameImage::Volume(grid) => Some(grid),
            LoopFrameImage::PlanView(_) | LoopFrameImage::Section(_) => None,
        }
    }
}

impl Clone for LoopFrameImage {
    fn clone(&self) -> (r: Self)
        ensures
            r.view_of() == self.view_of(),
            !(self is Section) ==> r == *self,
            self matches LoopFrameImage::Section(s) ==> {
                &&& r->Section_0.texture == s.texture
                &&& r->Section_0.tilt_elevations_deg@ == s.tilt_elevations_deg@
                &&& r->Section_0.ladder == s.ladder
            },
    {
        match self {
            LoopFrameImage::PlanView(image) => LoopFrameImage::PlanView(image.clone()),
            LoopFrameImage::Section(image) => LoopFrameImage::Section(image.clone()),
            LoopFrameImage::Volume(grid) => LoopFrameImage::Volume(grid.clone()),
        }
    }
}

/// A single frame in a radar loop.
pub struct LoopFrame {
    /// When the frame's scan was collected.
    pub timestamp: Stamp,
    /// The picture, `None` if not yet rendered or evicted.
    pub image: Option<LoopFrameImage>,
    /// True while a background render is in progress for this frame.
    pub render_in_flight: bool,
    /// True once a render for this frame produced nothing. Final for the
    /// frame's current scan.
    pub render_failed: bool,
}

impl LoopFrame {
    /// This frame with nothing rendered, nothing owed and nothing ruled out.
    pub open spec fn blank(self) -> LoopFrame {
        LoopFrame {
            timestamp: self.timestamp,
            image: None,
            render_in_flight: false,
            render_failed: false,
        }
    }

    /// This frame without its picture.
    pub open spec fn untextured(self) -> LoopFrame {
        LoopFrame { image: None, ..self }
    }
}

/// How far apart two elevation angles may be and still be the same, in
/// millionths of a degree.
pub const ELEVATION_TOLERANCE: i64 = 10_000;

/// Every input of a render except the scan itself: the site whose coordinates
/// set the projection, and the selection that picks the sweep.
pub struct RenderTarget {
    /// The code of the site supplying the projection geometry.
    pub site: String,
    pub product: RadarProduct,
    /// The selected elevation, in degrees.
    pub elevation: Measure,
}

impl Clone for RenderTarget {
    fn clone(&self) -> (r: Self)
        ensures
            r == *self,
    {
        RenderTarget {
            site: self.site.clone(),
            product: self.product,
            elevation: self.elevation,
        }
    }
}

impl RenderTarget {
    /// Whether this target names the image of `site`, `product` and
    /// `elevation`: the first two exactly, the angle within the tolerance.
    pub open spec fn names(
        self,
        site: Seq<char>,
        product: RadarProduct,
        elevation: Measure,
    ) -> bool {
        &&& self.site@ == site
        &&& self.product == product
        &&& self.elevation.close_to(elevation, ELEVATION_TOLERANCE as int)
    }

    /// Whether two targets name the same image.
    pub open spec fn same_image(self, other: RenderTarget) -> bool {
        self.names(other.site@, other.product, other.elevation)
    }

    pub fn new(site: &str, product: RadarProduct, elevation: Measure) -> (r: Self)
        ensures
            r.site@ == site@,
            r.product == product,
            r.elevation == elevation,
    {
        RenderTarget { site: String::from_str(site), product, elevation }
    }

    /// Whether this target names the same image as `site`, `product` and
    /// `elevation`.
    pub fn matches_parts(&self, site: &str, product: RadarProduct, elevation: Measure) -> (r: bool)
        ensures
            r == self.names(site@, product, elevation),
    {
        crate::text::same_text(self.site.as_str(), site) && self.product == product
            && self.elevation.is_close_to(elevation, ELEVATION_TOLERANCE)
    }

    /// Whether two targets name the same image.
    pub fn matches(&self, other: &RenderTarget) -> (r: bool)
        ensures
            r == self.same_image(*other),
    {
        self.matches_parts(other.site.as_str(), other.product, other.elevation)
    }

    /// Every target whose elevation is a number names its own image, and naming
    /// goes both ways.
    pub proof fn law_matching_is_mutual(p: RenderTarget, q: RenderTarget)
        ensures
            p.elevation.finite() ==> p.same_image(p),
            p.same_image(q) == q.same_image(p),
    {
    }
}

/// A storm motion vector as the raw bits of its two numbers, so that it always
/// equals itself.
#[derive(Clone, Copy, Debug, PartialEq, Eq, Structural)]
pub struct MotionBits {
    pub speed_kt: u32,
    pub direction_from_deg: u32,
}

/// What a section loop's frames were cut for, beyond the render target.
#[derive(Clone, Copy, Debug, PartialEq, Eq, Structural)]
pub struct SectionLoopKey {
    /// The line every frame is cut along.
    pub line: SectionLine,
    /// The storm motion vector the frames were derived with, and `None` for
    /// every product that does not read one.
    pub storm_motion: Option<MotionBits>,
}

impl SectionLoopKey {
    pub fn new(line: SectionLine, motion: Option<MotionBits>) -> (r: Self)
        ensures
            r == (SectionLoopKey { line, storm_motion: motion }),
    {
        SectionLoopKey { line, storm_motion: motion }
    }
}

/// What a volume loop's grids were built for, beyond the render target. The
/// elevation is absent: a grid is resampled from every tilt.
#[derive(Clone, Copy, Debug, PartialEq, Eq, Structural)]
pub struct VolumeLoopKey {
    /// The ground every frame is resampled over, or `None` for the default box.
    pub region: Option<VolumeRegion>,
    /// The storm motion vector the grids were derived with, if any.
    pub storm_motion: Option<MotionBits>,
}

impl VolumeLoopKey {
    pub fn new(region: Option<VolumeRegion>, motion: Option<MotionBits>) -> (r: Self)
        ensures
            r == (VolumeLoopKey { region, storm_motion: motion }),
    {
        VolumeLoopKey { region, storm_motion: motion }
    }
}

/// The view-specific half of a loop's render key. A plan-view loop has none.
#[derive(Clone, Copy, Debug, PartialEq, Eq, Structural)]
pub enum LoopViewKey {
    Section(SectionLoopKey),
    Volume(VolumeLoopKey),
}

/// The two sweep angles a hand-over between panes has to reconcile, in degrees.
#[derive(Clone, Copy, Debug, PartialEq, Eq, Structural)]
pub struct BroadcastSweep {
    /// The sweep angle the incoming image depicts.
    pub rendered: Measure,
    /// The sweep the receiver's own scan resolves the selection to, or `None`
    /// if it has no such sweep.
    pub own: Option<Measure>,
}

impl BroadcastSweep {
    /// Whether the incoming image depicts the sweep the receiver would have
    /// rendered.
    pub open spec fn agreeing(self) -> bool {
        self.own matches Some(own) && own.close_to(self.rendered, ELEVATION_TOLERANCE as int)
    }

    /// Whether the incoming image depicts the sweep the receiver would have
    /// rendered. A receiver that cannot say refuses.
    pub fn agrees(&self) -> (r: bool)
        ensures
            r == self.agreeing(),
    {
        match self.own {
            Some(own) => own.is_close_to(self.rendered, ELEVATION_TOLERANCE),
            None => false,
        }
    }
}

/// An incoming picture is taken only where the receiver knows its own sweep and
/// that lies within a hundredth of a degree of the one depicted.
pub proof fn law_sweeps_agree_within_a_hundredth(sweep: BroadcastSweep)
    ensures
        sweep.agreeing() <==> (sweep.own matches Some(Measure::Micro(a)) && sweep.rendered
            matches Measure::Micro(b) && a - b <= 10_000 && b - a <= 10_000),
{
}

/// Two targets name one picture exactly where site and product are the same and
/// the angles lie within a hundredth of a degree.
pub proof fn law_targets_name_one_picture(p: RenderTarget, q: RenderTarget)
    ensures
        p.same_image(q) <==> p.site@ == q.site@ && p.product == q.product && (p.elevation
            matches Measure::Micro(a) && q.elevation matches Measure::Micro(b) && a - b <= 10_000
            && b - a <= 10_000),
{
}

/// A blank frame is of the same moment, and has and owes nothing.
pub proof fn law_blank_frame_has_nothing(frame: LoopFrame)
    ensures
        frame.blank().timestamp == frame.timestamp,
        frame.blank().image is None,
        !frame.blank().render_in_flight,
        !frame.blank().render_failed,
        frame.untextured().image is None,
        frame.untextured().timestamp == frame.timestamp,
        frame.untextured().render_in_flight == frame.render_in_flight,
        frame.untextured().render_failed == frame.render_failed,
{
}

} // verus!
