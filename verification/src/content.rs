//! What a pane shows, by kind.

use vstd::prelude::*;
use crate::camera::{OrbitCamera, Pivot, Pose, DEFAULT_VERTICAL_EXAGGERATION};
use crate::frames::{VolumeStamp, VolumeTarget};
use crate::geo::{SectionLine, VolumeRegion, BOX_HEIGHT_KM, DEFAULT_HALF_WIDTH_KM};
use crate::kinds::{PaneKind, RadarProduct, VolumeViewMode};
use crate::text::joined;

verus! {

/// Everything a rendered cross-section depends on.
pub struct SectionTarget {
    pub volume: VolumeStamp,
    /// The moment the section was cut from.
    pub product: RadarProduct,
    pub line: SectionLine,
    /// The fingerprint of the tilt ladder the cut was made from; zero where no
    /// ladder resolves.
    pub ladder: u64,
}

impl SectionTarget {
    /// Whether two targets are the same cut.
    pub open spec fn same_cut(self, other: SectionTarget) -> bool {
        &&& self.volume.site@ == other.volume.site@
        &&& self.volume.collected == other.volume.collected
        &&& self.product == other.product
        &&& self.line == other.line
        &&& self.ladder == other.ladder
    }

    /// Whether two targets are the same cut: a new volume, another line or
    /// another ladder makes the picture stale.
    pub fn matches(&self, other: &SectionTarget) -> (r: bool)
        ensures
            r == self.same_cut(*other),
    {
        self.volume.site == other.volume.site && self.volume.collected == other.volume.collected
            && self.product == other.product && self.line == other.line && self.ladder
            == other.ladder
    }
}

/// Why a section pane has no picture, when it has none.
#[derive(Clone, Copy, Debug, PartialEq, Eq, Structural)]
pub enum SectionUnavailable {
    /// No decoded volume for the pane's site yet.
    AwaitingVolume,
    /// The volume was joined mid-flight and its coverage pattern is missing.
    AwaitingCoveragePattern,
    /// The product has no vertical structure to slice.
    ProductHasNoVerticalStructure(RadarProduct),
    /// The cut was dispatched and answered nothing.
    RenderFailed,
    /// This volume carries nothing to cut under the product.
    ProductMissingFromVolume(RadarProduct),
}

impl SectionUnavailable {
    /// One line for whoever looks at the empty pane, given the name of the
    /// product it is about.
    pub open spec fn text(self, product_name: Seq<char>) -> Seq<char> {
        match self {
            SectionUnavailable::AwaitingVolume =>
                "Downloading this site's first volume - the section appears the moment it lands"@,
            SectionUnavailable::AwaitingCoveragePattern =>
                "This volume was joined mid-scan and its coverage pattern has not arrived yet, so there is no tilt ladder to cut along. It will appear on the next volume."@,
            SectionUnavailable::ProductHasNoVerticalStructure(_) => product_name
                + " has no vertical structure to slice - pick a moment the radar measures tilt by tilt"@,
            SectionUnavailable::RenderFailed =>
                "The cross-section could not be cut from this volume"@,
            SectionUnavailable::ProductMissingFromVolume(_) => "This volume carries no "@
                + product_name
                + " to cut - the section appears as soon as one that does arrives. Storm-relative velocity also needs a motion vector, from the volume's own winds or the override."@,
        }
    }

    /// One line, addressed to whoever is looking at the empty pane.
    /// `product_name` is the display name of the product it is about.
    pub fn message(self, product_name: &str) -> (r: String)
        ensures
            r@ == self.text(product_name@),
    {
        match self {
            SectionUnavailable::AwaitingVolume => String::from_str(
                "Downloading this site's first volume - the section appears the moment it lands",
            ),
            SectionUnavailable::AwaitingCoveragePattern => String::from_str(
                "This volume was joined mid-scan and its coverage pattern has not arrived yet, so there is no tilt ladder to cut along. It will appear on the next volume.",
            ),
            SectionUnavailable::ProductHasNoVerticalStructure(_) => joined(
                product_name,
                " has no vertical structure to slice - pick a moment the radar measures tilt by tilt",
            ),
            SectionUnavailable::RenderFailed => String::from_str(
                "The cross-section could not be cut from this volume",
            ),
            SectionUnavailable::ProductMissingFromVolume(_) => joined(
                joined("This volume carries no ", product_name).as_str(),
                " to cut - the section appears as soon as one that does arrives. Storm-relative velocity also needs a motion vector, from the volume's own winds or the override.",
            ),
        }
    }
}

/// A pane showing a vertical cross-section.
pub struct CrossSectionPane {
    /// The line to cut along, or `None` until one has been drawn.
    pub line: Option<SectionLine>,
    /// Which map pane the line was drawn on.
    pub source_pane: Option<usize>,
    /// What the section on screen was rendered for.
    pub rendered_for: Option<SectionTarget>,
    /// The cut itself, by its id in the application's store.
    pub section: Option<u64>,
    /// The section's raster, uploaded.
    pub texture: Option<egui::TextureHandle>,
    /// Why there is no section, when there is none and a line has been drawn.
    pub unavailable: Option<SectionUnavailable>,
    /// Whether the caption's long form is expanded. View state only.
    pub detail_open: bool,
}

impl CrossSectionPane {
    /// A section pane that has never been aimed.
    pub open spec fn is_unaimed(self) -> bool {
        self == (CrossSectionPane {
            line: None,
            source_pane: None,
            rendered_for: None,
            section: None,
            texture: None,
            unavailable: None,
            detail_open: false,
        })
    }
}

impl Default for CrossSectionPane {
    fn default() -> (r: Self)
        ensures
            r.is_unaimed(),
    {
        CrossSectionPane {
            line: None,
            source_pane: None,
            rendered_for: None,
            section: None,
            texture: None,
            unavailable: None,
            detail_open: false,
        }
    }
}

/// A pane showing a 3D view of the volume.
pub struct VolumePane {
    /// Where the eye is.
    pub camera: OrbitCamera,
    /// The patch of ground to resample, or `None` for the default box about the
    /// site.
    pub region: Option<VolumeRegion>,
    /// Which map pane the region was dragged on.
    pub source_pane: Option<usize>,
    /// Which volume the grid on screen was built from.
    pub rendered_for: Option<VolumeTarget>,
    /// Whether this pane has turned the map floor off.
    pub hide_floor: bool,
    /// Whether this pane's Volume Alpha editor is open. Not saved.
    pub alpha_editor_open: bool,
    /// How this pane draws its volume.
    pub view_mode: VolumeViewMode,
}

impl VolumePane {
    /// A 3D pane as it starts out.
    pub open spec fn is_initial(self) -> bool {
        &&& self.camera@ == (Pose {
            yaw: 225_000_000,
            pitch: 25_000_000,
            eye_distance: 2_500_000,
            pivot: Pivot { x: 0, y: 0, z: 0 },
            exaggeration: DEFAULT_VERTICAL_EXAGGERATION as int,
        })
        &&& self.region is None
        &&& self.source_pane is None
        &&& self.rendered_for is None
        &&& !self.hide_floor
        &&& !self.alpha_editor_open
        &&& self.view_mode == VolumeViewMode::LitVolume
    }

    /// Half the horizontal extent of the box, in millionths of a kilometre.
    pub open spec fn box_half_width(self) -> int {
        match self.region {
            Some(region) => region.half_width(),
            None => DEFAULT_HALF_WIDTH_KM as int,
        }
    }

    /// The box's full extent along each axis, as the resample will produce it,
    /// in millionths of a kilometre.
    pub fn box_size_km(&self) -> (r: (i64, i64, i64))
        ensures
            r.0 == 2 * self.box_half_width(),
            r.1 == 2 * self.box_half_width(),
            r.2 == BOX_HEIGHT_KM,
    {
        let half_width: i64 = match self.region {
            Some(region) => region.half_width_km(),
            None => DEFAULT_HALF_WIDTH_KM,
        };
        (2 * half_width, 2 * half_width, BOX_HEIGHT_KM)
    }
}

impl Default for VolumePane {
    fn default() -> (r: Self)
        ensures
            r.is_initial(),
    {
        VolumePane {
            camera: OrbitCamera::default(),
            region: None,
            source_pane: None,
            rendered_for: None,
            hide_floor: false,
            alpha_editor_open: false,
            view_mode: VolumeViewMode::LitVolume,
        }
    }
}

/// The per-kind state a pane holds, and the only source of its kind.
pub enum PaneContent {
    /// A plan-view map. Carries nothing.
    MapView,
    CrossSection(Box<CrossSectionPane>),
    Volume(Box<VolumePane>),
}

impl Default for PaneContent {
    fn default() -> (r: Self)
        ensures
            r is MapView,
    {
        PaneContent::MapView
    }
}

impl PaneContent {
    /// Which kind this content is.
    pub open spec fn kind_of(self) -> PaneKind {
        match self {
            PaneContent::MapView => PaneKind::MapView,
            PaneContent::CrossSection(_) => PaneKind::CrossSection,
            PaneContent::Volume(_) => PaneKind::Volume,
        }
    }

    /// Whether this is content as converting a pane produces it.
    pub open spec fn is_new(self) -> bool {
        match self {
            PaneContent::MapView => true,
            PaneContent::CrossSection(section) => section.is_unaimed(),
            PaneContent::Volume(volume) => volume.is_initial(),
        }
    }

    /// This content without its textures.
    pub open spec fn released(self) -> PaneContent {
        match self {
            PaneContent::CrossSection(section) => PaneContent::CrossSection(
                Box::new(CrossSectionPane { texture: None, ..*section }),
            ),
            other => other,
        }
    }

    /// Which kind this content is.
    pub fn kind(&self) -> (r: PaneKind)
        ensures
            r == self.kind_of(),
    {
        match self {
            PaneContent::MapView => PaneKind::MapView,
            PaneContent::CrossSection(_) => PaneKind::CrossSection,
            PaneContent::Volume(_) => PaneKind::Volume,
        }
    }

    /// Empty content of the given kind.
    pub fn for_kind(kind: PaneKind) -> (r: Self)
        ensures
            r.kind_of() == kind,
            r.is_new(),
    {
        match kind {
            PaneKind::MapView => PaneContent::MapView,
            PaneKind::CrossSection => PaneContent::CrossSection(
                Box::new(CrossSectionPane::default()),
            ),
            PaneKind::Volume => PaneContent::Volume(Box::new(VolumePane::default())),
        }
    }

    /// Drop every texture this content holds. A section keeps its cut and what
    /// the cut is for, so that the picture can be uploaded again.
    pub fn release_textures(&mut self)
        ensures
            *final(self) == old(self).released(),
    {
        match self {
            PaneContent::MapView => {},
            PaneContent::CrossSection(section) => {
                section.texture = None;
            },
            PaneContent::Volume(_) => {},
        }
    }
}

/// Two cuts are the same exactly where nothing that the picture shows differs: the
/// site, the moment, the product, the line and the ladder.
pub proof fn law_a_cut_is_all_it_was_cut_from(p: SectionTarget, q: SectionTarget)
    ensures
        p.volume.site@ != q.volume.site@ ==> !p.same_cut(q),
        p.volume.collected != q.volume.collected ==> !p.same_cut(q),
        p.product != q.product ==> !p.same_cut(q),
        p.line != q.line ==> !p.same_cut(q),
        p.ladder != q.ladder ==> !p.same_cut(q),
        p.same_cut(p),
        p.same_cut(q) == q.same_cut(p),
        q.volume.site@ == p.volume.site@ && q.volume.collected == p.volume.collected && q.product
            == p.product && q.line == p.line && q.ladder == p.ladder ==> p.same_cut(q),
{
}

/// Content that is made new has nothing in it: no line, no picture, no region.
pub proof fn law_new_content_is_empty(content: PaneContent)
    requires
        content.is_new(),
    ensures
        content matches PaneContent::CrossSection(section) ==> {
            &&& section.line is None
            &&& section.source_pane is None
            &&& section.rendered_for is None
            &&& section.section is None
            &&& section.texture is None
            &&& section.unavailable is None
        },
        content matches PaneContent::Volume(volume) ==> {
            &&& volume.region is None
            &&& volume.source_pane is None
            &&& volume.rendered_for is None
            &&& volume.camera@.legal()
        },
{
}

/// Letting go of textures keeps all that is needed to draw them again.
pub proof fn law_release_drops_only_textures(content: PaneContent)
    ensures
        content is MapView ==> content.released() == content,
        content is Volume ==> content.released() == content,
        content matches PaneContent::CrossSection(section) ==> {
            &&& content.released() is CrossSection
            &&& content.released()->CrossSection_0.texture is None
            &&& content.released()->CrossSection_0.line == section.line
            &&& content.released()->CrossSection_0.section == section.section
            &&& content.released()->CrossSection_0.rendered_for == section.rendered_for
            &&& content.released()->CrossSection_0.source_pane == section.source_pane
            &&& content.released()->CrossSection_0.unavailable == section.unavailable
            &&& content.released()->CrossSection_0.detail_open == section.detail_open
        },
{
}

/// A 3D view's box is twice as wide as its region reaches each way, and that of a view
/// without a region is 460 kilometres wide.
pub proof fn law_box_is_as_wide_as_its_region(volume: VolumePane)
    ensures
        volume.region matches Some(region) ==> volume.box_half_width() == region.half_width(),
        volume.region is None ==> 2 * volume.box_half_width() == 460_000_000,
{
}

/// A new 3D view looks from above the south-west, a little way out, at the middle of a
/// box stretched threefold.
pub proof fn law_new_view_looks_at_the_middle(volume: VolumePane)
    requires
        volume.is_initial(),
    ensures
        volume.camera@.yaw == 225_000_000,
        volume.camera@.pitch == 25_000_000,
        volume.camera@.eye_distance == 2_500_000,
        volume.camera@.exaggeration == 3_000_000,
        volume.camera@.pivot == (Pivot { x: 0, y: 0, z: 0 }),
        volume.view_mode == VolumeViewMode::LitVolume,
        !volume.hide_floor,
{
}

/// A pane that cannot cut its section says so, and names the product where that is why.
pub proof fn law_empty_section_says_why(why: SectionUnavailable, name: Seq<char>)
    ensures
        why.text(name).len() > 0,
        why is ProductHasNoVerticalStructure || why is ProductMissingFromVolume
            ==> crate::text::holds_text(why.text(name), name),
{
    reveal_strlit(
        "Downloading this site's first volume - the section appears the moment it lands",
    );
    reveal_strlit(
        "This volume was joined mid-scan and its coverage pattern has not arrived yet, so there is no tilt ladder to cut along. It will appear on the next volume.",
    );
    reveal_strlit("The cross-section could not be cut from this volume");
    reveal_strlit(
        " has no vertical structure to slice - pick a moment the radar measures tilt by tilt",
    );
    reveal_strlit("This volume carries no ");
    let tail =
        " has no vertical structure to slice - pick a moment the radar measures tilt by tilt"@;
    let head = "This volume carries no "@;
    let end =
        " to cut - the section appears as soon as one that does arrives. Storm-relative velocity also needs a motion vector, from the volume's own winds or the override."@;
    if why is ProductHasNoVerticalStructure {
        crate::text::law_holding_is_having_inside(name, name, Seq::empty(), tail);
        assert(Seq::<char>::empty() + name + tail =~= name + tail);
    }
    if why is ProductMissingFromVolume {
        crate::text::law_holding_is_having_inside(name, name, head, end);
    }
}

} // verus!
