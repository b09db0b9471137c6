//! What the chrome around the maps shows, and the steps of a frame.

use vstd::prelude::*;
use crate::actions::{requests, GuiAction, Request};
use crate::content::PaneContent;
use crate::gui::{Gui, Platform, Popups, Settings, WidthClass};
use crate::measure::Measure;
use crate::overlays::{LayerHandlers, OverlayKind};
use crate::pane::{is_picked, pick_tilt, PaneState};
use crate::stamp::{Age, Stamp};
use crate::status::{data_line, hover_info, poll_hover, poll_label, scan_line, text_of, HoverInfo};
use crate::text::joined;

verus! {

/// What the status bar shows of the archive poll.
pub enum PollBlock {
    /// A download is running, and there is room to say so.
    Downloading,
    /// A download is running, and there is room for a spinner alone.
    Spinner,
    /// The control that turns polling on and off, and what hovering over it
    /// explains.
    Control { label: String, hover: Option<String> },
    /// There is no room.
    Nothing,
}

/// What the status bar shows.
pub struct StatusBar {
    /// Whether the refresh button can be pressed.
    pub refresh: bool,
    pub poll: PollBlock,
    pub scan: String,
    pub data: Option<String>,
    /// What the pointer reads out, where there is a pointer.
    pub hover: Option<HoverInfo>,
    pub error: Option<String>,
}

/// The texts that the status bar shows, written by the caller in the user's
/// time zone and number format.
pub struct StatusTexts {
    /// The elevation of the tilt that the real-time feed reports on.
    pub elevation: String,
    /// The time of the active pane's scan.
    pub scan_time: String,
    /// The time of the data on the active pane's screen.
    pub data_time: String,
}

impl Gui {
    /// When the data on the active pane's screen was collected.
    pub open spec fn data_moment(self) -> Option<Stamp> {
        let pane = self.panes@[self.active_pane as int];
        if pane.loop_state.active() {
            if pane.loop_state.current_frame < pane.loop_state.frames@.len() {
                Some(pane.loop_state.frames@[pane.loop_state.current_frame as int].timestamp)
            } else {
                None
            }
        } else {
            pane.data_time
        }
    }

    /// Whether a poll block is the one the status bar shows.
    pub open spec fn shows_poll(self, block: PollBlock, elevation: Seq<char>, now: int) -> bool {
        if self.platform.width != WidthClass::Compact {
            if self.radar.fetching {
                block is Downloading
            } else {
                &&& block is Control
                &&& block->label@ == crate::status::poll_words(
                    self.auto_poll,
                    self.feed.chunk_status,
                    elevation,
                    now,
                )
                &&& text_of(block->hover) == crate::status::poll_hover_words(
                    self.feed.chunk_status,
                )
            }
        } else if self.radar.fetching {
            block is Spinner
        } else {
            block is Nothing
        }
    }

    fn poll_block(&self, elevation: &str, now: u64) -> (r: PollBlock)
        ensures
            self.shows_poll(r, elevation@, now as int),
    {
        if self.platform.width != WidthClass::Compact {
            if self.radar.fetching {
                PollBlock::Downloading
            } else {
                PollBlock::Control {
                    label: poll_label(&self.auto_poll, &self.feed.chunk_status, elevation, now),
                    hover: poll_hover(&self.feed.chunk_status),
                }
            }
        } else if self.radar.fetching {
            PollBlock::Spinner
        } else {
            PollBlock::Nothing
        }
    }

    /// What the status bar shows. The long forms and the poll control need room,
    /// which a compact width has not; the readout needs a pointer, which has
    /// nothing to do with the width.
    pub fn status_bar(&self, texts: &StatusTexts, pointer: bool, now: u64, clock: Stamp) -> (r:
        StatusBar)
        requires
            self.wf(),
        ensures
            r.refresh == !self.radar.fetching,
            self.shows_poll(r.poll, texts.elevation@, now as int),
            r.scan@ == crate::status::scan_words(
                self.panes@[self.active_pane as int].scan_info,
                texts.scan_time@,
                self.platform.width != WidthClass::Compact,
            ),
            r.data is Some <==> self.data_moment() is Some,
            r.data matches Some(text) ==> exists|age: Age|
                {
                    &&& age.regular()
                    &&& #[trigger] age.total() == crate::stamp::nanos_between(
                        self.data_moment()->0.seconds() as int,
                        self.data_moment()->0.nanoseconds() as int,
                        clock.seconds() as int,
                        clock.nanoseconds() as int,
                    )
                    &&& text@ == crate::status::data_words(
                        age,
                        texts.data_time@,
                        self.platform.width != WidthClass::Compact,
                    )
                },
            r.hover is Some <==> pointer,
            r.hover matches Some(info) ==> {
                &&& text_of(info.value) == crate::status::first_text(
                    self.shown_panes().map_values(|p: PaneState| p.hover_value),
                )
                &&& text_of(info.overlay) == crate::status::first_text(
                    self.shown_panes().map_values(|p: PaneState| p.overlay_hover_value),
                )
            },
            text_of(r.error) == text_of(self.radar.error_message),
    {
        let roomy: bool = self.platform.width != WidthClass::Compact;
        let pane: &PaneState = &self.panes[self.active_pane];
        let scan = match &pane.scan_info {
            Some(scan) => Some(scan),
            None => None,
        };
        StatusBar {
            refresh: !self.radar.fetching,
            poll: self.poll_block(texts.elevation.as_str(), now),
            scan: scan_line(scan, texts.scan_time.as_str(), roomy),
            data: data_line(
                pane.data_time_on_screen(),
                texts.data_time.as_str(),
                clock,
                roomy,
            ),
            hover: if pointer {
                Some(hover_info(self.panes()))
            } else {
                None
            },
            error: self.radar.error_message.clone(),
        }
    }

    /// What is asked for once the refresh button is pressed.
    pub open spec fn asked_by_refresh(self, asked: Seq<Request>) -> Seq<Request> {
        if self.radar.fetching {
            asked
        } else {
            asked.push(
                Request::Scan {
                    site: self.panes@[self.active_pane as int].site@,
                    at: self.radar.config.timestamp,
                },
            )
        }
    }

    /// Ask for the active pane's scan anew: what the refresh button does.
    pub fn refresh(&self, actions: &mut Vec<GuiAction>)
        requires
            self.wf(),
        ensures
            requests(final(actions)@) == self.asked_by_refresh(requests(old(actions)@)),
            requests(final(actions)@) == if self.radar.fetching {
                requests(old(actions)@)
            } else {
                requests(old(actions)@).push(
                    Request::Scan {
                        site: self.panes@[self.active_pane as int].site@,
                        at: self.radar.config.timestamp,
                    },
                )
            },
    {
        if !self.radar.fetching {
            let action: GuiAction = GuiAction::FetchRadarScan(self.active_pane_fetch_config());
            proof {
                crate::actions::lemma_requests_push(actions@, action);
            }
            actions.push(action);
        }
    }

    /// Whether the time dialog floats over the maps; a compact width has its own
    /// page for it.
    pub fn time_dialog_floats(&self) -> (r: bool)
        ensures
            r == (self.time_dialog.show && self.platform.width != WidthClass::Compact),
    {
        self.time_dialog.show && self.platform.width != WidthClass::Compact
    }
}

/// How a pane offers its tilts.
#[derive(Clone, Copy, Debug, PartialEq, Eq, Structural)]
pub enum TiltControl {
    /// There is no tilt to pick.
    Absent,
    /// The product has no tilts yet: the selection stands, and nothing can be
    /// picked.
    Waiting(Measure),
    /// The tilt that the selection picks, in millionths of a degree, with the
    /// others to pick from.
    Pick(i64),
}

/// What a pane offers of its radar.
#[derive(Clone, Copy, Debug, PartialEq, Eq, Structural)]
pub enum RadarControls {
    /// Nothing: the map does not draw its radar.
    Hidden,
    /// That there is no scan.
    NoScan,
    /// The products of the scan, and the tilts.
    Offered(TiltControl),
}

/// Whether a tilt control is the one a pane offers: none where the pane reads
/// whole volumes or the scan does not list the product.
pub open spec fn offers_tilt(pane: PaneState, control: TiltControl) -> bool {
    let listed = pane.scan_info->0.product_elevations@;
    if pane.kind_of().view_of().whole_volume() || !listed.contains_key(pane.selected_product) {
        control is Absent
    } else {
        let tilts = listed[pane.selected_product]@;
        if tilts.len() == 0 {
            control == TiltControl::Waiting(pane.selected_elevation)
        } else {
            control is Pick && is_picked(tilts, pane.selected_elevation, control->Pick_0)
        }
    }
}

/// Whether these are what a pane offers of its radar.
pub open spec fn offers_radar(pane: PaneState, controls: RadarControls) -> bool {
    if pane.content is MapView && !pane.overlay_on(OverlayKind::Radar) {
        controls is Hidden
    } else if pane.scan_info is None {
        controls is NoScan
    } else {
        controls is Offered && offers_tilt(pane, controls->Offered_0)
    }
}

/// What a pane offers of its radar. A map whose radar layer is off offers
/// nothing; a pane without a map always offers its product.
pub fn radar_controls(pane: &PaneState) -> (r: RadarControls)
    ensures
        offers_radar(*pane, r),
        match r {
            RadarControls::Hidden => pane.content is MapView && !pane.overlay_on(
                OverlayKind::Radar,
            ),
            RadarControls::NoScan => !(pane.content is MapView && !pane.overlay_on(
                OverlayKind::Radar,
            )) && pane.scan_info is None,
            RadarControls::Offered(control) => {
                &&& !(pane.content is MapView && !pane.overlay_on(OverlayKind::Radar))
                &&& pane.scan_info is Some
                &&& offers_tilt(*pane, control)
            },
        },
{
    if pane.is_map() && !pane.is_overlay_enabled(OverlayKind::Radar) {
        return RadarControls::Hidden;
    }
    match &pane.scan_info {
        None => RadarControls::NoScan,
        Some(scan) => {
            if pane.kind().consumes_whole_volume() {
                return RadarControls::Offered(TiltControl::Absent);
            }
            match scan.product_elevations.get(pane.selected_product) {
                None => RadarControls::Offered(TiltControl::Absent),
                Some(tilts) => {
                    if tilts.len() == 0 {
                        RadarControls::Offered(TiltControl::Waiting(pane.selected_elevation))
                    } else {
                        let picked: i64 = pick_tilt(tilts, pane.selected_elevation);
                        RadarControls::Offered(TiltControl::Pick(picked))
                    }
                },
            }
        },
    }
}

/// What the sidebar says of the line a section pane cuts along, `length` being
/// its length as it is written.
pub open spec fn line_words(pane: PaneState, length: Seq<char>) -> Seq<char> {
    match pane.content {
        PaneContent::CrossSection(section) => if section.line is Some {
            "A - B: "@ + length
        } else {
            "No line drawn yet"@
        },
        _ => "No line drawn yet"@,
    }
}

/// What the sidebar says of the line a section pane cuts along.
pub fn section_line_label(pane: &PaneState, length: &str) -> (r: String)
    ensures
        r@ == line_words(*pane, length@),
{
    match pane.cross_section() {
        Some(section) => if section.line.is_some() {
            joined("A - B: ", length)
        } else {
            String::from_str("No line drawn yet")
        },
        None => String::from_str("No line drawn yet"),
    }
}

impl Gui {
    /// The interface without an edit of the storm motion whose panel is closed.
    pub open spec fn steadied(self) -> Gui {
        Gui {
            settings: Settings {
                storm_motion_editing: self.settings.storm_motion_editing && self.shows_settings(),
                ..self.settings
            },
            ..self
        }
    }

    /// The interface at this width. The menu page does not outlive the width
    /// that shows it.
    pub open spec fn fitted(self, width: WidthClass) -> Gui {
        Gui {
            platform: Platform { width, ..self.platform },
            popups: Popups {
                menu_open: self.popups.menu_open && width == WidthClass::Compact,
                ..self.popups
            },
            ..self
        }
    }

    fn steady(&mut self)
        ensures
            *final(self) == old(self).steadied(),
    {
        if !self.settings_visible() {
            self.settings.storm_motion_editing = false;
        }
    }

    fn fit(&mut self, width: WidthClass)
        ensures
            *final(self) == old(self).fitted(width),
    {
        self.platform.width = width;
        if width != WidthClass::Compact {
            self.popups.menu_open = false;
        }
    }

    /// The interface once a frame has started at this width.
    pub open spec fn frame_begun(self, now: u64, width: WidthClass) -> Gui {
        self.steadied().polled(now).fitted(width)
    }

    /// Start a frame at this width: drop what the last one left hanging, and ask
    /// for what is due.
    pub fn begin_frame(
        &mut self,
        now: u64,
        clock: Stamp,
        width: WidthClass,
        actions: &mut Vec<GuiAction>,
    )
        requires
            old(self).wf(),
        ensures
            *final(self) == old(self).frame_begun(now, width),
            *final(self) == old(self).steadied().polled(now).fitted(width),
            exists|at: Stamp|
                {
                    &&& #[trigger] at.seconds() == clock.seconds() - clock.seconds() % 60
                    &&& at.nanoseconds() == 0
                    &&& requests(final(actions)@) == requests(old(actions)@) + old(
                        self,
                    ).steadied().poll_requests(now, at)
                },
            final(self).wf(),
    {
        self.steady();
        self.check_auto_polls(now, clock, actions);
        self.fit(width);
    }

    /// Whether `after` is this interface once what a frame asked of its panes is
    /// done: first a conversion, then a drawn line, then an edited one.
    pub open spec fn gestures_settled(self, after: Gui) -> bool {
        exists|converted: Gui, aimed: Gui|
            {
                &&& #[trigger] self.kind_applied(converted)
                &&& #[trigger] converted.line_landed(aimed)
                &&& aimed.edit_landed(after)
            }
    }

    /// Do what a frame asked of its panes, once they are all drawn. An edited
    /// line comes last, so that it would win.
    pub fn settle_gestures(&mut self, actions: &mut Vec<GuiAction>)
        requires
            old(self).wf(),
        ensures
            old(self).gestures_settled(*final(self)),
            requests(final(actions)@) == requests(old(actions)@) + old(self).kind_requests(),
            final(self).wf(),
    {
        self.apply_pending_pane_kind(actions);
        let ghost converted = *self;
        self.apply_pending_section_line();
        let ghost aimed = *self;
        self.apply_pending_section_edit();
        assert(old(self).kind_applied(converted));
        assert(converted.line_landed(aimed));
    }

    /// Whether `after` is this interface with the handlers on the active pane's
    /// settings.
    pub open spec fn handlers_settled(self, after: Gui) -> bool {
        &&& after.overlays.settings@ == self.overlays.settings@.union_prefer_right(
            self.panes@[self.active_pane as int].overlay_configs@,
        )
        &&& after == (Gui {
            overlays: LayerHandlers { settings: after.overlays.settings, ..self.overlays },
            ..self
        })
    }

    /// Leave the handlers on the active pane's settings at the end of a frame,
    /// for the requests that are served after it.
    pub fn settle_handlers(&mut self)
        requires
            old(self).wf(),
        ensures
            old(self).handlers_settled(*final(self)),
            final(self).overlays.settings@ == old(self).overlays.settings@.union_prefer_right(
                old(self).panes@[old(self).active_pane as int].overlay_configs@,
            ),
            *final(self) == (Gui {
                overlays: LayerHandlers {
                    settings: final(self).overlays.settings,
                    ..old(self).overlays
                },
                ..*old(self)
            }),
            final(self).wf(),
    {
        let configs = crate::overlays::copy_configs(&self.panes[self.active_pane].overlay_configs);
        self.overlays.load_pane_configs(&configs);
    }
}

/// The data on screen is from the moment of the frame at the playhead while an
/// animation runs, from none where it has no frame there, and from the static
/// render's moment otherwise.
pub proof fn law_data_on_screen_is_of_its_frame(state: Gui)
    ensures
        ({
            let pane = state.panes@[state.active_pane as int];
            let at = pane.loop_state.current_frame as int;
            &&& pane.loop_state.phase == crate::loop_state::LoopPhase::Inactive
                ==> state.data_moment() == pane.data_time
            &&& pane.loop_state.phase != crate::loop_state::LoopPhase::Inactive && at
                < pane.loop_state.frames@.len() ==> state.data_moment() == Some(
                pane.loop_state.frames@[at].timestamp,
            )
            &&& pane.loop_state.phase != crate::loop_state::LoopPhase::Inactive && at
                >= pane.loop_state.frames@.len() ==> state.data_moment() is None
        }),
{
}

/// A running download is said so where there is room and spun where there is none;
/// the control that turns polling on and off is there while nothing is downloading
/// and there is room for it.
pub proof fn law_poll_block_fits_the_width(
    state: Gui,
    block: PollBlock,
    elevation: Seq<char>,
    now: int,
)
    requires
        state.shows_poll(block, elevation, now),
    ensures
        block is Downloading <==> state.radar.fetching && state.platform.width
            != WidthClass::Compact,
        block is Spinner <==> state.radar.fetching && state.platform.width == WidthClass::Compact,
        block is Control <==> !state.radar.fetching && state.platform.width
            != WidthClass::Compact,
        block is Nothing <==> !state.radar.fetching && state.platform.width == WidthClass::Compact,
{
}

/// A map whose product the scan lists offers its tilts, the one that its selection
/// picks first; a pane that reads whole volumes offers none.
pub proof fn law_only_maps_offer_tilts(pane: PaneState, control: TiltControl)
    requires
        pane.scan_info is Some,
        offers_tilt(pane, control),
    ensures
        ({
            let listed = pane.scan_info->0.product_elevations@;
            &&& !(pane.content is MapView) ==> control is Absent
            &&& !listed.contains_key(pane.selected_product) ==> control is Absent
            &&& pane.content is MapView && listed.contains_key(pane.selected_product) ==> {
                let tilts = listed[pane.selected_product]@;
                &&& tilts.len() == 0 ==> control == TiltControl::Waiting(pane.selected_elevation)
                &&& tilts.len() > 0 ==> control is Pick && tilts.contains(control->Pick_0)
                &&& tilts.len() > 0 ==> pane.renders_at(Measure::Micro(control->Pick_0))
            }
        }),
{
    let listed = pane.scan_info->0.product_elevations@;
    if pane.content is MapView && listed.contains_key(pane.selected_product) {
        let tilts = listed[pane.selected_product]@;
        if tilts.len() > 0 {
            let angle = control->Pick_0;
            if let Measure::Micro(selection) = pane.selected_elevation {
                crate::pane::law_nearest_tilt_is_nearest(tilts, selection, angle, 0);
            } else {
                assert(tilts[0] == angle);
            }
        }
    }
}

/// The sidebar gives the length of the line a section is aimed along, and says of
/// every other pane that none is drawn.
pub proof fn law_sidebar_names_the_line(pane: PaneState, length: Seq<char>)
    ensures
        pane.content is CrossSection && pane.content->CrossSection_0.line is Some ==> line_words(
            pane,
            length,
        ) == "A - B: "@ + length,
        !(pane.content is CrossSection) || pane.content->CrossSection_0.line is None
            ==> line_words(pane, length) == "No line drawn yet"@,
{
}

/// An edit of the storm motion lasts while its panel is on screen, and a new width
/// takes the menu page away unless it is a phone's. Nothing else changes.
pub proof fn law_frame_starts_tidy(state: Gui, width: WidthClass)
    ensures
        state.steadied().settings.storm_motion_editing == (state.settings.storm_motion_editing
            && state.panels.insp_open && state.panels.inspector_sel
            == crate::gui::InspectorSelection::AppSettings),
        state.steadied().settings.storm_motion_override == state.settings.storm_motion_override,
        state.steadied().panes == state.panes,
        state.steadied().panels == state.panels,
        state.fitted(width).platform.width == width,
        state.fitted(width).popups.menu_open == (state.popups.menu_open && width
            == WidthClass::Compact),
        state.fitted(width).popups.catalog_open == state.popups.catalog_open,
        state.fitted(width).popups.ui_faded == state.popups.ui_faded,
        state.fitted(width).panes == state.panes,
        state.fitted(width).settings == state.settings,
{
}

/// A frame that was asked for nothing changes no pane; one that was asked for a
/// conversion alone makes it; one that a line was drawn in ends with a section aimed
/// along it, unless the end of a line was dropped too.
pub proof fn law_frame_does_what_it_was_asked(before: Gui, after: Gui)
    requires
        before.wf(),
        before.gestures_settled(after),
    ensures
        before.gestures.pending_pane_kind is None && before.gestures.pending_section_line is None
            && before.gestures.pending_section_edit is None ==> after == before,
        before.gestures.pending_section_line is None && before.gestures.pending_section_edit
            is None && before.gestures.pending_pane_kind is Some ==> {
            let asked = before.gestures.pending_pane_kind->0;
            asked.pane_idx < before.panes@.len()
                ==> after.panes@[asked.pane_idx as int].kind_of() == asked.kind
        },
        before.gestures.pending_section_edit is None && before.gestures.pending_section_line is Some
            && before.gestures.pending_section_line->0.pane_idx < before.panes@.len() ==> {
            &&& after.active_pane < after.panes@.len()
            &&& after.panes@[after.active_pane as int].content is CrossSection
            &&& after.panes@[after.active_pane as int].content->CrossSection_0.line == Some(
                before.gestures.pending_section_line->0.line,
            )
        },
{
    let (converted, aimed) = choose|converted: Gui, aimed: Gui|
        {
            &&& #[trigger] before.kind_applied(converted)
            &&& #[trigger] converted.line_landed(aimed)
            &&& aimed.edit_landed(after)
        };
    if before.gestures.pending_section_line is Some
        && before.gestures.pending_section_line->0.pane_idx < before.panes@.len() {
        crate::retarget::law_drawn_line_lands(converted, aimed);
        lemma_line_keeps_edit(converted, aimed);
    }
}

proof fn lemma_line_keeps_edit(before: Gui, after: Gui)
    requires
        before.line_landed(after),
    ensures
        after.gestures.pending_section_edit == before.gestures.pending_section_edit,
{
    if let Some(drawn) = before.gestures.pending_section_line {
        if drawn.pane_idx < before.panes@.len() {
            let calm = Gui {
                gestures: crate::gui::Gestures { pending_section_line: None, ..before.gestures },
                ..before
            };
            let target = calm.landing_index(drawn.pane_idx);
            let room = choose|room: Gui| #[trigger]
                calm.makes_room(drawn.pane_idx, room) && {
                    &&& 0 <= target < room.panes@.len()
                    &&& after == (Gui { panes: after.panes, active_pane: target as usize, ..room })
                    &&& after.panes@ == room.panes@.update(target, after.panes@[target])
                    &&& crate::retarget::aimed_along(
                        room.panes@[target],
                        before.panes@[drawn.pane_idx as int],
                        drawn.pane_idx,
                        drawn.line,
                        after.panes@[target],
                    )
                };
            assert(room.gestures == calm.gestures);
        }
    }
}

/// The refresh button asks for the scan of the pane in front, at the moment that is set,
/// and for nothing while a fetch is in flight.
pub proof fn law_refresh_asks_for_the_front_pane(state: Gui, asked: Seq<Request>)
    ensures
        state.radar.fetching ==> state.asked_by_refresh(asked) == asked,
        !state.radar.fetching ==> {
            let after = state.asked_by_refresh(asked);
            &&& after.len() == asked.len() + 1
            &&& asked.is_prefix_of(after)
            &&& after.last() == (Request::Scan {
                site: state.panes@[state.active_pane as int].site@,
                at: state.radar.config.timestamp,
            })
        },
{
}

/// A map that does not draw its radar offers nothing of it, whatever else it knows; any
/// other pane offers what its scan has, or says that there is none.
pub proof fn law_radar_is_offered_where_it_is_drawn(pane: PaneState, controls: RadarControls)
    requires
        offers_radar(pane, controls),
    ensures
        controls is Hidden <==> pane.content is MapView && !(
        pane.enabled_overlays@.contains_key(OverlayKind::Radar)
            && pane.enabled_overlays@[OverlayKind::Radar]),
        !(pane.content is MapView) && pane.scan_info is None ==> controls is NoScan,
        !(pane.content is MapView) && pane.scan_info is Some ==> controls
            == RadarControls::Offered(TiltControl::Absent),
        controls is Offered ==> pane.scan_info is Some,
{
}

/// The end of a line that was dropped is where the line ends after the frame, on the
/// section it belongs to.
pub proof fn law_dropped_end_is_kept(before: Gui, after: Gui)
    requires
        before.gestures_settled(after),
        before.gestures.pending_pane_kind is None,
        before.gestures.pending_section_line is None,
        before.gestures.pending_section_edit is Some,
        before.gestures.pending_section_edit->0.pane_idx < before.panes@.len(),
        before.panes@[before.gestures.pending_section_edit->0.pane_idx as int].content
            is CrossSection,
    ensures
        ({
            let edit = before.gestures.pending_section_edit->0;
            let pane = after.panes@[edit.pane_idx as int];
            &&& pane.content is CrossSection
            &&& pane.content->CrossSection_0.line == Some(edit.line)
            &&& after.gestures.pending_section_edit is None
            &&& after.active_pane == before.active_pane
        }),
{
    let (converted, aimed) = choose|converted: Gui, aimed: Gui|
        {
            &&& #[trigger] before.kind_applied(converted)
            &&& #[trigger] converted.line_landed(aimed)
            &&& aimed.edit_landed(after)
        };
    assert(converted == before);
    assert(aimed == before);
}

/// A frame ends with the handlers on the settings of the pane in front, and keeps theirs for
/// a layer that the pane has none for.
pub proof fn law_handlers_end_on_the_front_pane(before: Gui, after: Gui, kind: OverlayKind)
    requires
        before.handlers_settled(after),
    ensures
        ({
            let own = before.panes@[before.active_pane as int].overlay_configs@;
            &&& own.contains_key(kind) ==> after.overlays.settings@.contains_key(kind)
                && after.overlays.settings@[kind] == own[kind]
            &&& !own.contains_key(kind) && before.overlays.settings@.contains_key(kind)
                ==> after.overlays.settings@.contains_key(kind) && after.overlays.settings@[kind]
                == before.overlays.settings@[kind]
            &&& after.panes == before.panes
            &&& after.overlays.feeds == before.overlays.feeds
        }),
{
}

/// A frame starts at its width, with a first fetch of the session under way unless one was
/// made, and with every pane as it was.
pub proof fn law_frame_starts_at_its_width(state: Gui, now: u64, width: WidthClass)
    ensures
        ({
            let after = state.frame_begun(now, width);
            &&& after.platform.width == width
            &&& after.panes == state.panes
            &&& after.overlays == state.overlays
            &&& after.gestures == state.gestures
            &&& after.active_pane == state.active_pane
            &&& !state.auto_poll.initial_fetch_done && !state.radar.fetching
                ==> after.radar.fetching && after.auto_poll.initial_fetch_done
            &&& state.radar.fetching ==> after.radar == state.radar && after.auto_poll
                == state.auto_poll
            &&& after.popups.menu_open ==> width is Compact
        }),
{
}

} // verus!
