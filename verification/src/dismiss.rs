//! Armed drags, and what a back press closes.

use vstd::prelude::*;
use crate::gui::{
    FeatureSelection, Gestures, Gui, InspectorSelection, Panels, Popups, ScreenPoint, SheetPage,
    TimeDialogState, WidthClass,
};

verus! {

/// Something a back press can close, topmost first.
#[derive(Clone, Copy, Debug, PartialEq, Eq, Structural)]
pub enum TopLayer {
    /// A section line's end being dragged.
    HandleDrag,
    /// The faded-away chrome.
    Fade,
    /// The menu's dropdown.
    MenuPopup,
    /// The Add-layer catalog.
    Catalog,
    /// The feature popup.
    Feature,
    /// The Set Time dialog.
    Time,
    /// The phone's menu page.
    Menu,
    /// The inspector.
    Inspector,
    /// The layers drawer.
    Drawer,
    /// The armed section draw.
    SectionDraw,
    /// The armed region drag.
    RegionDrag,
}

impl SheetPage {
    /// The layer this page presents.
    pub open spec fn layer(self) -> TopLayer {
        match self {
            SheetPage::Feature => TopLayer::Feature,
            SheetPage::Time => TopLayer::Time,
            SheetPage::Catalog => TopLayer::Catalog,
            SheetPage::Menu => TopLayer::Menu,
            SheetPage::Inspector => TopLayer::Inspector,
            SheetPage::Layers => TopLayer::Drawer,
        }
    }
}

impl Gestures {
    /// These gestures with the region drag armed or disarmed.
    pub open spec fn region_arming(self, on: bool) -> Gestures {
        if on {
            Gestures {
                region_arm: true,
                section_draw_armed: false,
                section_anchor: None,
                section_edit_drag: None,
                ..self
            }
        } else {
            Gestures { region_arm: false, region_drag: None, ..self }
        }
    }

    /// These gestures with the section draw armed or disarmed.
    pub open spec fn section_arming(self, on: bool) -> Gestures {
        if on {
            Gestures {
                section_draw_armed: true,
                region_arm: false,
                region_drag: None,
                section_edit_drag: None,
                ..self
            }
        } else {
            Gestures { section_draw_armed: false, section_anchor: None, ..self }
        }
    }
}

impl Gui {
    /// Whether this layer is there to be closed.
    pub open spec fn layer_open(self, layer: TopLayer) -> bool {
        match layer {
            TopLayer::HandleDrag => self.gestures.section_edit_drag is Some,
            TopLayer::Fade => self.popups.ui_faded,
            TopLayer::MenuPopup => self.popups.menu_popup_open,
            TopLayer::Catalog => self.popups.catalog_open,
            TopLayer::Feature => self.features.ids@.len() > 0,
            TopLayer::Time => self.time_dialog.show,
            TopLayer::Menu => self.popups.menu_open,
            TopLayer::Inspector => self.panels.insp_open,
            TopLayer::Drawer => self.panels.drawer_open,
            TopLayer::SectionDraw => self.gestures.section_draw_armed,
            TopLayer::RegionDrag => self.gestures.region_arm,
        }
    }

    /// The topmost layer that is painted over the map, below the dropdown. On a
    /// phone every one of them is a page of the sheet, and the page that shows
    /// is the one on top.
    pub open spec fn top_painted(self, sheet_top: Option<SheetPage>) -> Option<TopLayer> {
        if self.platform.width == WidthClass::Compact {
            match sheet_top {
                Some(page) => Some(page.layer()),
                None => None,
            }
        } else if self.popups.catalog_open {
            Some(TopLayer::Catalog)
        } else if self.features.ids@.len() > 0 {
            Some(TopLayer::Feature)
        } else if self.time_dialog.show {
            Some(TopLayer::Time)
        } else if self.popups.menu_open {
            Some(TopLayer::Menu)
        } else if self.panels.insp_open {
            Some(TopLayer::Inspector)
        } else if self.panels.drawer_open {
            Some(TopLayer::Drawer)
        } else {
            None
        }
    }

    /// The layer a back press is aimed at: the drag in hand, the fade, the
    /// dropdown, whatever is painted on top, and last an armed drag.
    pub open spec fn top_layer(self, sheet_top: Option<SheetPage>) -> Option<TopLayer> {
        if self.gestures.section_edit_drag is Some {
            Some(TopLayer::HandleDrag)
        } else if self.popups.ui_faded {
            Some(TopLayer::Fade)
        } else if self.popups.menu_popup_open {
            Some(TopLayer::MenuPopup)
        } else if self.top_painted(sheet_top) is Some {
            self.top_painted(sheet_top)
        } else if self.gestures.section_draw_armed {
            Some(TopLayer::SectionDraw)
        } else if self.gestures.region_arm {
            Some(TopLayer::RegionDrag)
        } else {
            None
        }
    }

    /// Whether `after` is the interface with this one layer closed and nothing
    /// else touched.
    pub open spec fn closed(self, layer: TopLayer, after: Gui) -> bool {
        match layer {
            TopLayer::HandleDrag => after == (Gui {
                gestures: Gestures { section_edit_drag: None, ..self.gestures },
                ..self
            }),
            TopLayer::Fade => after == (Gui {
                popups: Popups { ui_faded: false, ..self.popups },
                ..self
            }),
            TopLayer::MenuPopup => after == (Gui {
                popups: Popups {
                    menu_popup_open: false,
                    menu_popup_close_requested: true,
                    ..self.popups
                },
                ..self
            }),
            TopLayer::Catalog => after == (Gui {
                popups: Popups { catalog_open: false, ..self.popups },
                ..self
            }),
            TopLayer::Feature => {
                &&& after == (Gui { features: after.features, ..self })
                &&& after.features.ids@.len() == 0
                &&& after.features.page == 0
            },
            TopLayer::Time => after == (Gui {
                time_dialog: TimeDialogState { show: false, ..self.time_dialog },
                ..self
            }),
            TopLayer::Menu => after == (Gui {
                popups: Popups { menu_open: false, ..self.popups },
                ..self
            }),
            TopLayer::Inspector => after == (Gui {
                panels: Panels {
                    insp_open: false,
                    inspector_sel: InspectorSelection::AppSettings,
                    ..self.panels
                },
                ..self
            }),
            TopLayer::Drawer => after == (Gui {
                panels: Panels { drawer_open: false, ..self.panels },
                ..self
            }),
            TopLayer::SectionDraw => after == (Gui {
                gestures: self.gestures.section_arming(false),
                ..self
            }),
            TopLayer::RegionDrag => after == (Gui {
                gestures: self.gestures.region_arming(false),
                ..self
            }),
        }
    }

    /// Arm or disarm the region drag. Disarming throws away a drag in flight;
    /// arming turns the section draw off, since one drag cannot be two gestures.
    pub fn set_region_arm(&mut self, on: bool)
        ensures
            *final(self) == (Gui { gestures: old(self).gestures.region_arming(on), ..*old(self) }),
    {
        let mut gestures: Gestures = self.gestures;
        gestures.region_arm = on;
        if on {
            gestures.section_draw_armed = false;
            gestures.section_anchor = None;
            gestures.section_edit_drag = None;
        } else {
            gestures.region_drag = None;
        }
        self.gestures = gestures;
    }

    /// Whether the cross-section draw is armed.
    pub fn section_draw_armed(&self) -> (r: bool)
        ensures
            r == self.gestures.section_draw_armed,
    {
        self.gestures.section_draw_armed
    }

    /// Arm or disarm the cross-section draw. Disarming drops a half-drawn line;
    /// arming turns the region drag off.
    pub fn set_section_draw_armed(&mut self, armed: bool)
        ensures
            *final(self) == (Gui {
                gestures: old(self).gestures.section_arming(armed),
                ..*old(self)
            }),
    {
        let mut gestures: Gestures = self.gestures;
        gestures.section_draw_armed = armed;
        if armed {
            gestures.region_arm = false;
            gestures.region_drag = None;
            gestures.section_edit_drag = None;
        } else {
            gestures.section_anchor = None;
        }
        self.gestures = gestures;
    }

    /// The rubber band to draw on a pane, if there is one.
    pub open spec fn rubber_band(self, pane_idx: usize) -> Option<(ScreenPoint, ScreenPoint)> {
        match self.gestures.section_anchor {
            Some(anchor) => if anchor.pane_idx == pane_idx {
                Some((anchor.screen, anchor.current))
            } else {
                None
            },
            None => None,
        }
    }

    /// The rubber band to draw on a pane, or `None`.
    pub fn section_rubber_band(&self, pane_idx: usize) -> (r: Option<(ScreenPoint, ScreenPoint)>)
        ensures
            r == self.rubber_band(pane_idx),
            r == match self.gestures.section_anchor {
                Some(anchor) => if anchor.pane_idx == pane_idx {
                    Some((anchor.screen, anchor.current))
                } else {
                    None
                },
                None => None,
            },
    {
        match self.gestures.section_anchor {
            Some(anchor) => {
                if anchor.pane_idx == pane_idx {
                    Some((anchor.screen, anchor.current))
                } else {
                    None
                }
            },
            None => None,
        }
    }

    /// Which layer a back press is aimed at.
    fn aimed_at(&self, sheet_top: Option<SheetPage>) -> (r: Option<TopLayer>)
        ensures
            r == self.top_layer(sheet_top),
    {
        if self.gestures.section_edit_drag.is_some() {
            return Some(TopLayer::HandleDrag);
        }
        if self.popups.ui_faded {
            return Some(TopLayer::Fade);
        }
        if self.popups.menu_popup_open {
            return Some(TopLayer::MenuPopup);
        }
        if self.platform.width == WidthClass::Compact {
            match sheet_top {
                Some(SheetPage::Feature) => {
                    return Some(TopLayer::Feature);
                },
                Some(SheetPage::Time) => {
                    return Some(TopLayer::Time);
                },
                Some(SheetPage::Catalog) => {
                    return Some(TopLayer::Catalog);
                },
                Some(SheetPage::Menu) => {
                    return Some(TopLayer::Menu);
                },
                Some(SheetPage::Inspector) => {
                    return Some(TopLayer::Inspector);
                },
                Some(SheetPage::Layers) => {
                    return Some(TopLayer::Drawer);
                },
                None => {},
            }
        } else {
            if self.popups.catalog_open {
                return Some(TopLayer::Catalog);
            }
            if self.features.ids.len() > 0 {
                return Some(TopLayer::Feature);
            }
            if self.time_dialog.show {
                return Some(TopLayer::Time);
            }
            if self.popups.menu_open {
                return Some(TopLayer::Menu);
            }
            if self.panels.insp_open {
                return Some(TopLayer::Inspector);
            }
            if self.panels.drawer_open {
                return Some(TopLayer::Drawer);
            }
        }
        if self.gestures.section_draw_armed {
            return Some(TopLayer::SectionDraw);
        }
        if self.gestures.region_arm {
            return Some(TopLayer::RegionDrag);
        }
        None
    }

    /// Close the topmost thing the user has open, and say whether there was one.
    /// Exactly one layer closes per press. `sheet_top` is the page the phone's
    /// sheet shows, if it shows one.
    pub fn dismiss_top_layer(&mut self, sheet_top: Option<SheetPage>) -> (r: bool)
        ensures
            match old(self).top_layer(sheet_top) {
                Some(layer) => r && old(self).closed(layer, *final(self)),
                None => !r && *final(self) == *old(self),
            },
    {
        let layer: TopLayer = match self.aimed_at(sheet_top) {
            Some(layer) => layer,
            None => {
                return false;
            },
        };
        match layer {
            TopLayer::HandleDrag => {
                self.gestures.section_edit_drag = None;
            },
            TopLayer::Fade => {
                self.popups.ui_faded = false;
            },
            TopLayer::MenuPopup => {
                self.popups =
                Popups { menu_popup_open: false, menu_popup_close_requested: true, ..self.popups };
            },
            TopLayer::Catalog => {
                self.popups.catalog_open = false;
            },
            TopLayer::Feature => {
                self.features = FeatureSelection { ids: Vec::new(), page: 0 };
            },
            TopLayer::Time => {
                self.time_dialog.show = false;
            },
            TopLayer::Menu => {
                self.popups.menu_open = false;
            },
            TopLayer::Inspector => {
                self.panels =
                Panels {
                    insp_open: false,
                    inspector_sel: InspectorSelection::AppSettings,
                    ..self.panels
                };
            },
            TopLayer::Drawer => {
                self.panels.drawer_open = false;
            },
            TopLayer::SectionDraw => {
                self.set_section_draw_armed(false);
            },
            TopLayer::RegionDrag => {
                self.set_region_arm(false);
            },
        }
        true
    }
}

/// Whichever drag was armed last is the only one: no arming and no back press
/// leaves both armed.
pub proof fn law_one_drag_mode(before: Gui, on: bool, layer: TopLayer, after: Gui)
    requires
        before.gestures.one_mode(),
        before.closed(layer, after),
    ensures
        before.gestures.region_arming(on).one_mode(),
        before.gestures.section_arming(on).one_mode(),
        after.gestures.one_mode(),
{
}

/// Arming one drag while the other is on turns the other off, whatever state
/// the two were in.
pub proof fn law_arming_wins(before: Gestures)
    ensures
        before.region_arming(true).region_arm && !before.region_arming(true).section_draw_armed,
        before.section_arming(true).section_draw_armed && !before.section_arming(true).region_arm,
{
}

/// A press closes the layer it is aimed at and leaves every other layer as it
/// was. On a phone the page on top has to be one that is open.
pub proof fn law_one_layer_per_press(
    before: Gui,
    sheet_top: Option<SheetPage>,
    layer: TopLayer,
    after: Gui,
    other: TopLayer,
)
    requires
        before.top_layer(sheet_top) == Some(layer),
        before.closed(layer, after),
        sheet_top matches Some(page) ==> before.layer_open(page.layer()),
    ensures
        before.layer_open(layer),
        !after.layer_open(layer),
        other != layer ==> after.layer_open(other) == before.layer_open(other),
{
}

/// A press that closes nothing found nothing open: it is a request to leave. On
/// a phone the sheet shows no page only where no page is open.
pub proof fn law_refused_press_means_nothing_open(
    state: Gui,
    sheet_top: Option<SheetPage>,
    layer: TopLayer,
)
    requires
        state.top_layer(sheet_top) is None,
        state.platform.width == WidthClass::Compact ==> (sheet_top is None ==> forall|page: SheetPage|
            !state.layer_open(#[trigger] page.layer())),
    ensures
        !state.layer_open(layer),
{
    if state.platform.width == WidthClass::Compact {
        assert(!state.layer_open(SheetPage::Feature.layer()));
        assert(!state.layer_open(SheetPage::Time.layer()));
        assert(!state.layer_open(SheetPage::Catalog.layer()));
        assert(!state.layer_open(SheetPage::Menu.layer()));
        assert(!state.layer_open(SheetPage::Inspector.layer()));
        assert(!state.layer_open(SheetPage::Layers.layer()));
    }
}

/// One for a layer that is open, and nothing for one that is not.
pub open spec fn counted(open: bool) -> int {
    if open {
        1
    } else {
        0
    }
}

impl Gui {
    /// How many layers are open.
    pub open spec fn open_layers(self) -> int {
        counted(self.layer_open(TopLayer::HandleDrag)) + counted(self.layer_open(TopLayer::Fade))
            + counted(self.layer_open(TopLayer::MenuPopup)) + counted(
            self.layer_open(TopLayer::Catalog),
        ) + counted(self.layer_open(TopLayer::Feature)) + counted(
            self.layer_open(TopLayer::Time),
        ) + counted(self.layer_open(TopLayer::Menu)) + counted(
            self.layer_open(TopLayer::Inspector),
        ) + counted(self.layer_open(TopLayer::Drawer)) + counted(
            self.layer_open(TopLayer::SectionDraw),
        ) + counted(self.layer_open(TopLayer::RegionDrag))
    }

    /// Whether a back press closes something and leads to `after`.
    pub open spec fn pressed_back(self, after: Gui) -> bool {
        self.top_layer(None) is Some && self.closed(self.top_layer(None)->0, after)
    }
}

/// Each back press that closes something leaves one layer fewer open.
pub proof fn law_each_press_leaves_one_fewer(before: Gui, after: Gui)
    requires
        before.platform.width != WidthClass::Compact,
        before.pressed_back(after),
    ensures
        after.platform.width == before.platform.width,
        after.open_layers() == before.open_layers() - 1,
        before.gestures.one_mode() ==> before.open_layers() <= 10,
{
}

/// Away from a phone at most ten back presses in a row close something, and the
/// next is a request to leave. No more than one drag mode is armed at a time, as
/// the two setters see to.
pub proof fn law_ten_presses_leave_nothing_open(states: Seq<Gui>)
    requires
        states.len() > 0,
        states[0].platform.width != WidthClass::Compact,
        states[0].gestures.one_mode(),
        forall|i: int|
            0 <= i < states.len() - 1 ==> (#[trigger] states[i]).pressed_back(states[i + 1]),
    ensures
        states.len() - 1 <= 10,
{
    lemma_presses_count_down(states, states.len() - 1);
    assert(states[0].open_layers() <= 10);
}

proof fn lemma_presses_count_down(states: Seq<Gui>, n: int)
    requires
        0 <= n < states.len(),
        states[0].platform.width != WidthClass::Compact,
        forall|i: int|
            0 <= i < states.len() - 1 ==> (#[trigger] states[i]).pressed_back(states[i + 1]),
    ensures
        states[n].platform.width != WidthClass::Compact,
        states[n].open_layers() == states[0].open_layers() - n,
        states[n].open_layers() >= 0,
    decreases n,
{
    if n > 0 {
        lemma_presses_count_down(states, n - 1);
        assert(states[n - 1].pressed_back(states[n - 1 + 1]));
        law_each_press_leaves_one_fewer(states[n - 1], states[n]);
    }
}

/// Away from a phone, a back press goes for what is on top: a handle in hand before
/// the fade, the fade before the dropdown, that before the catalog, the feature
/// popup, the time dialog, the menu, the inspector and the drawer, in this order,
/// and an armed draw or drag last.
pub proof fn law_back_press_takes_the_topmost(state: Gui, sheet_top: Option<SheetPage>)
    requires
        state.platform.width != WidthClass::Compact,
    ensures
        ({
            let top = state.top_layer(sheet_top);
            let drag = state.gestures.section_edit_drag is Some;
            let fade = drag || state.popups.ui_faded;
            let menu_popup = fade || state.popups.menu_popup_open;
            let catalog = menu_popup || state.popups.catalog_open;
            let feature = catalog || state.features.ids@.len() > 0;
            let time = feature || state.time_dialog.show;
            let menu = time || state.popups.menu_open;
            let inspector = menu || state.panels.insp_open;
            let drawer = inspector || state.panels.drawer_open;
            let draw = drawer || state.gestures.section_draw_armed;
            &&& drag ==> top == Some(TopLayer::HandleDrag)
            &&& !drag && state.popups.ui_faded ==> top == Some(TopLayer::Fade)
            &&& !fade && state.popups.menu_popup_open ==> top == Some(TopLayer::MenuPopup)
            &&& !menu_popup && state.popups.catalog_open ==> top == Some(TopLayer::Catalog)
            &&& !catalog && state.features.ids@.len() > 0 ==> top == Some(TopLayer::Feature)
            &&& !feature && state.time_dialog.show ==> top == Some(TopLayer::Time)
            &&& !time && state.popups.menu_open ==> top == Some(TopLayer::Menu)
            &&& !menu && state.panels.insp_open ==> top == Some(TopLayer::Inspector)
            &&& !inspector && state.panels.drawer_open ==> top == Some(TopLayer::Drawer)
            &&& !drawer && state.gestures.section_draw_armed ==> top == Some(TopLayer::SectionDraw)
            &&& !draw && state.gestures.region_arm ==> top == Some(TopLayer::RegionDrag)
            &&& !draw && !state.gestures.region_arm ==> top is None
        }),
{
}

/// On a phone, a back press goes for the page the sheet shows, below a handle in
/// hand, the fade and the dropdown, and for an armed draw or drag where it shows
/// none.
pub proof fn law_back_press_takes_the_page_on_top(state: Gui, page: SheetPage)
    requires
        state.platform.width == WidthClass::Compact,
        state.gestures.section_edit_drag is None,
        !state.popups.ui_faded,
        !state.popups.menu_popup_open,
    ensures
        state.top_layer(Some(page)) == Some(
            match page {
                SheetPage::Feature => TopLayer::Feature,
                SheetPage::Time => TopLayer::Time,
                SheetPage::Catalog => TopLayer::Catalog,
                SheetPage::Menu => TopLayer::Menu,
                SheetPage::Inspector => TopLayer::Inspector,
                SheetPage::Layers => TopLayer::Drawer,
            },
        ),
        state.gestures.section_draw_armed ==> state.top_layer(None) == Some(
            TopLayer::SectionDraw,
        ),
        !state.gestures.section_draw_armed && state.gestures.region_arm ==> state.top_layer(None)
            == Some(TopLayer::RegionDrag),
        !state.gestures.section_draw_armed && !state.gestures.region_arm ==> state.top_layer(None)
            is None,
{
}

/// Closing a layer takes that away which showed it, and leaves panes, layout,
/// settings and data alone.
pub proof fn law_closing_takes_the_layer_away(before: Gui, layer: TopLayer, after: Gui)
    requires
        before.closed(layer, after),
    ensures
        layer is HandleDrag ==> after.gestures.section_edit_drag is None,
        layer is Fade ==> !after.popups.ui_faded,
        layer is MenuPopup ==> !after.popups.menu_popup_open
            && after.popups.menu_popup_close_requested,
        layer is Catalog ==> !after.popups.catalog_open,
        layer is Feature ==> after.features.ids@.len() == 0 && after.features.page == 0,
        layer is Time ==> !after.time_dialog.show,
        layer is Menu ==> !after.popups.menu_open,
        layer is Inspector ==> !after.panels.insp_open && after.panels.inspector_sel
            == InspectorSelection::AppSettings,
        layer is Drawer ==> !after.panels.drawer_open,
        layer is SectionDraw ==> !after.gestures.section_draw_armed
            && after.gestures.section_anchor is None,
        layer is RegionDrag ==> !after.gestures.region_arm && after.gestures.region_drag is None,
        after.panes == before.panes,
        after.pane_layout == before.pane_layout,
        after.active_pane == before.active_pane,
        after.settings == before.settings,
        after.overlays == before.overlays,
        after.radar == before.radar,
        after.gestures.pending_region == before.gestures.pending_region,
        after.gestures.pending_section_line == before.gestures.pending_section_line,
        after.gestures.pending_section_edit == before.gestures.pending_section_edit,
        after.gestures.pending_pane_kind == before.gestures.pending_pane_kind,
{
}

/// Arming a drag sets it up and calls off the other and a handle in hand; disarming
/// it throws away what it had begun and nothing else. What waits to be applied
/// waits on.
pub proof fn law_arming_calls_off_the_rest(before: Gestures, on: bool)
    ensures
        before.region_arming(on).region_arm == on,
        before.section_arming(on).section_draw_armed == on,
        on ==> !before.region_arming(on).section_draw_armed && before.region_arming(
            on,
        ).section_anchor is None && before.region_arming(on).section_edit_drag is None,
        on ==> !before.section_arming(on).region_arm && before.section_arming(on).region_drag
            is None && before.section_arming(on).section_edit_drag is None,
        !on ==> before.region_arming(on).region_drag is None && before.region_arming(
            on,
        ).section_draw_armed == before.section_draw_armed && before.region_arming(
            on,
        ).section_edit_drag == before.section_edit_drag,
        !on ==> before.section_arming(on).section_anchor is None && before.section_arming(
            on,
        ).region_arm == before.region_arm && before.section_arming(on).section_edit_drag
            == before.section_edit_drag,
        on ==> before.region_arming(on).region_drag == before.region_drag,
        on ==> before.section_arming(on).section_anchor == before.section_anchor,
        before.region_arming(on).pending_region == before.pending_region,
        before.region_arming(on).pending_section_line == before.pending_section_line,
        before.section_arming(on).pending_region == before.pending_region,
        before.section_arming(on).pending_section_line == before.pending_section_line,
{
}

/// What is there to be closed is what the interface shows.
pub proof fn law_open_layers_are_those_shown(state: Gui)
    ensures
        state.layer_open(TopLayer::HandleDrag) == (state.gestures.section_edit_drag is Some),
        state.layer_open(TopLayer::Fade) == state.popups.ui_faded,
        state.layer_open(TopLayer::MenuPopup) == state.popups.menu_popup_open,
        state.layer_open(TopLayer::Catalog) == state.popups.catalog_open,
        state.layer_open(TopLayer::Feature) == (state.features.ids@.len() > 0),
        state.layer_open(TopLayer::Time) == state.time_dialog.show,
        state.layer_open(TopLayer::Menu) == state.popups.menu_open,
        state.layer_open(TopLayer::Inspector) == state.panels.insp_open,
        state.layer_open(TopLayer::Drawer) == state.panels.drawer_open,
        state.layer_open(TopLayer::SectionDraw) == state.gestures.section_draw_armed,
        state.layer_open(TopLayer::RegionDrag) == state.gestures.region_arm,
{
}

/// A half-drawn line is shown from where it began to where the pointer is, on the pane it
/// was begun on and on no other.
pub proof fn law_half_drawn_line_is_on_its_pane(state: Gui, pane_idx: usize)
    ensures
        state.gestures.section_anchor is None ==> state.rubber_band(pane_idx) is None,
        state.gestures.section_anchor matches Some(anchor) ==> {
            &&& anchor.pane_idx != pane_idx ==> state.rubber_band(pane_idx) is None
            &&& anchor.pane_idx == pane_idx ==> state.rubber_band(pane_idx) == Some(
                (anchor.screen, anchor.current),
            )
        },
{
}

/// A back press touches what can be closed and nothing else of the interface.
pub proof fn law_back_press_touches_nothing_else(before: Gui, layer: TopLayer, after: Gui)
    requires
        before.closed(layer, after),
    ensures
        after == (Gui {
            gestures: after.gestures,
            popups: after.popups,
            panels: after.panels,
            features: after.features,
            time_dialog: after.time_dialog,
            ..before
        }),
        after.popups == (Popups {
            ui_faded: after.popups.ui_faded,
            menu_popup_open: after.popups.menu_popup_open,
            menu_popup_close_requested: after.popups.menu_popup_close_requested,
            menu_open: after.popups.menu_open,
            catalog_open: after.popups.catalog_open,
            ..before.popups
        }),
        after.time_dialog == (TimeDialogState {
            show: after.time_dialog.show,
            ..before.time_dialog
        }),
        !(layer is MenuPopup) ==> after.popups.menu_popup_close_requested
            == before.popups.menu_popup_close_requested,
        !(layer is Inspector) ==> after.panels.inspector_sel == before.panels.inspector_sel,
        after.panels.stack_open == before.panels.stack_open,
        !(layer is Feature) ==> after.features == before.features,
{
}

} // verus!
