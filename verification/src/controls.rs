//! A layer's own controls: what is drawn of them, and what operating one asks
//! for.

use vstd::prelude::*;
use crate::actions::{requests, GuiAction, Request};
use crate::gui::Gui;
use crate::measure::Exact;
use crate::overlays::{switches, LayerHandlers, LayerSetting, OverlayKind};
use crate::pane::PaneState;
use crate::text::same_text;

verus! {

/// One button of a row.
pub struct ControlButton {
    pub id: String,
    pub label: String,
    pub enabled: bool,
    pub highlight: bool,
}

/// One entry of a dropdown.
pub struct DropdownOption {
    pub value: String,
    pub display: String,
}

/// One of a layer's controls.
pub enum ControlItem {
    Toggle { id: String, label: String, enabled: bool },
    Heading { text: String },
    InfoText { text: String },
    ButtonRow { buttons: Vec<ControlButton> },
    Separator,
    Dropdown { id: String, label: String, options: Vec<DropdownOption>, selected: String },
    Slider {
        id: String,
        label: String,
        min: Exact,
        max: Exact,
        value: Exact,
        logarithmic: bool,
    },
    Section { label: String, collapsible: bool, expanded: bool, items: Vec<ControlItem> },
}

/// A new value of a control.
pub enum ControlValue {
    Bool(bool),
    Action,
    Text(String),
    Number(Exact),
}

/// A control that was operated, and its new value.
pub struct ControlUpdate {
    pub id: String,
    pub value: ControlValue,
}

/// What the user did to a control.
pub enum ControlEvent {
    /// Left a checkbox like this.
    Left(bool),
    /// Pressed the button at this place in the row.
    Pressed(usize),
    /// Left a dropdown on this value.
    Picked(String),
    /// Left a slider at a number, and whether that is farther from where it stood
    /// than the rounding of a number.
    Slid { to: Exact, moved: bool },
}

/// What operating a control asks for.
pub enum Asked {
    Bool { id: Seq<char>, on: bool },
    Action { id: Seq<char> },
    Text { id: Seq<char>, text: Seq<char> },
    Number { id: Seq<char>, number: Exact },
}

impl View for ControlUpdate {
    type V = Asked;

    open spec fn view(&self) -> Asked {
        match self.value {
            ControlValue::Bool(value) => Asked::Bool { id: self.id@, on: value },
            ControlValue::Action => Asked::Action { id: self.id@ },
            ControlValue::Text(value) => Asked::Text { id: self.id@, text: value@ },
            ControlValue::Number(value) => Asked::Number { id: self.id@, number: value },
        }
    }
}

/// What operating a control asks for, if anything: a value that was left as it
/// was asks for nothing, and neither does a button that cannot be pressed.
pub open spec fn asked_by(item: ControlItem, event: ControlEvent) -> Option<Asked> {
    match (item, event) {
        (ControlItem::Toggle { id, enabled, .. }, ControlEvent::Left(value)) => if value
            != enabled {
            Some(Asked::Bool { id: id@, on: value })
        } else {
            None
        },
        (ControlItem::ButtonRow { buttons }, ControlEvent::Pressed(i)) => if i < buttons@.len()
            && buttons@[i as int].enabled {
            Some(Asked::Action { id: buttons@[i as int].id@ })
        } else {
            None
        },
        (ControlItem::Dropdown { id, selected, .. }, ControlEvent::Picked(value)) => if value@
            != selected@ {
            Some(Asked::Text { id: id@, text: value@ })
        } else {
            None
        },
        (ControlItem::Slider { id, .. }, ControlEvent::Slid { to, moved }) => if moved {
            Some(Asked::Number { id: id@, number: to })
        } else {
            None
        },
        _ => None,
    }
}

/// What operating a control asks for, if anything.
pub fn control_update(item: &ControlItem, event: &ControlEvent) -> (r: Option<ControlUpdate>)
    ensures
        match r {
            Some(update) => asked_by(*item, *event) == Some(update@),
            None => asked_by(*item, *event) is None,
        },
{
    match (item, event) {
        (ControlItem::Toggle { id, enabled, .. }, ControlEvent::Left(value)) => {
            if *value != *enabled {
                Some(ControlUpdate { id: id.clone(), value: ControlValue::Bool(*value) })
            } else {
                None
            }
        },
        (ControlItem::ButtonRow { buttons }, ControlEvent::Pressed(i)) => {
            if *i < buttons.len() && buttons[*i].enabled {
                Some(ControlUpdate { id: buttons[*i].id.clone(), value: ControlValue::Action })
            } else {
                None
            }
        },
        (ControlItem::Dropdown { id, selected, .. }, ControlEvent::Picked(value)) => {
            if !same_text(value.as_str(), selected.as_str()) {
                Some(ControlUpdate { id: id.clone(), value: ControlValue::Text(value.clone()) })
            } else {
                None
            }
        },
        (ControlItem::Slider { id, .. }, ControlEvent::Slid { to, moved }) => {
            if *moved {
                Some(ControlUpdate { id: id.clone(), value: ControlValue::Number(*to) })
            } else {
                None
            }
        },
        _ => None,
    }
}

/// The first option of this value.
pub open spec fn option_of(options: Seq<DropdownOption>, value: Seq<char>) -> Option<int>
    decreases options.len(),
{
    if options.len() == 0 {
        None
    } else {
        match option_of(options.drop_last(), value) {
            Some(i) => Some(i),
            None => if options.last().value@ == value {
                Some(options.len() - 1)
            } else {
                None
            },
        }
    }
}

proof fn lemma_option_of(options: Seq<DropdownOption>, value: Seq<char>)
    ensures
        match option_of(options, value) {
            Some(i) => {
                &&& 0 <= i < options.len()
                &&& options[i].value@ == value
                &&& forall|k: int| 0 <= k < i ==> (#[trigger] options[k]).value@ != value
            },
            None => forall|k: int|
                0 <= k < options.len() ==> (#[trigger] options[k]).value@ != value,
        },
    decreases options.len(),
{
    if options.len() > 0 {
        let front = options.drop_last();
        lemma_option_of(front, value);
        assert forall|k: int| 0 <= k < front.len() implies front[k] == #[trigger] options[k] by {}
    }
}

/// The text that a dropdown shows for a value: the label the open list puts
/// against it, or the value itself where the list does not offer it.
pub open spec fn option_words(options: Seq<DropdownOption>, value: Seq<char>) -> Seq<char> {
    match option_of(options, value) {
        Some(i) => options[i].display@,
        None => value,
    }
}

/// The text that a dropdown shows for a value.
pub fn dropdown_option_label<'a>(options: &'a Vec<DropdownOption>, value: &'a str) -> (r: &'a str)
    ensures
        r@ == option_words(options@, value@),
{
    let mut i: usize = 0;
    while i < options.len()
        invariant
            i <= options@.len(),
            forall|k: int| 0 <= k < i ==> (#[trigger] options@[k]).value@ != value@,
        decreases options@.len() - i,
    {
        if same_text(options[i].value.as_str(), value) {
            proof {
                lemma_option_of(options@, value@);
            }
            return options[i].display.as_str();
        }
        i = i + 1;
    }
    proof {
        lemma_option_of(options@, value@);
    }
    value
}

/// Whether a control is one of a layer's master controls: its heading, or the
/// switch for the whole layer.
pub open spec fn is_master(item: ControlItem) -> bool {
    match item {
        ControlItem::Heading { .. } => true,
        ControlItem::Toggle { id, .. } => id@ == "enabled"@,
        _ => false,
    }
}

/// Whether a control is one of a layer's master controls, which the inspector
/// draws in its own way.
pub fn is_master_control(item: &ControlItem) -> (r: bool)
    ensures
        r == is_master(*item),
{
    match item {
        ControlItem::Heading { .. } => true,
        ControlItem::Toggle { id, .. } => same_text(id.as_str(), "enabled"),
        _ => false,
    }
}

/// The shape a control is drawn in.
#[derive(Clone, Copy, Debug, PartialEq, Eq, Structural)]
pub enum DrawnControlKind {
    Checkbox,
    Slider,
    Button,
    InfoText,
    Heading,
    Dropdown,
    Section,
}

/// The shape a control is drawn in, where it is drawn as one thing.
pub fn drawn_kind(item: &ControlItem) -> (r: Option<DrawnControlKind>)
    ensures
        r == match *item {
            ControlItem::Toggle { .. } => Some(DrawnControlKind::Checkbox),
            ControlItem::Heading { .. } => Some(DrawnControlKind::Heading),
            ControlItem::InfoText { .. } => Some(DrawnControlKind::InfoText),
            ControlItem::Dropdown { .. } => Some(DrawnControlKind::Dropdown),
            ControlItem::Slider { .. } => Some(DrawnControlKind::Slider),
            ControlItem::Section { .. } => Some(DrawnControlKind::Section),
            ControlItem::ButtonRow { .. } => None,
            ControlItem::Separator => None,
        },
{
    match item {
        ControlItem::Toggle { .. } => Some(DrawnControlKind::Checkbox),
        ControlItem::Heading { .. } => Some(DrawnControlKind::Heading),
        ControlItem::InfoText { .. } => Some(DrawnControlKind::InfoText),
        ControlItem::Dropdown { .. } => Some(DrawnControlKind::Dropdown),
        ControlItem::Slider { .. } => Some(DrawnControlKind::Slider),
        ControlItem::Section { .. } => Some(DrawnControlKind::Section),
        ControlItem::ButtonRow { .. } | ControlItem::Separator => None,
    }
}

/// The text a control is known by.
pub fn control_label(item: &ControlItem) -> (r: &str)
    ensures
        r@ == match *item {
            ControlItem::Toggle { label, .. } => label@,
            ControlItem::Dropdown { label, .. } => label@,
            ControlItem::Slider { label, .. } => label@,
            ControlItem::Section { label, .. } => label@,
            ControlItem::Heading { text } => text@,
            ControlItem::InfoText { text } => text@,
            ControlItem::ButtonRow { .. } => ""@,
            ControlItem::Separator => ""@,
        },
{
    match item {
        ControlItem::Toggle { label, .. } => label.as_str(),
        ControlItem::Dropdown { label, .. } => label.as_str(),
        ControlItem::Slider { label, .. } => label.as_str(),
        ControlItem::Section { label, .. } => label.as_str(),
        ControlItem::Heading { text } => text.as_str(),
        ControlItem::InfoText { text } => text.as_str(),
        ControlItem::ButtonRow { .. } | ControlItem::Separator => "",
    }
}

/// One thing drawn for a control: its shape and its text.
pub struct DrawnControl {
    pub kind: DrawnControlKind,
    pub label: String,
}

impl View for DrawnControl {
    type V = (DrawnControlKind, Seq<char>);

    open spec fn view(&self) -> (DrawnControlKind, Seq<char>) {
        (self.kind, self.label@)
    }
}

/// What is drawn, as shapes and texts.
pub open spec fn drawn_view(drawn: Seq<DrawnControl>) -> Seq<(DrawnControlKind, Seq<char>)> {
    drawn.map_values(|d: DrawnControl| d@)
}

/// Everything that is drawn for a control, an open section's contents before
/// the section itself.
pub open spec fn drawn_by(item: ControlItem) -> Seq<(DrawnControlKind, Seq<char>)>
    decreases item,
{
    match item {
        ControlItem::Toggle { label, .. } => seq![(DrawnControlKind::Checkbox, label@)],
        ControlItem::Heading { text } => seq![(DrawnControlKind::Heading, text@)],
        ControlItem::InfoText { text } => seq![(DrawnControlKind::InfoText, text@)],
        ControlItem::ButtonRow { buttons } => buttons@.map_values(
            |b: ControlButton| (DrawnControlKind::Button, b.label@),
        ),
        ControlItem::Separator => Seq::empty(),
        ControlItem::Dropdown { label, .. } => seq![(DrawnControlKind::Dropdown, label@)],
        ControlItem::Slider { label, .. } => seq![(DrawnControlKind::Slider, label@)],
        ControlItem::Section { label, items, .. } => drawn_in(items@).push(
            (DrawnControlKind::Section, label@),
        ),
    }
}

/// Everything that is drawn for a list of controls, in order.
pub open spec fn drawn_in(items: Seq<ControlItem>) -> Seq<(DrawnControlKind, Seq<char>)>
    decreases items,
{
    if items.len() == 0 {
        Seq::empty()
    } else {
        drawn_in(items.drop_last()) + drawn_by(items.last())
    }
}

fn push_drawn(drawn: &mut Vec<DrawnControl>, kind: DrawnControlKind, label: &String)
    ensures
        drawn_view(final(drawn)@) == drawn_view(old(drawn)@).push((kind, label@)),
{
    drawn.push(DrawnControl { kind, label: label.clone() });
    assert(drawn_view(drawn@) =~= drawn_view(old(drawn)@).push((kind, label@)));
}

fn push_buttons(drawn: &mut Vec<DrawnControl>, buttons: &Vec<ControlButton>)
    ensures
        drawn_view(final(drawn)@) == drawn_view(old(drawn)@) + buttons@.map_values(
            |b: ControlButton| (DrawnControlKind::Button, b.label@),
        ),
{
    let mut i: usize = 0;
    let ghost words = buttons@.map_values(
        |b: ControlButton| (DrawnControlKind::Button, b.label@),
    );
    assert(drawn_view(drawn@) =~= drawn_view(old(drawn)@) + words.take(0));
    while i < buttons.len()
        invariant
            i <= buttons@.len(),
            words == buttons@.map_values(
                |b: ControlButton| (DrawnControlKind::Button, b.label@),
            ),
            drawn_view(drawn@) == drawn_view(old(drawn)@) + words.take(i as int),
        decreases buttons@.len() - i,
    {
        push_drawn(drawn, DrawnControlKind::Button, &buttons[i].label);
        assert(drawn_view(drawn@) =~= drawn_view(old(drawn)@) + words.take(i + 1));
        i = i + 1;
    }
    assert(words.take(i as int) =~= words);
}

fn draw_item(item: &ControlItem, drawn: &mut Vec<DrawnControl>)
    ensures
        drawn_view(final(drawn)@) == drawn_view(old(drawn)@) + drawn_by(*item),
    decreases item,
{
    let ghost before = drawn_view(drawn@);
    match item {
        ControlItem::Toggle { label, .. } => {
            push_drawn(drawn, DrawnControlKind::Checkbox, label);
        },
        ControlItem::Heading { text } => {
            push_drawn(drawn, DrawnControlKind::Heading, text);
        },
        ControlItem::InfoText { text } => {
            push_drawn(drawn, DrawnControlKind::InfoText, text);
        },
        ControlItem::ButtonRow { buttons } => {
            push_buttons(drawn, buttons);
        },
        ControlItem::Separator => {},
        ControlItem::Dropdown { label, .. } => {
            push_drawn(drawn, DrawnControlKind::Dropdown, label);
        },
        ControlItem::Slider { label, .. } => {
            push_drawn(drawn, DrawnControlKind::Slider, label);
        },
        ControlItem::Section { label, items, .. } => {
            let mut i: usize = 0;
            assert(before =~= before + drawn_in(items@.take(0)));
            while i < items.len()
                invariant
                    i <= items@.len(),
                    before == drawn_view(old(drawn)@),
                    decreases_to!(*item => *items),
                    drawn_view(drawn@) == before + drawn_in(items@.take(i as int)),
                decreases items@.len() - i,
            {
                assert(decreases_to!(*items => items[i as int]));
                draw_item(&items[i], drawn);
                assert(items@.take(i + 1).drop_last() =~= items@.take(i as int));
                assert(before + drawn_in(items@.take(i as int)) + drawn_by(items@[i as int])
                    =~= before + drawn_in(items@.take(i + 1)));
                i = i + 1;
            }
            assert(items@.take(i as int) =~= items@);
            push_drawn(drawn, DrawnControlKind::Section, label);
        },
    }
    assert(drawn_view(drawn@) =~= before + drawn_by(*item));
}

/// Everything the inspector draws of a layer's controls.
pub open spec fn inspected(items: Seq<ControlItem>) -> Seq<(DrawnControlKind, Seq<char>)> {
    drawn_in(items.filter(|item: ControlItem| !is_master(item)))
}

/// Everything the inspector draws of a layer's controls, sections open: the
/// controls other than the masters, each with what is inside it.
pub fn draw_controls(items: &Vec<ControlItem>) -> (r: Vec<DrawnControl>)
    ensures
        drawn_view(r@) == inspected(items@),
        drawn_view(r@) == drawn_in(items@.filter(|item: ControlItem| !is_master(item))),
{
    let mut drawn: Vec<DrawnControl> = Vec::new();
    let ghost kept = |item: ControlItem| !is_master(item);
    let mut i: usize = 0;
    reveal(Seq::filter);
    assert(drawn_view(drawn@) =~= drawn_in(items@.take(0).filter(kept)));
    while i < items.len()
        invariant
            i <= items@.len(),
            kept == |item: ControlItem| !is_master(item),
            drawn_view(drawn@) == drawn_in(items@.take(i as int).filter(kept)),
        decreases items@.len() - i,
    {
        proof {
            reveal(Seq::filter);
            assert(items@.take(i + 1).drop_last() =~= items@.take(i as int));
            let before = items@.take(i as int).filter(kept);
            if kept(items@[i as int]) {
                assert(before.push(items@[i as int]).drop_last() =~= before);
            }
        }
        if !is_master_control(&items[i]) {
            draw_item(&items[i], &mut drawn);
        }
        i = i + 1;
    }
    assert(items@.take(i as int) =~= items@);
    drawn
}

/// Whether a control is drawn in a list of controls, itself or inside a section.
pub open spec fn reachable(items: Seq<ControlItem>, item: ControlItem) -> bool
    decreases items,
{
    items.len() > 0 && {
        ||| items.last() == item
        ||| reachable(items.drop_last(), item)
        ||| inside(items.last(), item)
    }
}

/// Whether a control is inside a section.
pub open spec fn inside(outer: ControlItem, item: ControlItem) -> bool
    decreases outer,
{
    match outer {
        ControlItem::Section { items, .. } => reachable(items@, item),
        _ => false,
    }
}

/// No control a layer declares is left out: whatever is reachable in a list of
/// controls, at any depth, is drawn with everything it holds.
pub proof fn law_every_control_is_drawn(
    items: Seq<ControlItem>,
    item: ControlItem,
    what: (DrawnControlKind, Seq<char>),
)
    requires
        reachable(items, item),
        drawn_by(item).contains(what),
    ensures
        drawn_in(items).contains(what),
    decreases items,
{
    let front = drawn_in(items.drop_last());
    let last = drawn_by(items.last());
    if reachable(items.drop_last(), item) {
        law_every_control_is_drawn(items.drop_last(), item, what);
        let k = front.index_of(what);
        assert((front + last)[k] == what);
    } else {
        if items.last() != item {
            assert(inside(items.last(), item));
            if let ControlItem::Section { label, items: inner, .. } = items.last() {
                law_every_control_is_drawn(inner@, item, what);
                let k = drawn_in(inner@).index_of(what);
                assert(last[k] == what);
            }
        }
        let k = last.index_of(what);
        assert((front + last)[front.len() + k] == what);
    }
}

/// What came of one control being operated: what the layer's handler holds once
/// it has taken the new value, and whether it has to fetch for it.
pub struct ControlOutcome {
    pub setting: LayerSetting,
    pub fetch: bool,
}

/// The fetches that operating controls asks for, one for each that needs one.
pub open spec fn control_fetches(
    outcomes: Seq<ControlOutcome>,
    kind: OverlayKind,
    pane_idx: usize,
) -> Seq<Request>
    decreases outcomes.len(),
{
    if outcomes.len() == 0 {
        Seq::empty()
    } else {
        let before = control_fetches(outcomes.drop_last(), kind, pane_idx);
        if outcomes.last().fetch {
            before.push(Request::Overlay { kind, pane_idx })
        } else {
            before
        }
    }
}

fn ask_for_fetches(
    outcomes: &Vec<ControlOutcome>,
    kind: OverlayKind,
    pane_idx: usize,
    actions: &mut Vec<GuiAction>,
)
    ensures
        requests(final(actions)@) == requests(old(actions)@) + control_fetches(
            outcomes@,
            kind,
            pane_idx,
        ),
{
    let mut i: usize = 0;
    let ghost asked = requests(actions@);
    assert(asked + Seq::<Request>::empty() =~= asked);
    while i < outcomes.len()
        invariant
            i <= outcomes@.len(),
            asked == requests(old(actions)@),
            requests(actions@) == asked + control_fetches(
                outcomes@.take(i as int),
                kind,
                pane_idx,
            ),
        decreases outcomes@.len() - i,
    {
        assert(outcomes@.take(i + 1).drop_last() =~= outcomes@.take(i as int));
        if outcomes[i].fetch {
            proof {
                let before = control_fetches(outcomes@.take(i as int), kind, pane_idx);
                let next = Request::Overlay { kind, pane_idx };
                crate::actions::lemma_requests_push(
                    actions@,
                    GuiAction::FetchOverlay { kind, pane_idx },
                );
                assert((asked + before).push(next) =~= asked + before.push(next));
            }
            actions.push(GuiAction::FetchOverlay { kind, pane_idx });
        }
        i = i + 1;
    }
    assert(outcomes@.take(i as int) =~= outcomes@);
}

/// What the layer's handler holds once every outcome is in, if there is any.
pub open spec fn held_in_the_end(outcomes: Seq<ControlOutcome>) -> Option<LayerSetting> {
    if outcomes.len() == 0 {
        None
    } else {
        Some(outcomes.last().setting)
    }
}

impl Gui {
    /// Whether `after` is this interface once the handlers have taken up the
    /// active pane's settings, the layer's handler holds `setting` where there
    /// is one, and the pane keeps what the handlers then hold.
    pub open spec fn setting_held(
        self,
        kind: OverlayKind,
        setting: Option<LayerSetting>,
        after: Gui,
    ) -> bool {
        let active = self.active_pane as int;
        let loaded = self.overlays.settings@.union_prefer_right(
            self.panes@[active].overlay_configs@,
        );
        &&& after == (Gui { panes: after.panes, overlays: after.overlays, ..self })
        &&& after.overlays == (LayerHandlers {
            settings: after.overlays.settings,
            ..self.overlays
        })
        &&& after.overlays.settings@ == match setting {
            Some(setting) => loaded.insert(kind, setting),
            None => loaded,
        }
        &&& after.panes@ == self.panes@.update(active, after.panes@[active])
        &&& after.panes@[active] == (PaneState {
            overlay_configs: after.panes@[active].overlay_configs,
            enabled_overlays: after.panes@[active].enabled_overlays,
            ..self.panes@[active]
        })
        &&& after.panes@[active].overlay_configs@ == after.overlays.settings@
        &&& after.panes@[active].enabled_overlays@ == switches(after.overlays.settings@)
    }

    pub(crate) fn hold_setting(&mut self, kind: OverlayKind, setting: Option<LayerSetting>)
        requires
            old(self).wf(),
        ensures
            old(self).setting_held(kind, setting, *final(self)),
            final(self).wf(),
    {
        let idx: usize = self.active_pane;
        let mut panes: Vec<PaneState> = Vec::new();
        core::mem::swap(&mut panes, &mut self.panes);
        let ghost before = panes@;
        self.overlays.load_pane_configs(&panes[idx].overlay_configs);
        if let Some(setting) = setting {
            self.overlays.settings.insert(kind, setting);
        }
        let configs = self.overlays.save_pane_configs();
        let enabled = self.overlays.save_enabled_map();
        panes[idx].overlay_configs = configs;
        panes[idx].enabled_overlays = enabled;
        assert(panes@ =~= before.update(idx as int, panes@[idx as int]));
        self.panes = panes;
    }

    /// Take up what came of operating a layer's controls on the active pane: the
    /// pane keeps what the handlers hold in the end, and every outcome that has
    /// to fetch asks for it.
    pub fn apply_control_outcomes(
        &mut self,
        kind: OverlayKind,
        outcomes: &Vec<ControlOutcome>,
        actions: &mut Vec<GuiAction>,
    )
        requires
            old(self).wf(),
        ensures
            old(self).setting_held(kind, held_in_the_end(outcomes@), *final(self)),
            old(self).setting_held(
                kind,
                if outcomes@.len() == 0 {
                    None
                } else {
                    Some(outcomes@.last().setting)
                },
                *final(self),
            ),
            requests(final(actions)@) == requests(old(actions)@) + control_fetches(
                outcomes@,
                kind,
                old(self).active_pane,
            ),
            final(self).wf(),
    {
        let idx: usize = self.active_pane;
        let n: usize = outcomes.len();
        let setting: Option<LayerSetting> = if n == 0 {
            None
        } else {
            Some(outcomes[n - 1].setting.clone())
        };
        self.hold_setting(kind, setting);
        ask_for_fetches(outcomes, kind, idx, actions);
    }
}

/// What a value's own dropdown shows for it never differs from what the open
/// list shows: an offered value shows the first label it has.
pub proof fn law_collapsed_box_reads_like_list(options: Seq<DropdownOption>, i: int)
    requires
        0 <= i < options.len(),
        forall|k: int| 0 <= k < i ==> (#[trigger] options[k]).value@ != options[i].value@,
    ensures
        option_words(options, options[i].value@) == options[i].display@,
{
    lemma_option_of(options, options[i].value@);
}

/// Operating a control asks for its new value under its name, exactly where the value is
/// another one or the button can be pressed.
pub proof fn law_changed_control_asks_for_its_value(item: ControlItem, event: ControlEvent)
    ensures
        item is Toggle && event is Left ==> {
            &&& event->Left_0 == item->Toggle_enabled ==> asked_by(item, event) is None
            &&& event->Left_0 != item->Toggle_enabled ==> asked_by(item, event) == Some(
                Asked::Bool { id: item->Toggle_id@, on: event->Left_0 },
            )
        },
        item is ButtonRow && event is Pressed ==> {
            let i = event->Pressed_0 as int;
            let buttons = item->buttons@;
            &&& i < buttons.len() && buttons[i].enabled ==> asked_by(item, event) == Some(
                Asked::Action { id: buttons[i].id@ },
            )
            &&& i >= buttons.len() || !buttons[i].enabled ==> asked_by(item, event) is None
        },
        item is Dropdown && event is Picked ==> {
            &&& event->Picked_0@ == item->selected@ ==> asked_by(item, event) is None
            &&& event->Picked_0@ != item->selected@ ==> asked_by(item, event) == Some(
                Asked::Text { id: item->Dropdown_id@, text: event->Picked_0@ },
            )
        },
        item is Slider && event is Slid ==> {
            &&& !event->moved ==> asked_by(item, event) is None
            &&& event->moved ==> asked_by(item, event) == Some(
                Asked::Number { id: item->Slider_id@, number: event->to },
            )
        },
        item is Heading || item is InfoText || item is Separator || item is Section ==> asked_by(
            item,
            event,
        ) is None,
{
}

/// A dropdown shows a value that its list does not offer as it is.
pub proof fn law_value_that_is_not_offered_shows_itself(
    options: Seq<DropdownOption>,
    value: Seq<char>,
)
    requires
        forall|k: int| 0 <= k < options.len() ==> (#[trigger] options[k]).value@ != value,
    ensures
        option_words(options, value) == value,
{
    lemma_option_of(options, value);
}

/// A layer's heading and its own switch are its master controls, and nothing else is.
pub proof fn law_masters_are_heading_and_switch(item: ControlItem)
    ensures
        item is Heading ==> is_master(item),
        item is Toggle ==> (is_master(item) <==> item->Toggle_id@ == "enabled"@),
        !(item is Heading) && !(item is Toggle) ==> !is_master(item),
{
}

/// Each control is drawn as what it is, under its own text, in the order of the list; a
/// row draws each of its buttons, and a section what it holds and then itself.
pub proof fn law_controls_are_drawn_in_order(items: Seq<ControlItem>, item: ControlItem)
    ensures
        drawn_in(Seq::<ControlItem>::empty()).len() == 0,
        drawn_in(items.push(item)) == drawn_in(items) + drawn_by(item),
        item is Toggle ==> drawn_by(item) == seq![
            (DrawnControlKind::Checkbox, item->Toggle_label@),
        ],
        item is Dropdown ==> drawn_by(item) == seq![
            (DrawnControlKind::Dropdown, item->Dropdown_label@),
        ],
        item is Slider ==> drawn_by(item) == seq![(DrawnControlKind::Slider, item->Slider_label@)],
        item is Heading ==> drawn_by(item) == seq![
            (DrawnControlKind::Heading, item->Heading_text@),
        ],
        item is InfoText ==> drawn_by(item) == seq![
            (DrawnControlKind::InfoText, item->InfoText_text@),
        ],
        item is Separator ==> drawn_by(item).len() == 0,
        item is ButtonRow ==> {
            &&& drawn_by(item).len() == item->buttons@.len()
            &&& forall|k: int|
                0 <= k < item->buttons@.len() ==> #[trigger] drawn_by(item)[k] == (
                    DrawnControlKind::Button,
                    item->buttons@[k].label@,
                )
        },
        item is Section ==> drawn_by(item) == drawn_in(item->items@).push(
            (DrawnControlKind::Section, item->Section_label@),
        ),
{
    assert(items.push(item).drop_last() =~= items);
}

/// Every outcome that has to fetch asks once, for its layer and its pane, and no other
/// asks.
pub proof fn law_each_fetching_outcome_asks(
    outcomes: Seq<ControlOutcome>,
    outcome: ControlOutcome,
    kind: OverlayKind,
    pane_idx: usize,
)
    ensures
        control_fetches(Seq::<ControlOutcome>::empty(), kind, pane_idx).len() == 0,
        outcome.fetch ==> control_fetches(outcomes.push(outcome), kind, pane_idx)
            == control_fetches(outcomes, kind, pane_idx).push(Request::Overlay { kind, pane_idx }),
        !outcome.fetch ==> control_fetches(outcomes.push(outcome), kind, pane_idx)
            == control_fetches(outcomes, kind, pane_idx),
{
    assert(outcomes.push(outcome).drop_last() =~= outcomes);
}

/// What a layer's handler holds in the end is what the handlers and the pane in front
/// have of that layer; the pane's other layers, and all other panes, are as they were.
pub proof fn law_operated_setting_is_kept(
    before: Gui,
    kind: OverlayKind,
    setting: Option<LayerSetting>,
    after: Gui,
    other: OverlayKind,
    i: int,
)
    requires
        before.wf(),
        before.setting_held(kind, setting, after),
        0 <= i < before.panes@.len(),
    ensures
        ({
            let active = before.active_pane as int;
            let was = before.panes@[active];
            let pane = after.panes@[active];
            &&& setting matches Some(held) ==> {
                &&& after.overlays.settings@.contains_key(kind)
                &&& after.overlays.settings@[kind] == held
                &&& pane.overlay_configs@[kind] == held
                &&& pane.overlay_on(kind) == held.enabled
            }
            &&& other != kind || setting is None ==> was.overlay_configs@.contains_key(other) ==> {
                &&& pane.overlay_configs@.contains_key(other)
                &&& pane.overlay_configs@[other] == was.overlay_configs@[other]
                &&& pane.overlay_on(other) == was.overlay_configs@[other].enabled
            }
            &&& pane.site == was.site
            &&& pane.content == was.content
            &&& pane.selected_product == was.selected_product
            &&& i != active ==> after.panes@[i] == before.panes@[i]
            &&& after.overlays.feeds == before.overlays.feeds
            &&& after.active_pane == before.active_pane
        }),
{
}

/// The inspector draws every control of a layer but its masters, in order.
pub proof fn law_inspector_leaves_out_the_masters(items: Seq<ControlItem>, item: ControlItem)
    ensures
        inspected(Seq::<ControlItem>::empty()).len() == 0,
        is_master(item) ==> inspected(items.push(item)) == inspected(items),
        !is_master(item) ==> inspected(items.push(item)) == inspected(items) + drawn_by(item),
{
    reveal(Seq::filter);
    let kept = |item: ControlItem| !is_master(item);
    assert(items.push(item).drop_last() =~= items);
    assert(Seq::<ControlItem>::empty().filter(kept) =~= Seq::<ControlItem>::empty());
    if !is_master(item) {
        law_controls_are_drawn_in_order(items.filter(kept), item);
        assert(items.push(item).filter(kept) == items.filter(kept).push(item));
    }
}

/// Of several outcomes the last one stands.
pub proof fn law_last_outcome_stands(outcomes: Seq<ControlOutcome>, outcome: ControlOutcome)
    ensures
        held_in_the_end(Seq::<ControlOutcome>::empty()) is None,
        held_in_the_end(outcomes.push(outcome)) == Some(outcome.setting),
{
    assert(outcomes.push(outcome).last() == outcome);
}

} // verus!
