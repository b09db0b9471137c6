use rustdar_egui::actions::{GuiAction, RadarConfig};
use rustdar_egui::controls::{
    control_label, control_update, draw_controls, drawn_kind, dropdown_option_label,
    is_master_control, ControlButton, ControlEvent, ControlItem, ControlOutcome, ControlUpdate,
    ControlValue, DrawnControlKind, DropdownOption,
};
use rustdar_egui::gui::{Gui, Startup};
use rustdar_egui::measure::Exact;
use rustdar_egui::overlays::{LayerHandlers, LayerSetting, OverlayKind};
use rustdar_egui::scan::ProductRanks;
use rustdar_egui::stamp::Stamp;

fn toggle(id: &str, label: &str, enabled: bool) -> ControlItem {
    ControlItem::Toggle { id: id.to_owned(), label: label.to_owned(), enabled }
}

fn options() -> Vec<DropdownOption> {
    [("sbcin", "Surface-Based CIN"), ("both", "Both"), ("both", "Both again")]
        .iter()
        .map(|(value, display)| DropdownOption {
            value: (*value).to_owned(),
            display: (*display).to_owned(),
        })
        .collect()
}

fn dropdown() -> ControlItem {
    ControlItem::Dropdown {
        id: "param".to_owned(),
        label: "Parameter".to_owned(),
        options: options(),
        selected: "sbcin".to_owned(),
    }
}

fn exact(x: f64) -> Exact {
    Exact::At(x.to_bits() as i64)
}

fn slider() -> ControlItem {
    ControlItem::Slider {
        id: "opacity".to_owned(),
        label: "Opacity".to_owned(),
        min: Exact::At(0),
        max: exact(1.0),
        value: exact(0.5),
        logarithmic: false,
    }
}

fn buttons() -> ControlItem {
    let button = |id: &str, enabled| ControlButton {
        id: id.to_owned(),
        label: id.to_uppercase(),
        enabled,
        highlight: false,
    };
    ControlItem::ButtonRow { buttons: vec![button("day1", true), button("day2", false)] }
}

fn text_of(update: &Option<ControlUpdate>) -> Option<(String, String)> {
    update.as_ref().map(|u| {
        let value = match &u.value {
            ControlValue::Bool(on) => format!("bool {on}"),
            ControlValue::Action => "action".to_owned(),
            ControlValue::Text(text) => format!("text {text}"),
            ControlValue::Number(n) => format!("number {n:?}"),
        };
        (u.id.clone(), value)
    })
}

fn answer(id: &str, value: &str) -> Option<(String, String)> {
    Some((id.to_owned(), value.to_owned()))
}

#[test]
fn an_operated_control_hands_over_its_new_value() {
    let update = |item, event| text_of(&control_update(&item, &event));
    assert_eq!(update(toggle("hail", "Hail", false), ControlEvent::Left(true)), answer("hail", "bool true"));
    assert_eq!(update(buttons(), ControlEvent::Pressed(0)), answer("day1", "action"));
    assert_eq!(
        update(dropdown(), ControlEvent::Picked("both".to_owned())),
        answer("param", "text both")
    );
    let to = exact(0.5000001);
    assert_eq!(
        update(slider(), ControlEvent::Slid { to, moved: true }),
        answer("opacity", format!("number {to:?}").as_str())
    );
}

#[test]
fn a_control_left_as_it_was_asks_for_nothing() {
    let update = |item, event| text_of(&control_update(&item, &event));
    assert_eq!(update(toggle("hail", "Hail", true), ControlEvent::Left(true)), None);
    assert_eq!(update(buttons(), ControlEvent::Pressed(1)), None);
    assert_eq!(update(buttons(), ControlEvent::Pressed(2)), None);
    assert_eq!(update(dropdown(), ControlEvent::Picked("sbcin".to_owned())), None);
    assert_eq!(update(slider(), ControlEvent::Slid { to: exact(0.5), moved: false }), None);
    assert_eq!(update(ControlItem::Separator, ControlEvent::Left(true)), None);
    assert_eq!(update(slider(), ControlEvent::Left(true)), None);
}

#[test]
fn a_closed_dropdown_reads_like_its_open_list() {
    let options = options();
    assert_eq!(dropdown_option_label(&options, "sbcin"), "Surface-Based CIN");
    assert_eq!(dropdown_option_label(&options, "both"), "Both");
    assert_eq!(dropdown_option_label(&options, "mlcape"), "mlcape");
}

#[test]
fn the_masters_are_the_heading_and_the_switch() {
    assert!(is_master_control(&ControlItem::Heading { text: "Alerts".to_owned() }));
    assert!(is_master_control(&toggle("enabled", "Alerts", true)));
    assert!(!is_master_control(&toggle("hail", "Hail", true)));
    assert!(!is_master_control(&dropdown()));
}

#[test]
fn each_control_has_its_shape_and_label() {
    let section = ControlItem::Section {
        label: "More".to_owned(),
        collapsible: true,
        expanded: false,
        items: Vec::new(),
    };
    for (item, kind, label) in [
        (toggle("hail", "Hail", true), Some(DrawnControlKind::Checkbox), "Hail"),
        (ControlItem::Heading { text: "H".to_owned() }, Some(DrawnControlKind::Heading), "H"),
        (ControlItem::InfoText { text: "I".to_owned() }, Some(DrawnControlKind::InfoText), "I"),
        (dropdown(), Some(DrawnControlKind::Dropdown), "Parameter"),
        (slider(), Some(DrawnControlKind::Slider), "Opacity"),
        (section, Some(DrawnControlKind::Section), "More"),
        (buttons(), None, ""),
        (ControlItem::Separator, None, ""),
    ] {
        assert_eq!(drawn_kind(&item), kind);
        assert_eq!(control_label(&item), label);
    }
}

#[test]
fn every_control_is_drawn_at_every_depth() {
    let inner = ControlItem::Section {
        label: "Inner".to_owned(),
        collapsible: false,
        expanded: true,
        items: vec![slider(), ControlItem::Heading { text: "Deep".to_owned() }],
    };
    let items = vec![
        ControlItem::Heading { text: "Layer".to_owned() },
        toggle("enabled", "Layer", true),
        buttons(),
        ControlItem::Separator,
        ControlItem::Section {
            label: "Outer".to_owned(),
            collapsible: true,
            expanded: false,
            items: vec![toggle("hail", "Hail", true), inner],
        },
        dropdown(),
    ];
    let drawn: Vec<(DrawnControlKind, String)> =
        draw_controls(&items).into_iter().map(|d| (d.kind, d.label)).collect();
    let expected: Vec<(DrawnControlKind, String)> = [
        (DrawnControlKind::Button, "DAY1"),
        (DrawnControlKind::Button, "DAY2"),
        (DrawnControlKind::Checkbox, "Hail"),
        (DrawnControlKind::Slider, "Opacity"),
        (DrawnControlKind::Heading, "Deep"),
        (DrawnControlKind::Section, "Inner"),
        (DrawnControlKind::Section, "Outer"),
        (DrawnControlKind::Dropdown, "Parameter"),
    ]
    .iter()
    .map(|(kind, label)| (*kind, (*label).to_owned()))
    .collect();
    assert_eq!(drawn, expected);
}

#[test]
fn what_controls_did_is_kept_on_the_pane() {
    let mut handlers = LayerHandlers::new();
    handlers.set_enabled(OverlayKind::Radar, true);
    let mut gui = Gui::new(Startup {
        config: RadarConfig {
            site: "KTLX".to_owned(),
            timestamp: Stamp::new(1_785_030_510, 0).unwrap(),
        },
        notifier_endpoint: String::new(),
        handlers,
        ranks: ProductRanks::new(),
        codes: ProductRanks::new(),
    });
    let outcome = |options: &str, fetch| ControlOutcome {
        setting: LayerSetting { enabled: true, options: options.to_owned() },
        fetch,
    };
    let mut actions = Vec::new();
    gui.apply_control_outcomes(
        OverlayKind::SpcOutlook,
        &vec![outcome("day1", true), outcome("day2", false), outcome("day3", true)],
        &mut actions,
    );
    let kept = gui.panes[0].overlay_configs.get(OverlayKind::SpcOutlook).unwrap();
    assert_eq!(kept.options, "day3");
    assert!(gui.panes[0].is_overlay_enabled(OverlayKind::SpcOutlook));
    assert!(gui.panes[0].is_overlay_enabled(OverlayKind::Radar));
    assert_eq!(actions.len(), 2);
    assert!(matches!(
        actions[1],
        GuiAction::FetchOverlay { kind: OverlayKind::SpcOutlook, pane_idx: 0 }
    ));

    gui.apply_control_outcomes(OverlayKind::SpcOutlook, &Vec::new(), &mut actions);
    assert_eq!(actions.len(), 2);
    let kept = gui.panes[0].overlay_configs.get(OverlayKind::SpcOutlook).unwrap();
    assert_eq!(kept.options, "day3");
}
