//! The window model, the placement arithmetic, path expansion and the
//! fixed-point fraction, from the outside.

use perspektiv::config::{expand_path, Boolean, Config, MarginHoriz, MarginVert, Percentage, Window};
use perspektiv::threlm::Threlm;
use perspektiv::ui;
use perspektiv::ui::{Msg, Panel};
use perspektiv::Fraction;

fn config(show_label: bool) -> Config {
    Config {
        window: Window {
            width: 300,
            height: 100,
            margin_horiz: MarginHoriz::Left(50),
            margin_vert: MarginVert::Top(50),
            duration: 1000,
            padding: 8,
            spacing: 8,
            css: None,
        },
        boolean: Boolean { show_label },
        percentage: Percentage { show_numeric: true },
    }
}

#[test]
fn fraction_accepts_the_unit_interval_only() {
    assert!(Fraction::new(0).is_some());
    assert!(Fraction::new(1000).is_some());
    assert_eq!(Fraction::new(200).unwrap().per_mille, 200);
    assert!(Fraction::new(1001).is_none());
}

#[test]
fn a_new_window_presents_nothing() {
    let w = ui::Window::new(config(true));
    assert!(!w.visible);
    assert!(!w.hide_armed);
    assert!(!w.quit_requested);
    assert!(matches!(w.panel, Panel::Empty));
    assert_eq!(w.icon, "");
}

#[test]
fn show_percent_puts_the_bar_up_and_arms_the_hide() {
    let mut w = ui::Window::new(config(true));
    w.apply(Msg::ShowPercent("vol", Fraction::new(700).unwrap()));
    assert!(w.visible);
    assert!(w.hide_armed);
    assert_eq!(w.icon, "vol");
    assert!(matches!(w.panel, Panel::Percent(f) if f.per_mille == 700));
}

#[test]
fn show_bool_obeys_the_label_flag() {
    let mut w = ui::Window::new(config(true));
    w.apply(Msg::ShowBool("wifi", "WiFi disabled"));
    assert!(w.visible);
    assert!(matches!(w.panel, Panel::Boolean(Some("WiFi disabled"))));

    let mut w = ui::Window::new(config(false));
    w.apply(Msg::ShowBool("wifi", "WiFi disabled"));
    assert!(w.visible);
    assert!(matches!(w.panel, Panel::Boolean(None)));
}

#[test]
fn hide_takes_the_window_down_and_disarms_the_hide() {
    let mut w = ui::Window::new(config(true));
    w.apply(Msg::ShowPercent("vol", Fraction::new(100).unwrap()));
    w.apply(Msg::Hide);
    assert!(!w.visible);
    assert!(!w.hide_armed);
    // What was presented is merely hidden, not forgotten.
    assert!(matches!(w.panel, Panel::Percent(f) if f.per_mille == 100));
}

#[test]
fn quit_only_records_the_request() {
    let mut w = ui::Window::new(config(true));
    w.apply(Msg::ShowPercent("vol", Fraction::new(100).unwrap()));
    w.apply(Msg::Quit);
    assert!(w.quit_requested);
    assert!(w.visible);
}

#[test]
fn the_window_model_is_driven_through_the_owner() {
    let mut owner = Threlm::new(ui::Window::new(config(true)));
    let actor = owner.actor();
    actor
        .tell(&mut owner, Msg::ShowPercent("light", Fraction::new(200).unwrap()))
        .unwrap();
    actor
        .tell(&mut owner, Msg::ShowPercent("light", Fraction::new(500).unwrap()))
        .unwrap();
    owner.drain();
    let w = owner.model().unwrap();
    assert!(w.visible);
    assert!(matches!(w.panel, Panel::Percent(f) if f.per_mille == 500));
}

#[test]
fn margins_anchor_at_either_edge() {
    // A 1920x1080 monitor leaves 1620x980 of placement room for a 300x100
    // window.
    let mut cfg = config(true).window;
    assert_eq!(cfg.position(1920, 1080), (50, 50));
    cfg.margin_horiz = MarginHoriz::Right(10);
    cfg.margin_vert = MarginVert::Bottom(20);
    assert_eq!(cfg.position(1920, 1080), (1610, 960));
    // A margin from the far edge is the distance of that margin from the
    // near anchor: anchored left with 1080 of room, a right margin of 10
    // stands at 1070.
    cfg.width = 0;
    cfg.height = 0;
    cfg.margin_horiz = MarginHoriz::Right(10);
    assert_eq!(cfg.position(1080, 1080).0, 1070);
}

#[test]
fn paths_expand_against_home_and_working_directory() {
    assert_eq!(expand_path("~/style.css", "/home/u", "/etc/app"), "/home/u/style.css");
    assert_eq!(expand_path("./style.css", "/home/u", "/etc/app"), "/etc/app/style.css");
    assert_eq!(expand_path("style.css", "/home/u", "/etc/app"), "/etc/app/style.css");
    assert_eq!(expand_path("/usr/share/style.css", "/home/u", "/etc/app"), "/usr/share/style.css");
}
