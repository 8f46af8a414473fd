use rusty_bar::{template, Action, Cnx, Event, Launch, Offset, Position, Runtime};

type Ev = Event<&'static str, u32, String>;
type Act = Action<u32, String>;

fn launched(n: usize) -> Launch<char, (), &'static str> {
    let mut cnx = Cnx::new(Position::Top);
    for i in 0..n {
        cnx.add_widget((b'a' + i as u8) as char);
    }
    match cnx.launch::<(), String, &'static str>(Ok(())) {
        Ok(l) => l,
        Err(_) => panic!("launch failed"),
    }
}

fn ok(slot: usize, parts: &[&'static str]) -> Ev {
    Event::Item(slot, Ok(parts.to_vec()))
}

fn is_redraw(a: &Act, slot: usize) -> bool {
    matches!(a, Action::Redraw(s) if *s == slot)
}

#[test]
fn new_bar_has_defaults() {
    let cnx: Cnx<u8> = Cnx::new(Position::Bottom);
    assert_eq!(cnx.position(), Position::Bottom);
    assert_eq!(cnx.offset(), Offset { x: 0, y: 0 });
    assert_eq!(cnx.width(), None);
    assert_eq!(cnx.widget_count(), 0);
}

#[test]
fn builders_set_width_and_offset() {
    let cnx: Cnx<u8> = Cnx::new(Position::Top).with_width(Some(1920)).with_offset(1920, -4);
    assert_eq!(cnx.position(), Position::Top);
    assert_eq!(cnx.width(), Some(1920));
    assert_eq!(cnx.offset(), Offset { x: 1920, y: -4 });
    let cnx = cnx.with_width(None);
    assert_eq!(cnx.width(), None);
    assert_eq!(cnx.offset(), Offset { x: 1920, y: -4 });
}

#[test]
fn offset_default_is_origin() {
    assert_eq!(Offset::default(), Offset { x: 0, y: 0 });
}

#[test]
fn registration_gives_slots_in_order() {
    let l = launched(4);
    let slots: Vec<(usize, char)> = l.widgets;
    assert_eq!(slots, vec![(0, 'a'), (1, 'b'), (2, 'c'), (3, 'd')]);
    assert_eq!(l.runtime.slot_count(), 4);
    for s in 0..4 {
        assert!(l.runtime.is_active(s));
        assert!(l.runtime.content(s).is_empty());
    }
    assert!(!l.runtime.is_active(4));
}

#[test]
fn registration_of_no_widgets() {
    let l = launched(0);
    assert!(l.widgets.is_empty());
    assert_eq!(l.runtime.slot_count(), 0);
}

#[test]
fn failed_connection_hands_out_no_widget() {
    let mut cnx = Cnx::new(Position::Top);
    cnx.add_widget(1u8);
    cnx.add_widget(2u8);
    let r = cnx.launch::<(), String, &'static str>(Err(String::from("no display")));
    match r {
        Err(e) => assert_eq!(e, "no display"),
        Ok(_) => panic!("launch must fail"),
    }
}

#[test]
fn three_widget_scenario() {
    let mut l = launched(3);
    let rt = &mut l.runtime;
    let a = rt.handle(ok(0, &["A"]));
    assert!(is_redraw(&a, 0));
    let a = rt.handle::<u32, String>(Event::Ended(0));
    assert!(matches!(a, Action::Dropped(0)));
    let a = rt.handle::<u32, String>(Event::Item(1, Err(String::from("sensor gone"))));
    assert!(matches!(a, Action::WidgetFailed(1, ref e) if e == "sensor gone"));
    let a = rt.handle(ok(1, &["B"]));
    assert!(is_redraw(&a, 1));
    assert_eq!(rt.content(0), &vec!["A"]);
    assert!(!rt.is_active(0));
    assert_eq!(rt.content(1), &vec!["B"]);
    assert!(rt.is_active(1));
    assert!(rt.content(2).is_empty());
    assert!(rt.is_active(2));
}

#[test]
fn system_event_and_update_both_handled_in_either_order() {
    for system_first in [true, false] {
        let mut l = launched(1);
        let rt = &mut l.runtime;
        let mut events: Vec<Ev> = vec![Event::System(7), ok(0, &["x"])];
        if !system_first {
            events.reverse();
        }
        let mut processed = 0;
        let mut redrawn = 0;
        for ev in events {
            match rt.handle(ev) {
                Action::Process(x) => {
                    assert_eq!(x, 7);
                    processed += 1;
                }
                Action::Redraw(0) => redrawn += 1,
                _ => panic!("unexpected action"),
            }
        }
        assert_eq!(processed, 1);
        assert_eq!(redrawn, 1);
        assert_eq!(rt.content(0), &vec!["x"]);
    }
}

#[test]
fn updates_of_one_widget_apply_in_order() {
    let mut l = launched(2);
    let rt = &mut l.runtime;
    let events: Vec<Ev> = vec![
        ok(0, &["1"]),
        Event::System(3),
        ok(1, &["other"]),
        ok(0, &["2"]),
        ok(0, &["3"]),
        Event::Ended(0),
        ok(0, &["late"]),
    ];
    let mut seen = Vec::new();
    for ev in events {
        if let Action::Redraw(0) = rt.handle(ev) {
            seen.push(rt.content(0).clone());
        }
    }
    assert_eq!(seen, vec![vec!["1"], vec!["2"], vec!["3"]]);
    assert_eq!(rt.content(0), &vec!["3"]);
    assert_eq!(rt.content(1), &vec!["other"]);
}

#[test]
fn failing_item_leaves_other_slots_alone() {
    let mut l = launched(3);
    let rt = &mut l.runtime;
    rt.handle(ok(0, &["zero"]));
    rt.handle(ok(2, &["two"]));
    let a = rt.handle::<u32, String>(Event::Item(1, Err(String::from("bad"))));
    assert!(matches!(a, Action::WidgetFailed(1, _)));
    assert_eq!(rt.content(0), &vec!["zero"]);
    assert!(rt.content(1).is_empty());
    assert_eq!(rt.content(2), &vec!["two"]);
    assert!(rt.is_active(1));
    let a = rt.handle(ok(1, &["one"]));
    assert!(is_redraw(&a, 1));
    assert_eq!(rt.content(1), &vec!["one"]);
}

#[test]
fn same_update_twice_equals_once() {
    let mut l = launched(1);
    let rt = &mut l.runtime;
    rt.handle(ok(0, &["p", "q"]));
    let once = rt.content(0).clone();
    rt.handle(ok(0, &["p", "q"]));
    assert_eq!(rt.content(0), &once);
    assert_eq!(once, vec!["p", "q"]);
}

#[test]
fn events_for_unknown_or_ended_slots_are_ignored() {
    let mut rt: Runtime<&'static str> = Runtime::new();
    assert_eq!(rt.register(), 0);
    assert!(matches!(rt.handle(ok(5, &["x"])), Action::Ignored));
    assert!(matches!(rt.handle::<u32, String>(Event::Ended(5)), Action::Ignored));
    assert!(matches!(rt.handle::<u32, String>(Event::Ended(0)), Action::Dropped(0)));
    assert!(matches!(rt.handle::<u32, String>(Event::Ended(0)), Action::Ignored));
    assert!(matches!(rt.handle::<u32, String>(Event::Item(0, Err(String::new()))), Action::Ignored));
    assert!(matches!(rt.handle(ok(0, &["x"])), Action::Ignored));
    assert!(rt.content(0).is_empty());
}

#[test]
fn template_markup() {
    let r = template(String::from("I"), String::from("42%"));
    assert_eq!(
        r,
        "<span foreground=\"#00ee00\">I</span><span foreground=\"#eeeeee\">42%</span>"
    );
}
