use std::cell::RefCell;
use std::rc::Rc;
use tray_icon_win::{
    EventDispatcher, MouseButton, MouseButtonState, Position, Rect, Size, TrayIconEvent, TrayIconId,
};

fn click(id: &str) -> TrayIconEvent {
    TrayIconEvent::Click {
        id: TrayIconId::new(id),
        position: Position::default(),
        rect: Rect::default(),
        button: MouseButton::Left,
        button_state: MouseButtonState::Down,
    }
}

fn enter(id: &str, x: i32) -> TrayIconEvent {
    TrayIconEvent::Enter { id: TrayIconId::new(id), position: Position { x, y: 1 }, rect: Rect::default() }
}

type Handler = Box<dyn Fn(TrayIconEvent)>;

fn recorder(log: &Rc<RefCell<Vec<String>>>, tag: &'static str) -> Handler {
    let log = log.clone();
    Box::new(move |e: TrayIconEvent| log.borrow_mut().push(format!("{}:{}", tag, e.id().as_str())))
}

#[test]
fn defaults() {
    assert_eq!(MouseButton::default(), MouseButton::Left);
    assert_eq!(MouseButtonState::default(), MouseButtonState::Up);
    let r = Rect::default();
    assert_eq!(r.size, Size { width: 0, height: 0 });
    assert_eq!(r.position, Position { x: 0, y: 0 });
}

#[test]
fn every_event_kind_exposes_its_id() {
    let rect = Rect { size: Size { width: 16, height: 16 }, position: Position { x: 5, y: 6 } };
    let p = Position { x: 3, y: 4 };
    let events = vec![
        TrayIconEvent::Click {
            id: TrayIconId::new("a"),
            position: p,
            rect,
            button: MouseButton::Right,
            button_state: MouseButtonState::Up,
        },
        TrayIconEvent::DoubleClick { id: TrayIconId::new("b"), position: p, rect, button: MouseButton::Middle },
        TrayIconEvent::Enter { id: TrayIconId::new("c"), position: p, rect },
        TrayIconEvent::Move { id: TrayIconId::new("d"), position: p, rect },
        TrayIconEvent::Leave { id: TrayIconId::new("e"), position: p, rect },
    ];
    let ids: Vec<&str> = events.iter().map(|e| e.id().as_str()).collect();
    assert_eq!(ids, vec!["a", "b", "c", "d", "e"]);
    for e in &events {
        assert_eq!(e.position(), p);
        assert_eq!(e.rect(), rect);
        assert_eq!(e.clone(), *e);
    }
    assert_ne!(events[2], events[3]);
    assert_ne!(enter("c", 1), enter("c", 2));
}

#[test]
fn without_handler_events_are_queued() {
    let mut d: EventDispatcher<Handler> = EventDispatcher::new();
    assert_eq!(d.try_recv(), None);
    d.send(click("id"));
    assert_eq!(d.try_recv(), Some(click("id")));
    assert_eq!(d.try_recv(), None);
}

#[test]
fn handler_takes_events_instead_of_queue() {
    let log = Rc::new(RefCell::new(Vec::new()));
    let mut d: EventDispatcher<Handler> = EventDispatcher::new();
    d.set_event_handler(Some(recorder(&log, "f")));
    d.send(click("one"));
    d.send(enter("two", 0));
    assert_eq!(*log.borrow(), vec!["f:one".to_string(), "f:two".to_string()]);
    assert_eq!(d.try_recv(), None);
}

#[test]
fn first_handler_wins() {
    let log = Rc::new(RefCell::new(Vec::new()));
    let mut d: EventDispatcher<Handler> = EventDispatcher::new();
    d.set_event_handler(Some(recorder(&log, "f1")));
    d.set_event_handler(Some(recorder(&log, "f2")));
    d.send(click("x"));
    assert_eq!(*log.borrow(), vec!["f1:x".to_string()]);
    assert_eq!(d.try_recv(), None);
}

#[test]
fn explicit_no_handler_drops_events() {
    let log = Rc::new(RefCell::new(Vec::new()));
    let mut d: EventDispatcher<Handler> = EventDispatcher::new();
    d.set_event_handler(None);
    d.set_event_handler(Some(recorder(&log, "late")));
    d.send(click("x"));
    assert!(log.borrow().is_empty());
    assert_eq!(d.try_recv(), None);
}

#[test]
fn first_send_fixes_queue_routing() {
    let log = Rc::new(RefCell::new(Vec::new()));
    let mut d: EventDispatcher<Handler> = EventDispatcher::new();
    d.send(click("early"));
    d.set_event_handler(Some(recorder(&log, "late")));
    d.send(click("after"));
    assert!(log.borrow().is_empty());
    assert_eq!(d.try_recv(), Some(click("early")));
    assert_eq!(d.try_recv(), Some(click("after")));
    assert_eq!(d.try_recv(), None);
}

#[test]
fn events_come_out_in_order() {
    let mut d: EventDispatcher<Handler> = EventDispatcher::new();
    d.send(enter("e1", 1));
    d.send(enter("e2", 2));
    d.send(enter("e3", 3));
    assert_eq!(d.try_recv(), Some(enter("e1", 1)));
    assert_eq!(d.try_recv(), Some(enter("e2", 2)));
    assert_eq!(d.try_recv(), Some(enter("e3", 3)));
    assert_eq!(d.try_recv(), None);
}
