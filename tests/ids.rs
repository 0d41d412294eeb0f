use tray_icon_win::{Counter, TrayIconId};

#[test]
fn counter_starts_at_one() {
    let mut c = Counter::new();
    assert_eq!(c.peek(), 1);
    assert_eq!(c.next(), 1);
    assert_eq!(c.next(), 2);
    assert_eq!(c.peek(), 3);
}

#[test]
fn counter_with_start() {
    let mut c = Counter::new_with_start(40);
    assert_eq!(c.next(), 40);
    assert_eq!(c.next(), 41);
}

#[test]
fn counter_values_strictly_increase() {
    let mut c = Counter::new();
    let mut seen: Vec<u32> = Vec::new();
    for _ in 0..1000 {
        seen.push(c.next());
    }
    for w in seen.windows(2) {
        assert!(w[0] < w[1]);
    }
}

#[test]
fn id_from_number_is_decimal() {
    assert_eq!(TrayIconId::from_number(0).as_str(), "0");
    assert_eq!(TrayIconId::from_number(7).as_str(), "7");
    assert_eq!(TrayIconId::from_number(1234).as_str(), "1234");
    assert_eq!(TrayIconId::from_number(u32::MAX).as_str(), "4294967295");
}

#[test]
fn id_new_keeps_text() {
    let id = TrayIconId::new("tray-main");
    assert_eq!(id.as_str(), "tray-main");
    assert_eq!(id.0, "tray-main".to_string());
    assert_eq!(TrayIconId::default().as_str(), "");
}

#[test]
fn id_comparison() {
    let a = TrayIconId::new("abc");
    assert!(a.same_as(&TrayIconId::new("abc")));
    assert!(!a.same_as(&TrayIconId::new("abd")));
    assert!(!a.same_as(&TrayIconId::new("ab")));
    assert!(a.clone().same_as(&a));
}

#[test]
fn numbered_ids_are_distinct() {
    let mut c = Counter::new_with_start(8);
    let a = TrayIconId::from_number(c.next());
    let b = TrayIconId::from_number(c.next());
    let d = TrayIconId::from_number(c.next());
    assert_eq!(a.as_str(), "8");
    assert_eq!(b.as_str(), "9");
    assert_eq!(d.as_str(), "10");
    assert!(!a.same_as(&b) && !b.same_as(&d) && !a.same_as(&d));
}
