use tray_icon_win::{os_error_message, BadIcon, Error, Icon};

#[test]
fn icon_zero_by_zero_is_accepted() {
    let icon = Icon::from_rgba(Vec::new(), 0, 0).unwrap();
    assert_eq!(icon.width(), 0);
    assert_eq!(icon.height(), 0);
    assert!(icon.rgba().is_empty());
}

#[test]
fn icon_exact_buffer_is_accepted() {
    let bytes: Vec<u8> = (0..24).collect();
    let icon = Icon::from_rgba(bytes.clone(), 3, 2).unwrap();
    assert_eq!(icon.width(), 3);
    assert_eq!(icon.height(), 2);
    assert_eq!(icon.rgba(), &bytes);
    let copy = icon.clone();
    assert_eq!(copy.rgba(), &bytes);
}

#[test]
fn icon_partial_pixel_is_refused() {
    let r = Icon::from_rgba(vec![0u8; 5], 1, 1);
    assert_eq!(r.err(), Some(BadIcon::ByteCountNotDivisibleBy4 { byte_count: 5 }));
}

#[test]
fn icon_wrong_pixel_count_is_refused() {
    let r = Icon::from_rgba(vec![0u8; 4], 2, 2);
    assert_eq!(
        r.err(),
        Some(BadIcon::DimensionsVsPixelCount { width: 2, height: 2, width_x_height: 4, pixel_count: 1 })
    );
}

#[test]
fn icon_huge_dimensions_do_not_panic() {
    let r = Icon::from_rgba(Vec::new(), u32::MAX, u32::MAX);
    assert_eq!(
        r.err(),
        Some(BadIcon::DimensionsVsPixelCount {
            width: u32::MAX,
            height: u32::MAX,
            width_x_height: (u32::MAX as u64) * (u32::MAX as u64),
            pixel_count: 0,
        })
    );
}

#[test]
fn error_messages() {
    assert_eq!(Error::NotMainThread.message(), "Not on the main thread");
    let e = Error::OsError(std::io::Error::new(std::io::ErrorKind::Other, "boom"));
    assert_eq!(e.message(), "OS error: boom");
}

#[test]
fn os_error_message_appends_text() {
    assert_eq!(os_error_message("boom"), "OS error: boom");
    assert_eq!(os_error_message(""), "OS error: ");
}
