use x11_cursor::connection::XConnection;
use x11_cursor::custom::{rgba_to_bgra, CursorImage, CustomCursor, CustomCursors, SelectedCursor};
use x11_cursor::icon::CursorIcon;
use x11_cursor::request::{Progress, Request};

#[test]
fn red_and_blue_change_places_in_every_pixel() {
    let mut data = vec![1, 2, 3, 4, 5, 6, 7, 8, 9, 10, 11, 12];
    rgba_to_bgra(&mut data);
    assert_eq!(data, vec![3, 2, 1, 4, 7, 6, 5, 8, 11, 10, 9, 12]);
}

#[test]
fn conversion_of_nothing_is_nothing() {
    let mut data: Vec<u8> = vec![];
    rgba_to_bgra(&mut data);
    assert_eq!(data, Vec::<u8>::new());
}

#[test]
fn three_bytes_of_a_last_pixel_are_converted_too() {
    let mut data = vec![1, 2, 3, 4, 5, 6, 7];
    rgba_to_bgra(&mut data);
    assert_eq!(data, vec![3, 2, 1, 4, 7, 6, 5]);
}

#[test]
fn converting_twice_gives_the_image_back() {
    let image: Vec<u8> = (0..=255).collect();
    let mut data = image.clone();
    rgba_to_bgra(&mut data);
    assert_ne!(data, image);
    rgba_to_bgra(&mut data);
    assert_eq!(data, image);
}

#[test]
fn custom_cursor_uploads_bgra_at_depth_32() {
    let xconn = XConnection::new(0x40, vec![]);
    let image = CursorImage {
        rgba: vec![0xaa, 0xbb, 0xcc, 0xdd, 0x11, 0x22, 0x33, 0x44],
        width: 2,
        height: 1,
        hotspot_x: 1,
        hotspot_y: 0,
    };
    let (mut state, mut request) = xconn.create_custom_cursor::<String>(image);
    let mut sent = Vec::new();
    let mut id = 0;
    for _ in 0..4 {
        id += 1;
        sent.push(request);
        match state.step(Ok(id)) {
            Progress::Send { state: next, request: then } => {
                state = next;
                request = then;
            }
            Progress::Done(outcome) => panic!("ended with {outcome:?}"),
        }
    }
    assert_eq!(
        sent[1],
        Request::CreatePixmap { depth: 32, pixmap: 1, drawable: 0x40, width: 2, height: 1 }
    );
    assert_eq!(
        request,
        Request::PutImage {
            format: x11_cursor::request::ImageFormat::ZPixmap,
            drawable: 1,
            gc: 3,
            width: 2,
            height: 1,
            dst_x: 0,
            dst_y: 0,
            left_pad: 0,
            depth: 32,
            data: vec![0xcc, 0xbb, 0xaa, 0xdd, 0x33, 0x22, 0x11, 0x44],
        }
    );
}

#[test]
fn cursor_is_released_by_the_last_of_three_references() {
    let mut table = CustomCursors::new();
    let first = table.register(55);
    let second = table.share(&first).expect("alive");
    let third = table.share(&first).expect("alive");
    assert_eq!(first.cursor(), 55);
    assert_eq!(second.cursor(), 55);

    assert_eq!(table.release(second), None);
    assert_eq!(table.release(first), None);
    assert_eq!(table.release(third), Some(Request::FreeCursor { cursor: 55 }));
}

#[test]
fn sole_reference_releases_at_once() {
    let mut table = CustomCursors::new();
    let only = table.register(8);
    assert_eq!(table.release(only), Some(Request::FreeCursor { cursor: 8 }));
}

#[test]
fn released_cursor_is_not_released_again_nor_shared() {
    let mut table = CustomCursors::new();
    let only = table.register(8);
    let stale = table.share(&only).expect("alive");
    let other = table.share(&only).expect("alive");
    assert_eq!(table.release(only), None);
    assert_eq!(table.release(other), None);
    let keep = table.register(9);
    let stale_twin = table.share(&keep);
    assert!(stale_twin.is_some());
    assert_eq!(table.release(stale), Some(Request::FreeCursor { cursor: 8 }));

    let mut fresh = CustomCursors::new();
    let a = fresh.register(1);
    let b = fresh.share(&a).expect("alive");
    assert_eq!(fresh.release(a), None);
    assert_eq!(fresh.release(b), Some(Request::FreeCursor { cursor: 1 }));
    let c = fresh.register(1);
    let gone = table.register(1);
    assert_eq!(table.release(gone), Some(Request::FreeCursor { cursor: 1 }));
    assert_eq!(fresh.share(&c).map(|r| r.cursor()), Some(1));
}

#[test]
fn references_to_a_dead_slot_do_nothing() {
    let mut table = CustomCursors::new();
    let mut other = CustomCursors::new();
    let dead = table.register(8);
    let same_slot_elsewhere = other.register(8);
    assert_eq!(table.release(dead), Some(Request::FreeCursor { cursor: 8 }));
    assert_eq!(table.share(&same_slot_elsewhere), None);
    assert_eq!(table.release(same_slot_elsewhere), None);
}

#[test]
fn custom_cursors_are_equal_by_identity_not_by_content() {
    let mut table = CustomCursors::new();
    let a = table.register(55);
    let b = table.register(55);
    let a_again = table.share(&a).expect("alive");
    assert_ne!(a, b);
    assert_eq!(a, a_again);
    assert_eq!(SelectedCursor::Custom(a), SelectedCursor::Custom(a_again));
    assert_ne!(SelectedCursor::Custom(b), SelectedCursor::Named(CursorIcon { id: 55 }));
}

#[test]
fn custom_cursor_is_shown_without_the_cache() {
    let xconn = XConnection::new(0x40, vec![]);
    let mut table = CustomCursors::new();
    let cursor: CustomCursor = table.register(55);
    let (_, request) = xconn.set_custom_cursor(3, &cursor);
    assert_eq!(request, Request::ChangeWindowCursor { window: 3, cursor: 55 });
    assert_eq!(xconn.cursor_cache.get(None), None);
}

#[test]
fn default_selection_is_the_default_icon() {
    assert_eq!(SelectedCursor::default(), SelectedCursor::Named(CursorIcon::default()));
    assert_eq!(CursorIcon::default(), CursorIcon { id: 0 });
}

#[test]
fn only_whole_pixels_or_three_bytes_more_can_be_converted() {
    let image = |len: usize| CursorImage {
        rgba: vec![0; len],
        width: 1,
        height: 1,
        hotspot_x: 0,
        hotspot_y: 0,
    };
    assert!(image(0).is_convertible());
    assert!(image(4).is_convertible());
    assert!(image(64).is_convertible());
    assert!(image(7).is_convertible());
    assert!(!image(1).is_convertible());
    assert!(!image(2).is_convertible());
    assert!(!image(5).is_convertible());
    assert!(!image(6).is_convertible());
}
