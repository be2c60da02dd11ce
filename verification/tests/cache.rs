use x11_cursor::cache::CursorCache;
use x11_cursor::connection::XConnection;
use x11_cursor::icon::{CursorIcon, NamedIcon};
use x11_cursor::request::{CursorError, Progress, Request};
use x11_cursor::set_cursor::{SetCursorError, SetCursorIcon};
use x11_cursor::update::CursorUpdate;

fn icon(id: u32, name: &'static str) -> NamedIcon {
    NamedIcon { icon: CursorIcon { id }, name, alt_names: vec!["default"] }
}

/// Shows `cursor` on `window`. The theme knows the names in `theme`; an
/// allocation reports `*next_id`, counted up; nothing else fails. Returns
/// what was sent and how it ended.
fn show(
    xconn: &mut XConnection,
    window: u32,
    cursor: Option<NamedIcon>,
    theme: &[(&str, u32)],
    next_id: &mut u32,
) -> (Vec<Request>, Result<(), SetCursorError<String>>) {
    let (mut state, mut request) = xconn.set_cursor_icon::<String>(window, cursor);
    let mut sent = Vec::new();
    loop {
        let reply = match &request {
            Request::LoadCursor { name } => match theme.iter().find(|(known, _)| known == name) {
                Some((_, cursor)) => Ok(*cursor),
                None => Err(format!("no cursor named {name}")),
            },
            Request::GenerateId => {
                *next_id += 1;
                Ok(*next_id)
            }
            _ => Ok(0),
        };
        sent.push(request);
        match state.step(&mut xconn.cursor_cache, reply) {
            Progress::Send { state: next, request: then } => {
                state = next;
                request = then;
            }
            Progress::Done(outcome) => return (sent, outcome),
        }
    }
}

#[test]
fn cache_keeps_the_first_cursor_of_a_selector() {
    let mut cache = CursorCache::new();
    let hand = Some(CursorIcon { id: 7 });
    assert_eq!(cache.get(hand), None);
    assert_eq!(cache.get(None), None);

    assert_eq!(cache.or_insert(hand, 41), 41);
    assert_eq!(cache.get(hand), Some(41));
    assert_eq!(cache.or_insert(hand, 99), 41);
    assert_eq!(cache.get(hand), Some(41));
    assert_eq!(cache.get(None), None);
    assert_eq!(cache.get(Some(CursorIcon { id: 8 })), None);
}

#[test]
fn invisible_cursor_has_an_entry_of_its_own() {
    let mut cache = CursorCache::new();
    assert_eq!(cache.or_insert(Some(CursorIcon { id: 0 }), 5), 5);
    assert_eq!(cache.get(None), None);
    assert_eq!(cache.or_insert(None, 6), 6);
    assert_eq!(cache.or_insert(None, 7), 6);
    assert_eq!(cache.get(None), Some(6));
    assert_eq!(cache.get(Some(CursorIcon { id: 0 })), Some(5));
}

#[test]
fn selector_is_resolved_once() {
    let mut xconn = XConnection::new(0x40, vec![]);
    let mut next_id = 100;
    let theme = [("hand", 31)];

    let (sent, outcome) = show(&mut xconn, 1, Some(icon(7, "hand")), &theme, &mut next_id);
    assert_eq!(outcome, Ok(()));
    assert_eq!(
        sent,
        vec![
            Request::OpenTheme,
            Request::LoadCursor { name: "hand" },
            Request::ChangeWindowCursor { window: 1, cursor: 31 },
            Request::Flush,
        ]
    );
    assert_eq!(xconn.cursor_cache.get(Some(CursorIcon { id: 7 })), Some(31));

    let other_theme = [("hand", 77)];
    let (sent, outcome) = show(&mut xconn, 2, Some(icon(7, "hand")), &other_theme, &mut next_id);
    assert_eq!(outcome, Ok(()));
    assert_eq!(sent, vec![Request::ChangeWindowCursor { window: 2, cursor: 31 }, Request::Flush]);
    assert_eq!(xconn.cursor_cache.get(Some(CursorIcon { id: 7 })), Some(31));
}

#[test]
fn distinct_selectors_get_distinct_cursors() {
    let mut xconn = XConnection::new(0x40, vec![]);
    let mut next_id = 100;
    let (_, a) = show(&mut xconn, 1, Some(icon(1, "hand")), &[("default", 31)], &mut next_id);
    let (_, b) = show(&mut xconn, 1, Some(icon(2, "grab")), &[("default", 32)], &mut next_id);
    assert_eq!((a, b), (Ok(()), Ok(())));
    let first = xconn.cursor_cache.get(Some(CursorIcon { id: 1 }));
    let second = xconn.cursor_cache.get(Some(CursorIcon { id: 2 }));
    assert_eq!(first, Some(31));
    assert_eq!(second, Some(32));
    assert_ne!(first, second);
}

#[test]
fn failed_resolution_is_not_remembered() {
    let mut xconn = XConnection::new(0x40, vec![]);
    let mut next_id = 100;

    let (sent, outcome) = show(&mut xconn, 1, Some(icon(7, "hand")), &[], &mut next_id);
    assert_eq!(
        outcome,
        Err(SetCursorError::Create(CursorError::Connection(
            "no cursor named default".to_string()
        )))
    );
    assert_eq!(
        sent,
        vec![
            Request::OpenTheme,
            Request::LoadCursor { name: "hand" },
            Request::LoadCursor { name: "default" },
        ]
    );
    assert_eq!(xconn.cursor_cache.get(Some(CursorIcon { id: 7 })), None);

    let (sent, outcome) = show(&mut xconn, 1, Some(icon(7, "hand")), &[("hand", 5)], &mut next_id);
    assert_eq!(outcome, Ok(()));
    assert_eq!(sent[0], Request::OpenTheme);
    assert_eq!(xconn.cursor_cache.get(Some(CursorIcon { id: 7 })), Some(5));
}

#[test]
fn invisible_cursor_is_built_once_and_cached() {
    let formats = vec![x11_cursor::format::PictFormat {
        id: 0x2a,
        type_: 1,
        depth: 32,
        direct: x11_cursor::format::DirectFormat {
            red_shift: 16,
            red_mask: 0xff,
            green_shift: 8,
            green_mask: 0xff,
            blue_shift: 0,
            blue_mask: 0xff,
            alpha_shift: 24,
            alpha_mask: 0xff,
        },
    }];
    let mut xconn = XConnection::new(0x40, formats);
    assert_eq!(xconn.find_argb32_format(), 0x2a);
    let mut next_id = 100;

    let (sent, outcome) = show(&mut xconn, 9, None, &[], &mut next_id);
    assert_eq!(outcome, Ok(()));
    assert_eq!(sent.len(), 14);
    assert_eq!(sent[7], Request::CreatePicture { picture: 103, drawable: 101, pict_format: 0x2a });
    assert_eq!(sent[10], Request::FreePicture { picture: 103 });
    assert_eq!(sent[11], Request::FreePixmap { pixmap: 101 });
    assert_eq!(sent[12], Request::ChangeWindowCursor { window: 9, cursor: 104 });
    assert_eq!(sent[13], Request::Flush);
    assert_eq!(xconn.cursor_cache.get(None), Some(104));

    let (sent, outcome) = show(&mut xconn, 9, None, &[], &mut next_id);
    assert_eq!(outcome, Ok(()));
    assert_eq!(sent, vec![Request::ChangeWindowCursor { window: 9, cursor: 104 }, Request::Flush]);
}

#[test]
fn connection_without_argb32_cannot_build_the_invisible_cursor() {
    let mut xconn = XConnection::new(0x40, vec![]);
    let mut next_id = 100;
    let (sent, outcome) = show(&mut xconn, 9, None, &[], &mut next_id);
    assert_eq!(outcome, Err(SetCursorError::Create(CursorError::NoArgb32Format)));
    assert_eq!(sent.last(), Some(&Request::FreePixmap { pixmap: 101 }));
    assert_eq!(xconn.cursor_cache.get(None), None);
}

#[test]
fn update_changes_the_window_then_flushes() {
    let xconn = XConnection::new(0x40, vec![]);
    let (state, request) = xconn.update_cursor(5, 6);
    assert_eq!(state, CursorUpdate::Changing);
    assert_eq!(request, Request::ChangeWindowCursor { window: 5, cursor: 6 });
    let flushing = match state.step::<String>(Ok(0)) {
        Progress::Send { state, request } => {
            assert_eq!(request, Request::Flush);
            state
        }
        Progress::Done(outcome) => panic!("ended with {outcome:?}"),
    };
    assert_eq!(flushing, CursorUpdate::Flushing);
    assert_eq!(flushing.step::<String>(Ok(0)), Progress::Done(Ok(())));
}

#[test]
fn update_reports_a_failed_flush() {
    assert_eq!(
        CursorUpdate::Flushing.step(Err("broken pipe")),
        Progress::Done(Err("broken pipe"))
    );
    assert_eq!(
        CursorUpdate::Changing.step(Err("broken pipe")),
        Progress::Done(Err("broken pipe"))
    );
}

#[test]
fn failed_update_of_a_cached_cursor_is_an_update_error() {
    let mut xconn = XConnection::new(0x40, vec![]);
    xconn.cursor_cache.or_insert(Some(CursorIcon { id: 7 }), 31);
    let (state, request) = xconn.set_cursor_icon::<String>(1, Some(icon(7, "hand")));
    assert_eq!(request, Request::ChangeWindowCursor { window: 1, cursor: 31 });
    let state = match state.step(&mut xconn.cursor_cache, Ok(0)) {
        Progress::Send { state, request } => {
            assert_eq!(request, Request::Flush);
            state
        }
        Progress::Done(outcome) => panic!("ended with {outcome:?}"),
    };
    match state.step(&mut xconn.cursor_cache, Err("gone".to_string())) {
        Progress::Done(outcome) => {
            assert_eq!(outcome, Err(SetCursorError::Update("gone".to_string())))
        }
        Progress::Send { request, .. } => panic!("sent {request:?}"),
    }
    let _: Option<SetCursorIcon<String>> = None;
}
