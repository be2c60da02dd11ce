use x11_cursor::icon::{CursorIcon, NamedIcon};
use x11_cursor::lookup::CursorLookup;
use x11_cursor::request::{CursorError, Progress, Request};

type Outcome = Result<u32, CursorError<String>>;

fn hand() -> NamedIcon {
    NamedIcon { icon: CursorIcon { id: 7 }, name: "hand", alt_names: vec!["pointer", "default"] }
}

/// Resolves `cursor` against a theme that knows the names in `theme`; every
/// allocation reports an identifier counted up from 100. Returns the
/// requests in the order they were sent, and the result.
fn resolve(cursor: Option<NamedIcon>, theme: &[(&str, u32)]) -> (Vec<Request>, Outcome) {
    let (mut state, mut request) = CursorLookup::<String>::start(0x40, Some(0x2a), cursor);
    let mut sent = Vec::new();
    let mut next_id = 100;
    loop {
        let reply = match &request {
            Request::LoadCursor { name } => match theme.iter().find(|(known, _)| known == name) {
                Some((_, cursor)) => Ok(*cursor),
                None => Err(format!("no cursor named {name}")),
            },
            Request::GenerateId => {
                next_id += 1;
                Ok(next_id)
            }
            _ => Ok(0),
        };
        sent.push(request);
        match state.step(reply) {
            Progress::Send { state: next, request: then } => {
                state = next;
                request = then;
            }
            Progress::Done(outcome) => return (sent, outcome),
        }
    }
}

fn load(name: &'static str) -> Request {
    Request::LoadCursor { name }
}

#[test]
fn canonical_name_is_tried_first() {
    let (sent, outcome) = resolve(Some(hand()), &[("default", 3), ("pointer", 2), ("hand", 1)]);
    assert_eq!(sent, vec![Request::OpenTheme, load("hand")]);
    assert_eq!(outcome, Ok(1));
}

#[test]
fn fallback_stops_at_the_first_name_the_theme_knows() {
    let (sent, outcome) = resolve(Some(hand()), &[("default", 3)]);
    assert_eq!(sent, vec![Request::OpenTheme, load("hand"), load("pointer"), load("default")]);
    assert_eq!(outcome, Ok(3));
}

#[test]
fn alternates_after_a_success_are_not_tried() {
    let (sent, outcome) = resolve(Some(hand()), &[("pointer", 2), ("default", 3)]);
    assert_eq!(sent, vec![Request::OpenTheme, load("hand"), load("pointer")]);
    assert_eq!(outcome, Ok(2));
}

#[test]
fn when_every_name_fails_the_last_error_is_reported() {
    let (sent, outcome) = resolve(Some(hand()), &[]);
    assert_eq!(sent, vec![Request::OpenTheme, load("hand"), load("pointer"), load("default")]);
    assert_eq!(outcome, Err(CursorError::Connection("no cursor named default".to_string())));
}

#[test]
fn icon_without_alternates_has_one_try() {
    let icon = NamedIcon { icon: CursorIcon { id: 1 }, name: "text", alt_names: vec![] };
    let (sent, outcome) = resolve(Some(icon), &[]);
    assert_eq!(sent, vec![Request::OpenTheme, load("text")]);
    assert_eq!(outcome, Err(CursorError::Connection("no cursor named text".to_string())));
}

#[test]
fn theme_that_cannot_be_opened_ends_the_lookup() {
    let (state, request) = CursorLookup::<String>::start(0x40, Some(0x2a), Some(hand()));
    assert_eq!(request, Request::OpenTheme);
    match state.step(Err("no theme".to_string())) {
        Progress::Done(outcome) => {
            assert_eq!(outcome, Err(CursorError::Connection("no theme".to_string())))
        }
        Progress::Send { request, .. } => panic!("sent {request:?}"),
    }
}

#[test]
fn absent_selector_builds_a_transparent_pixel_without_the_theme() {
    let (sent, outcome) = resolve(None, &[("default", 3)]);
    assert_eq!(outcome, Ok(104));
    assert_eq!(sent.len(), 12);
    assert!(sent.iter().all(|r| !matches!(r, Request::OpenTheme | Request::LoadCursor { .. })));
    assert_eq!(
        sent[1],
        Request::CreatePixmap { depth: 32, pixmap: 101, drawable: 0x40, width: 1, height: 1 }
    );
    match &sent[4] {
        Request::PutImage { width, height, depth, data, .. } => {
            assert_eq!((*width, *height, *depth), (1, 1, 32));
            assert_eq!(data, &vec![0u8, 0, 0, 0]);
        }
        other => panic!("sent {other:?}"),
    }
    assert_eq!(sent[9], Request::CreateCursor { cursor: 104, picture: 103, x: 0, y: 0 });
    assert_eq!(sent[10], Request::FreePicture { picture: 103 });
    assert_eq!(sent[11], Request::FreePixmap { pixmap: 101 });
}

#[test]
fn absent_selector_stays_away_from_the_theme_when_the_build_fails() {
    let (mut state, mut request) = CursorLookup::<String>::start(0x40, None, None);
    let mut sent = Vec::new();
    let outcome = loop {
        sent.push(request);
        match state.step(Ok(9)) {
            Progress::Send { state: next, request: then } => {
                state = next;
                request = then;
            }
            Progress::Done(outcome) => break outcome,
        }
    };
    assert_eq!(outcome, Err(CursorError::NoArgb32Format));
    assert_eq!(sent.last(), Some(&Request::FreePixmap { pixmap: 9 }));
    assert!(sent.iter().all(|r| !matches!(r, Request::OpenTheme | Request::LoadCursor { .. })));
}
