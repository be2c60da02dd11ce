//! What an operation asks of the connection, and how it hands control back.

use vstd::prelude::*;

verus! {

/// Layout of the pixel data of an image upload.
#[derive(Clone, Copy, Debug, PartialEq, Eq)]
pub enum ImageFormat {
    /// One bit plane after another.
    XyPixmap,
    /// Whole pixels, one after another.
    ZPixmap,
}

/// How much of a request's fate the operation wants to hear about.
#[derive(Clone, Copy, Debug, PartialEq, Eq)]
pub enum Report {
    /// The outcome of the whole exchange: the value it produced, or the
    /// error of sending it or of the server's answer.
    Outcome,
    /// Only whether the request could be sent; the server's answer is not
    /// awaited and an error in it is dropped.
    SendOnly,
    /// Nothing: the request is sent on a best-effort basis.
    Nothing,
}

/// One exchange with the display server or the cursor theme.
#[derive(Debug, PartialEq, Eq)]
pub enum Request {
    /// Allocate a fresh resource identifier.
    GenerateId,
    CreatePixmap { depth: u8, pixmap: u32, drawable: u32, width: u16, height: u16 },
    CreateGc { gc: u32, drawable: u32 },
    PutImage {
        format: ImageFormat,
        drawable: u32,
        gc: u32,
        width: u16,
        height: u16,
        dst_x: i16,
        dst_y: i16,
        left_pad: u8,
        depth: u8,
        data: Vec<u8>,
    },
    FreeGc { gc: u32 },
    CreatePicture { picture: u32, drawable: u32, pict_format: u32 },
    FreePixmap { pixmap: u32 },
    CreateCursor { cursor: u32, picture: u32, x: u16, y: u16 },
    FreePicture { picture: u32 },
    /// Open the cursor theme of the default screen.
    OpenTheme,
    /// Look `name` up in the opened theme; produces a cursor.
    LoadCursor { name: &'static str },
    /// Make `cursor` the cursor of `window`.
    ChangeWindowCursor { window: u32, cursor: u32 },
    /// Push everything queued so far out to the server.
    Flush,
    FreeCursor { cursor: u32 },
}

impl Request {
    /// Requests that release a server-side resource.
    pub open spec fn is_release(self) -> bool {
        self is FreeGc || self is FreePixmap || self is FreePicture || self is FreeCursor
    }

    /// Requests that consult the cursor theme.
    pub open spec fn is_theme(self) -> bool {
        self is OpenTheme || self is LoadCursor
    }

    pub open spec fn report_spec(&self) -> Report {
        if self.is_release() {
            Report::Nothing
        } else if self is CreatePixmap || self is CreateGc || self is PutImage
            || self is ChangeWindowCursor {
            Report::SendOnly
        } else {
            Report::Outcome
        }
    }

    /// What the caller reports back after performing this request.
    /// Releases are fire-and-forget, the plain creation and drawing requests
    /// only report a failure to send, and everything else, the creation of
    /// the picture and of the cursor included, reports its full outcome.
    #[verifier::when_used_as_spec(report_spec)]
    pub fn report(&self) -> (r: Report)
        ensures
            r == self.report_spec(),
    {
        match self {
            Request::FreeGc { .. } | Request::FreePixmap { .. } | Request::FreePicture { .. }
            | Request::FreeCursor { .. } => Report::Nothing,
            Request::CreatePixmap { .. } | Request::CreateGc { .. } | Request::PutImage { .. }
            | Request::ChangeWindowCursor { .. } => Report::SendOnly,
            _ => Report::Outcome,
        }
    }
}

/// Where an operation stands after a step.
#[derive(Debug, PartialEq, Eq)]
pub enum Progress<S, T> {
    /// Perform `request` and feed what it reported to `state`.
    Send { state: S, request: Request },
    /// The operation is over, with this result.
    Done(T),
}

impl<S: View, T> View for Progress<S, T> {
    type V = Progress<S::V, T>;

    open spec fn view(&self) -> Progress<S::V, T> {
        match *self {
            Progress::Send { state, request } => Progress::Send { state: state@, request },
            Progress::Done(t) => Progress::Done(t),
        }
    }
}

/// Why a cursor could not be realised.
#[derive(Debug, PartialEq, Eq)]
pub enum CursorError<E> {
    /// The connection, the server or the theme reported `E`.
    Connection(E),
    /// The server advertises no picture format with the ARGB32 layout.
    NoArgb32Format,
}

} // verus!
