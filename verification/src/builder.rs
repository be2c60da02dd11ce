//! Building a cursor from raw pixels.
//!
//! Four server-side resources are created one after the other: a pixmap, a
//! graphics context to draw the pixels into it, a picture over the pixmap
//! and the cursor made from the picture. Only the cursor outlives the build.
//! Every other resource is pushed on a stack of pending releases when it
//! comes to life. The graphics context is released as soon as the pixels are
//! uploaded; the pixmap and the picture stay until the build is over.
//! Whichever way the build ends, what is still on the stack is released, last
//! acquired first, before the result is handed out.

use vstd::prelude::*;
use crate::request::{CursorError, ImageFormat, Progress, Request};

verus! {

/// Size, depth and hotspot of the image a cursor is built from.
#[derive(Clone, Copy, Debug, PartialEq, Eq)]
pub struct ImageGeometry {
    pub width: u16,
    pub height: u16,
    pub depth: u8,
    pub hotspot_x: u16,
    pub hotspot_y: u16,
}

/// A resource that has to be released before the build is over.
#[derive(Clone, Copy, Debug, PartialEq, Eq)]
pub enum Guard {
    Pixmap(u32),
    Gc(u32),
    Picture(u32),
}

/// The request whose answer the build is waiting for.
#[derive(Clone, Copy, Debug, PartialEq, Eq)]
pub enum Stage {
    PixmapId,
    CreatePixmap,
    GcId,
    CreateGc,
    PutImage,
    FreeGc,
    PictureId,
    CreatePicture,
    CursorId,
    CreateCursor,
}

/// Whether the build is still under way or already decided.
#[derive(Debug, PartialEq, Eq)]
pub enum Phase<E> {
    Forward(Stage),
    /// The result is known; pending releases are being sent.
    Unwinding(Result<u32, CursorError<E>>),
}

/// The image format an upload of the given depth uses: bit planes for
/// one-bit images, packed pixels for everything else.
pub open spec fn image_format(depth: u8) -> ImageFormat {
    if depth == 1 {
        ImageFormat::XyPixmap
    } else {
        ImageFormat::ZPixmap
    }
}

impl Guard {
    pub open spec fn release_spec(self) -> Request {
        match self {
            Guard::Pixmap(pixmap) => Request::FreePixmap { pixmap },
            Guard::Gc(gc) => Request::FreeGc { gc },
            Guard::Picture(picture) => Request::FreePicture { picture },
        }
    }

    /// The request that releases the guarded resource.
    #[verifier::when_used_as_spec(release_spec)]
    pub fn release(self) -> (r: Request)
        ensures
            r == self.release_spec(),
    {
        match self {
            Guard::Pixmap(pixmap) => Request::FreePixmap { pixmap },
            Guard::Gc(gc) => Request::FreeGc { gc },
            Guard::Picture(picture) => Request::FreePicture { picture },
        }
    }
}

/// The releases of everything in `pending`, last acquired first.
pub open spec fn releases(pending: Seq<Guard>) -> Seq<Request> {
    Seq::new(pending.len(), |i: int| pending[pending.len() - 1 - i].release())
}

/// What a build is made of, as a mathematical value.
pub struct BuildModel<E> {
    pub phase: Phase<E>,
    pub geometry: ImageGeometry,
    /// The drawable the pixmap is created for.
    pub root: u32,
    /// The ARGB32 picture format of the server, if it has one.
    pub format: Option<u32>,
    /// The pixels, as long as they have not been uploaded.
    pub image: Option<Vec<u8>>,
    pub pixmap: u32,
    pub gc: u32,
    pub picture: u32,
    pub cursor: u32,
    /// Resources to release, in the order they were acquired.
    pub pending: Seq<Guard>,
}

impl<E> BuildModel<E> {
    /// A build that has just asked for the identifier of its pixmap.
    pub open spec fn start(
        geometry: ImageGeometry,
        root: u32,
        format: Option<u32>,
        image: Vec<u8>,
    ) -> BuildModel<E> {
        BuildModel {
            phase: Phase::Forward(Stage::PixmapId),
            geometry,
            root,
            format,
            image: Some(image),
            pixmap: 0,
            gc: 0,
            picture: 0,
            cursor: 0,
            pending: Seq::empty(),
        }
    }

    /// The resources that are alive while the build waits at `stage`.
    pub open spec fn live(self, stage: Stage) -> Seq<Guard> {
        match stage {
            Stage::PixmapId | Stage::CreatePixmap => Seq::empty(),
            Stage::GcId | Stage::CreateGc => seq![Guard::Pixmap(self.pixmap)],
            Stage::PutImage => seq![Guard::Pixmap(self.pixmap), Guard::Gc(self.gc)],
            Stage::FreeGc | Stage::PictureId | Stage::CreatePicture => seq![
                Guard::Pixmap(self.pixmap),
            ],
            Stage::CursorId | Stage::CreateCursor => seq![
                Guard::Pixmap(self.pixmap),
                Guard::Picture(self.picture),
            ],
        }
    }

    /// While the build is under way the stack holds exactly the live
    /// resources, and the pixels are still there until they are uploaded.
    pub open spec fn wf(self) -> bool {
        match self.phase {
            Phase::Unwinding(_) => true,
            Phase::Forward(stage) => {
                &&& self.pending =~= self.live(stage)
                &&& self.image is Some <==> (stage is PixmapId || stage is CreatePixmap
                    || stage is GcId || stage is CreateGc)
            },
        }
    }

    /// Goes on to `stage` by sending `request`.
    pub open spec fn forward(self, stage: Stage, request: Request) -> Progress<
        BuildModel<E>,
        Result<u32, CursorError<E>>,
    > {
        Progress::Send { state: BuildModel { phase: Phase::Forward(stage), ..self }, request }
    }

    /// Leaves the build with `outcome`: releases the resource on top of the
    /// stack, or hands the outcome out once the stack is empty.
    pub open spec fn exit(self, outcome: Result<u32, CursorError<E>>) -> Progress<
        BuildModel<E>,
        Result<u32, CursorError<E>>,
    > {
        if self.pending.len() == 0 {
            Progress::Done(outcome)
        } else {
            Progress::Send {
                state: BuildModel {
                    phase: Phase::Unwinding(outcome),
                    pending: self.pending.drop_last(),
                    ..self
                },
                request: self.pending.last().release(),
            }
        }
    }

    /// The step after the request of `stage` went well and produced `id`.
    pub open spec fn advance(self, stage: Stage, id: u32) -> Progress<
        BuildModel<E>,
        Result<u32, CursorError<E>>,
    > {
        match stage {
            Stage::PixmapId => BuildModel { pixmap: id, ..self }.forward(
                Stage::CreatePixmap,
                Request::CreatePixmap {
                    depth: self.geometry.depth,
                    pixmap: id,
                    drawable: self.root,
                    width: self.geometry.width,
                    height: self.geometry.height,
                },
            ),
            Stage::CreatePixmap => BuildModel {
                pending: self.pending.push(Guard::Pixmap(self.pixmap)),
                ..self
            }.forward(Stage::GcId, Request::GenerateId),
            Stage::GcId => BuildModel { gc: id, ..self }.forward(
                Stage::CreateGc,
                Request::CreateGc { gc: id, drawable: self.pixmap },
            ),
            Stage::CreateGc => BuildModel {
                pending: self.pending.push(Guard::Gc(self.gc)),
                image: None,
                ..self
            }.forward(
                Stage::PutImage,
                Request::PutImage {
                    format: image_format(self.geometry.depth),
                    drawable: self.pixmap,
                    gc: self.gc,
                    width: self.geometry.width,
                    height: self.geometry.height,
                    dst_x: 0,
                    dst_y: 0,
                    left_pad: 0,
                    depth: self.geometry.depth,
                    data: self.image->Some_0,
                },
            ),
            Stage::PutImage => BuildModel { pending: self.pending.drop_last(), ..self }.forward(
                Stage::FreeGc,
                Request::FreeGc { gc: self.gc },
            ),
            Stage::FreeGc => self.forward(Stage::PictureId, Request::GenerateId),
            Stage::PictureId => match self.format {
                Some(format) => BuildModel { picture: id, ..self }.forward(
                    Stage::CreatePicture,
                    Request::CreatePicture {
                        picture: id,
                        drawable: self.pixmap,
                        pict_format: format,
                    },
                ),
                None => self.exit(Err(CursorError::NoArgb32Format)),
            },
            Stage::CreatePicture => BuildModel {
                pending: self.pending.push(Guard::Picture(self.picture)),
                ..self
            }.forward(Stage::CursorId, Request::GenerateId),
            Stage::CursorId => BuildModel { cursor: id, ..self }.forward(
                Stage::CreateCursor,
                Request::CreateCursor {
                    cursor: id,
                    picture: self.picture,
                    x: self.geometry.hotspot_x,
                    y: self.geometry.hotspot_y,
                },
            ),
            Stage::CreateCursor => self.exit(Ok(self.cursor)),
        }
    }

    /// What the build does when `reply` comes back for the request it is
    /// waiting on. A failure ends the build with that error; what the
    /// release of the graphics context reports is not looked at.
    pub open spec fn step(self, reply: Result<u32, E>) -> Progress<
        BuildModel<E>,
        Result<u32, CursorError<E>>,
    > {
        match self.phase {
            Phase::Unwinding(outcome) => self.exit(outcome),
            Phase::Forward(stage) => if stage is FreeGc {
                self.advance(stage, 0)
            } else {
                match reply {
                    Ok(id) => self.advance(stage, id),
                    Err(e) => self.exit(Err(CursorError::Connection(e))),
                }
            },
        }
    }

    /// The requests the build sends in answer to `replies`, one for each
    /// reply for as long as it is not over.
    pub open spec fn requests(self, replies: Seq<Result<u32, E>>) -> Seq<Request>
        decreases replies.len(),
    {
        if replies.len() == 0 {
            Seq::empty()
        } else {
            match self.step(replies[0]) {
                Progress::Send { state, request } => seq![request] + state.requests(
                    replies.drop_first(),
                ),
                Progress::Done(_) => Seq::empty(),
            }
        }
    }

    /// The result of the build, if `replies` take it to its end.
    pub open spec fn result(self, replies: Seq<Result<u32, E>>) -> Option<
        Result<u32, CursorError<E>>,
    >
        decreases replies.len(),
    {
        if replies.len() == 0 {
            None
        } else {
            match self.step(replies[0]) {
                Progress::Send { state, request } => state.result(replies.drop_first()),
                Progress::Done(outcome) => Some(outcome),
            }
        }
    }
}

/// The image of the invisible cursor: one pixel, 32 bits deep, with the
/// hotspot on it.
pub open spec fn empty_geometry() -> ImageGeometry {
    ImageGeometry { width: 1, height: 1, depth: 32, hotspot_x: 0, hotspot_y: 0 }
}

/// A build of the invisible cursor that has just begun: its one pixel is
/// four zero bytes.
pub open spec fn is_empty_build<E>(m: BuildModel<E>, root: u32, format: Option<u32>) -> bool {
    &&& m.image matches Some(pixel)
    &&& pixel@ == seq![0u8, 0u8, 0u8, 0u8]
    &&& m == BuildModel::<E>::start(empty_geometry(), root, format, pixel)
}

/// Everything a build holds besides its phase.
#[derive(Debug)]
struct Core {
    geometry: ImageGeometry,
    root: u32,
    format: Option<u32>,
    image: Option<Vec<u8>>,
    pixmap: u32,
    gc: u32,
    picture: u32,
    cursor: u32,
    pending: Vec<Guard>,
}

/// A cursor build under way.
#[derive(Debug)]
pub struct ImageCursorBuild<E> {
    phase: Phase<E>,
    core: Core,
}

spec fn model<E>(phase: Phase<E>, core: Core) -> BuildModel<E> {
    BuildModel {
        phase,
        geometry: core.geometry,
        root: core.root,
        format: core.format,
        image: core.image,
        pixmap: core.pixmap,
        gc: core.gc,
        picture: core.picture,
        cursor: core.cursor,
        pending: core.pending@,
    }
}

impl<E> View for ImageCursorBuild<E> {
    type V = BuildModel<E>;

    closed spec fn view(&self) -> BuildModel<E> {
        model(self.phase, self.core)
    }
}

/// Leaves the build with `outcome`, releasing the top of the stack first.
fn exit<E>(core: Core, outcome: Result<u32, CursorError<E>>) -> (r: Progress<
    ImageCursorBuild<E>,
    Result<u32, CursorError<E>>,
>)
    ensures
        r@ == model(Phase::Unwinding(outcome), core).exit(outcome),
{
    let mut core = core;
    match core.pending.pop() {
        None => Progress::Done(outcome),
        Some(guard) => Progress::Send {
            state: ImageCursorBuild { phase: Phase::Unwinding(outcome), core },
            request: guard.release(),
        },
    }
}

/// Goes on after the request of `stage` went well and produced `id`.
fn advance<E>(core: Core, stage: Stage, id: u32) -> (r: Progress<
    ImageCursorBuild<E>,
    Result<u32, CursorError<E>>,
>)
    requires
        model(Phase::<E>::Forward(stage), core).wf(),
    ensures
        r@ == model(Phase::<E>::Forward(stage), core).advance(stage, id),
        r matches Progress::Send { state, .. } ==> state@.wf(),
{
    let mut core = core;
    let (next, request) = match stage {
        Stage::PixmapId => {
            core.pixmap = id;
            (
                Stage::CreatePixmap,
                Request::CreatePixmap {
                    depth: core.geometry.depth,
                    pixmap: id,
                    drawable: core.root,
                    width: core.geometry.width,
                    height: core.geometry.height,
                },
            )
        },
        Stage::CreatePixmap => {
            core.pending.push(Guard::Pixmap(core.pixmap));
            (Stage::GcId, Request::GenerateId)
        },
        Stage::GcId => {
            core.gc = id;
            (Stage::CreateGc, Request::CreateGc { gc: id, drawable: core.pixmap })
        },
        Stage::CreateGc => {
            core.pending.push(Guard::Gc(core.gc));
            let data = core.image.take().unwrap();
            (
                Stage::PutImage,
                Request::PutImage {
                    format: if core.geometry.depth == 1 {
                        ImageFormat::XyPixmap
                    } else {
                        ImageFormat::ZPixmap
                    },
                    drawable: core.pixmap,
                    gc: core.gc,
                    width: core.geometry.width,
                    height: core.geometry.height,
                    dst_x: 0,
                    dst_y: 0,
                    left_pad: 0,
                    depth: core.geometry.depth,
                    data,
                },
            )
        },
        Stage::PutImage => {
            core.pending.pop();
            (Stage::FreeGc, Request::FreeGc { gc: core.gc })
        },
        Stage::FreeGc => (Stage::PictureId, Request::GenerateId),
        Stage::PictureId => match core.format {
            Some(pict_format) => {
                core.picture = id;
                (
                    Stage::CreatePicture,
                    Request::CreatePicture { picture: id, drawable: core.pixmap, pict_format },
                )
            },
            None => {
                return exit(core, Err(CursorError::NoArgb32Format));
            },
        },
        Stage::CreatePicture => {
            core.pending.push(Guard::Picture(core.picture));
            (Stage::CursorId, Request::GenerateId)
        },
        Stage::CursorId => {
            core.cursor = id;
            (
                Stage::CreateCursor,
                Request::CreateCursor {
                    cursor: id,
                    picture: core.picture,
                    x: core.geometry.hotspot_x,
                    y: core.geometry.hotspot_y,
                },
            )
        },
        Stage::CreateCursor => {
            let cursor = core.cursor;
            return exit(core, Ok(cursor));
        },
    };
    Progress::Send { state: ImageCursorBuild { phase: Phase::Forward(next), core }, request }
}

impl<E> ImageCursorBuild<E> {
    #[verifier::type_invariant]
    spec fn inv(self) -> bool {
        self@.wf()
    }

    /// Begins a build of a cursor from `image`, on a server whose root
    /// drawable is `root` and whose ARGB32 picture format is `format`. The
    /// first request asks for the identifier of the pixmap.
    pub fn start(geometry: ImageGeometry, root: u32, format: Option<u32>, image: Vec<u8>) -> (r: (
        Self,
        Request,
    ))
        ensures
            r.0@ == BuildModel::<E>::start(geometry, root, format, image),
            r.1 == Request::GenerateId,
    {
        let core = Core {
            geometry,
            root,
            format,
            image: Some(image),
            pixmap: 0,
            gc: 0,
            picture: 0,
            cursor: 0,
            pending: Vec::new(),
        };
        (ImageCursorBuild { phase: Phase::Forward(Stage::PixmapId), core }, Request::GenerateId)
    }

    /// Begins the build of the invisible cursor: the same build, from a
    /// single fully transparent pixel.
    pub fn start_empty(root: u32, format: Option<u32>) -> (r: (Self, Request))
        ensures
            is_empty_build(r.0@, root, format),
            r.1 == Request::GenerateId,
    {
        let mut pixel: Vec<u8> = Vec::new();
        pixel.push(0);
        pixel.push(0);
        pixel.push(0);
        pixel.push(0);
        assert(pixel@ =~= seq![0u8, 0u8, 0u8, 0u8]);
        let geometry = ImageGeometry { width: 1, height: 1, depth: 32, hotspot_x: 0, hotspot_y: 0 };
        Self::start(geometry, root, format, pixel)
    }

    /// Takes the build one step further with what the last request reported:
    /// the identifier it produced (any value where it produces none), or the
    /// error.
    pub fn step(self, reply: Result<u32, E>) -> (r: Progress<Self, Result<u32, CursorError<E>>>)
        ensures
            self@.wf(),
            r@ == self@.step(reply),
    {
        proof {
            use_type_invariant(&self);
        }
        let ImageCursorBuild { phase, core } = self;
        match phase {
            Phase::Unwinding(outcome) => exit(core, outcome),
            Phase::Forward(stage) => match stage {
                Stage::FreeGc => advance(core, stage, 0),
                _ => match reply {
                    Ok(id) => advance(core, stage, id),
                    Err(e) => exit(core, Err(CursorError::Connection(e))),
                },
            },
        }
    }
}

/// Every request of a build in which nothing fails, in the order they are
/// sent: `pixmap`, `gc`, `picture` and `cursor` are the identifiers the four
/// allocations produced.
pub open spec fn script(
    geometry: ImageGeometry,
    root: u32,
    format: u32,
    image: Vec<u8>,
    pixmap: u32,
    gc: u32,
    picture: u32,
    cursor: u32,
) -> Seq<Request> {
    seq![
        Request::GenerateId,
        Request::CreatePixmap {
            depth: geometry.depth,
            pixmap,
            drawable: root,
            width: geometry.width,
            height: geometry.height,
        },
        Request::GenerateId,
        Request::CreateGc { gc, drawable: pixmap },
        Request::PutImage {
            format: image_format(geometry.depth),
            drawable: pixmap,
            gc,
            width: geometry.width,
            height: geometry.height,
            dst_x: 0,
            dst_y: 0,
            left_pad: 0,
            depth: geometry.depth,
            data: image,
        },
        Request::FreeGc { gc },
        Request::GenerateId,
        Request::CreatePicture { picture, drawable: pixmap, pict_format: format },
        Request::GenerateId,
        Request::CreateCursor { cursor, picture, x: geometry.hotspot_x, y: geometry.hotspot_y },
        Request::FreePicture { picture },
        Request::FreePixmap { pixmap },
    ]
}

/// Replies under which a build gets through its first `n` requests: the
/// allocations produce the four identifiers and nothing whose failure counts
/// fails. What the releases report is left open.
pub open spec fn smooth<E>(
    replies: Seq<Result<u32, E>>,
    n: int,
    pixmap: u32,
    gc: u32,
    picture: u32,
    cursor: u32,
) -> bool {
    &&& n <= replies.len()
    &&& 0 < n ==> replies[0] == Ok::<u32, E>(pixmap)
    &&& 1 < n ==> replies[1] is Ok
    &&& 2 < n ==> replies[2] == Ok::<u32, E>(gc)
    &&& 3 < n ==> replies[3] is Ok
    &&& 4 < n ==> replies[4] is Ok
    &&& 6 < n ==> replies[6] == Ok::<u32, E>(picture)
    &&& 7 < n ==> replies[7] is Ok
    &&& 8 < n ==> replies[8] == Ok::<u32, E>(cursor)
    &&& 9 < n ==> replies[9] is Ok
}

/// A step of a well-formed build leads to a well-formed build.
pub proof fn lemma_step_keeps_wf<E>(m: BuildModel<E>, reply: Result<u32, E>)
    requires
        m.wf(),
    ensures
        m.step(reply) matches Progress::Send { state, .. } ==> state.wf(),
{
}

/// Once the result is decided, the build sends the release of everything
/// still pending, last acquired first, and then hands the result out,
/// whatever the releases report.
pub proof fn lemma_unwinding_releases_pending<E>(
    m: BuildModel<E>,
    outcome: Result<u32, CursorError<E>>,
    replies: Seq<Result<u32, E>>,
)
    requires
        m.phase == Phase::Unwinding(outcome),
        replies.len() == m.pending.len() + 1,
    ensures
        m.requests(replies) == releases(m.pending),
        m.result(replies) == Some(outcome),
    decreases m.pending.len(),
{
    if m.pending.len() == 0 {
        assert(m.requests(replies) =~= releases(m.pending));
    } else {
        let next = m.step(replies[0])->state;
        lemma_unwinding_releases_pending(next, outcome, replies.drop_first());
        assert(m.requests(replies) =~= releases(m.pending));
    }
}

/// Rollback. When a request whose failure counts fails with `e`, the build
/// releases every resource it holds at that moment, in the reverse of the
/// order in which they were acquired, and only then reports `e`.
pub proof fn lemma_failure_rolls_back<E>(m: BuildModel<E>, e: E, rest: Seq<Result<u32, E>>)
    requires
        m.phase matches Phase::Forward(stage) && !(stage is FreeGc),
        rest.len() == m.pending.len(),
    ensures
        m.requests(seq![Err(e)] + rest) == releases(m.pending),
        m.result(seq![Err(e)] + rest) == Some(Err::<u32, CursorError<E>>(CursorError::Connection(e))),
{
    let replies = seq![Err::<u32, E>(e)] + rest;
    let outcome = Err::<u32, CursorError<E>>(CursorError::Connection(e));
    assert(replies[0] == Err::<u32, E>(e));
    assert(replies.drop_first() =~= rest);
    if m.pending.len() > 0 {
        lemma_unwinding_releases_pending(m.step(replies[0])->state, outcome, rest);
    }
    assert(m.requests(replies) =~= releases(m.pending));
}

/// The whole of a build in which nothing fails: the twelve requests of the
/// script in their order, pixmap, graphics context, upload, picture and
/// cursor, with the graphics context released right after the upload and,
/// once the cursor stands, the picture and then the pixmap; the result is the
/// cursor.
#[verifier::rlimit(40)]
pub proof fn lemma_complete_build<E>(
    geometry: ImageGeometry,
    root: u32,
    format: u32,
    image: Vec<u8>,
    pixmap: u32,
    gc: u32,
    picture: u32,
    cursor: u32,
    replies: Seq<Result<u32, E>>,
)
    requires
        replies.len() == 12,
        smooth(replies, 12, pixmap, gc, picture, cursor),
    ensures
        ({
            let build = BuildModel::<E>::start(geometry, root, Some(format), image);
            &&& seq![Request::GenerateId] + build.requests(replies) == script(
                geometry,
                root,
                format,
                image,
                pixmap,
                gc,
                picture,
                cursor,
            )
            &&& build.result(replies) == Some(Ok::<u32, CursorError<E>>(cursor))
        }),
{
    let build = BuildModel::<E>::start(geometry, root, Some(format), image);
    reveal_with_fuel(BuildModel::requests, 13);
    reveal_with_fuel(BuildModel::result, 13);
    assert(seq![Request::GenerateId] + build.requests(replies) =~= script(
        geometry,
        root,
        format,
        image,
        pixmap,
        gc,
        picture,
        cursor,
    ));
}

/// The requests of the script whose failure ends the build, by their place
/// in it: everything up to the creation of the cursor but the release of the
/// graphics context.
pub open spec fn fallible(k: int) -> bool {
    0 <= k <= 9 && k != 5
}

/// What a build holds while it waits for the answer to request `k` of the
/// script.
pub open spec fn held(k: int, pixmap: u32, gc: u32, picture: u32) -> Seq<Guard> {
    if k <= 1 {
        Seq::empty()
    } else if k <= 3 {
        seq![Guard::Pixmap(pixmap)]
    } else if k == 4 {
        seq![Guard::Pixmap(pixmap), Guard::Gc(gc)]
    } else if k <= 7 {
        seq![Guard::Pixmap(pixmap)]
    } else if k <= 9 {
        seq![Guard::Pixmap(pixmap), Guard::Picture(picture)]
    } else {
        Seq::empty()
    }
}

/// Replies under which request `k` of the script is the first to fail, with
/// `e`, followed by one reply for each release that the failure sets off.
pub open spec fn failed_at<E>(
    replies: Seq<Result<u32, E>>,
    k: int,
    e: E,
    pixmap: u32,
    gc: u32,
    picture: u32,
    cursor: u32,
) -> bool {
    &&& fallible(k)
    &&& smooth(replies, k, pixmap, gc, picture, cursor)
    &&& replies.len() == k + 1 + held(k, pixmap, gc, picture).len()
    &&& replies[k] == Err::<u32, E>(e)
}

/// The build has sent the script up to request `k`, then the releases of
/// what it held at that point, last acquired first, and has reported `e`.
pub open spec fn rolled_back<E>(
    geometry: ImageGeometry,
    root: u32,
    format: u32,
    image: Vec<u8>,
    pixmap: u32,
    gc: u32,
    picture: u32,
    cursor: u32,
    k: int,
    e: E,
    replies: Seq<Result<u32, E>>,
) -> bool {
    let build = BuildModel::<E>::start(geometry, root, Some(format), image);
    &&& seq![Request::GenerateId] + build.requests(replies) == script(
        geometry,
        root,
        format,
        image,
        pixmap,
        gc,
        picture,
        cursor,
    ).take(k + 1) + releases(held(k, pixmap, gc, picture))
    &&& build.result(replies) == Some(Err::<u32, CursorError<E>>(CursorError::Connection(e)))
}

/// Failure before the pixmap stands: nothing is held.
proof fn lemma_failure_of_the_pixmap<E>(
    geometry: ImageGeometry,
    root: u32,
    format: u32,
    image: Vec<u8>,
    pixmap: u32,
    gc: u32,
    picture: u32,
    cursor: u32,
    k: int,
    e: E,
    replies: Seq<Result<u32, E>>,
)
    requires
        k <= 1,
        failed_at(replies, k, e, pixmap, gc, picture, cursor),
    ensures
        rolled_back(geometry, root, format, image, pixmap, gc, picture, cursor, k, e, replies),
{
    let build = BuildModel::<E>::start(geometry, root, Some(format), image);
    reveal_with_fuel(BuildModel::requests, 4);
    reveal_with_fuel(BuildModel::result, 4);
    assert(seq![Request::GenerateId] + build.requests(replies) =~= script(
        geometry,
        root,
        format,
        image,
        pixmap,
        gc,
        picture,
        cursor,
    ).take(k + 1) + releases(held(k, pixmap, gc, picture)));
}

/// Failure on the way to the graphics context: the pixmap is held.
proof fn lemma_failure_of_the_context<E>(
    geometry: ImageGeometry,
    root: u32,
    format: u32,
    image: Vec<u8>,
    pixmap: u32,
    gc: u32,
    picture: u32,
    cursor: u32,
    k: int,
    e: E,
    replies: Seq<Result<u32, E>>,
)
    requires
        2 <= k <= 3,
        failed_at(replies, k, e, pixmap, gc, picture, cursor),
    ensures
        rolled_back(geometry, root, format, image, pixmap, gc, picture, cursor, k, e, replies),
{
    let build = BuildModel::<E>::start(geometry, root, Some(format), image);
    reveal_with_fuel(BuildModel::requests, 7);
    reveal_with_fuel(BuildModel::result, 7);
    assert(seq![Request::GenerateId] + build.requests(replies) =~= script(
        geometry,
        root,
        format,
        image,
        pixmap,
        gc,
        picture,
        cursor,
    ).take(k + 1) + releases(held(k, pixmap, gc, picture)));
}

/// Failure of the upload: pixmap and graphics context are held.
#[verifier::rlimit(40)]
proof fn lemma_failure_of_the_upload<E>(
    geometry: ImageGeometry,
    root: u32,
    format: u32,
    image: Vec<u8>,
    pixmap: u32,
    gc: u32,
    picture: u32,
    cursor: u32,
    k: int,
    e: E,
    replies: Seq<Result<u32, E>>,
)
    requires
        k == 4,
        failed_at(replies, k, e, pixmap, gc, picture, cursor),
    ensures
        rolled_back(geometry, root, format, image, pixmap, gc, picture, cursor, k, e, replies),
{
    let build = BuildModel::<E>::start(geometry, root, Some(format), image);
    reveal_with_fuel(BuildModel::requests, 9);
    reveal_with_fuel(BuildModel::result, 9);
    assert(seq![Request::GenerateId] + build.requests(replies) =~= script(
        geometry,
        root,
        format,
        image,
        pixmap,
        gc,
        picture,
        cursor,
    ).take(k + 1) + releases(held(k, pixmap, gc, picture)));
}

/// Failure on the way to the picture: the pixmap is held.
#[verifier::rlimit(40)]
proof fn lemma_failure_of_the_picture<E>(
    geometry: ImageGeometry,
    root: u32,
    format: u32,
    image: Vec<u8>,
    pixmap: u32,
    gc: u32,
    picture: u32,
    cursor: u32,
    k: int,
    e: E,
    replies: Seq<Result<u32, E>>,
)
    requires
        6 <= k <= 7,
        failed_at(replies, k, e, pixmap, gc, picture, cursor),
    ensures
        rolled_back(geometry, root, format, image, pixmap, gc, picture, cursor, k, e, replies),
{
    let build = BuildModel::<E>::start(geometry, root, Some(format), image);
    reveal_with_fuel(BuildModel::requests, 11);
    reveal_with_fuel(BuildModel::result, 11);
    assert(seq![Request::GenerateId] + build.requests(replies) =~= script(
        geometry,
        root,
        format,
        image,
        pixmap,
        gc,
        picture,
        cursor,
    ).take(k + 1) + releases(held(k, pixmap, gc, picture)));
}

/// Failure on the way to the cursor: pixmap and picture are held.
#[verifier::rlimit(40)]
proof fn lemma_failure_of_the_cursor<E>(
    geometry: ImageGeometry,
    root: u32,
    format: u32,
    image: Vec<u8>,
    pixmap: u32,
    gc: u32,
    picture: u32,
    cursor: u32,
    k: int,
    e: E,
    replies: Seq<Result<u32, E>>,
)
    requires
        8 <= k <= 9,
        failed_at(replies, k, e, pixmap, gc, picture, cursor),
    ensures
        rolled_back(geometry, root, format, image, pixmap, gc, picture, cursor, k, e, replies),
{
    let build = BuildModel::<E>::start(geometry, root, Some(format), image);
    reveal_with_fuel(BuildModel::requests, 13);
    reveal_with_fuel(BuildModel::result, 13);
    assert(seq![Request::GenerateId] + build.requests(replies) =~= script(
        geometry,
        root,
        format,
        image,
        pixmap,
        gc,
        picture,
        cursor,
    ).take(k + 1) + releases(held(k, pixmap, gc, picture)));
}

/// Failure anywhere. A build whose request `k` is the first to fail, with
/// `e`, has sent the script up to that request; it then releases what it
/// holds at that point, last acquired first, and reports `e`. Nothing that
/// was created is left behind, and nothing is released twice.
pub proof fn lemma_failure_releases_what_is_held<E>(
    geometry: ImageGeometry,
    root: u32,
    format: u32,
    image: Vec<u8>,
    pixmap: u32,
    gc: u32,
    picture: u32,
    cursor: u32,
    k: int,
    e: E,
    replies: Seq<Result<u32, E>>,
)
    requires
        failed_at(replies, k, e, pixmap, gc, picture, cursor),
    ensures
        rolled_back(geometry, root, format, image, pixmap, gc, picture, cursor, k, e, replies),
{
    if k <= 1 {
        lemma_failure_of_the_pixmap(
            geometry, root, format, image, pixmap, gc, picture, cursor, k, e, replies,
        );
    } else if k <= 3 {
        lemma_failure_of_the_context(
            geometry, root, format, image, pixmap, gc, picture, cursor, k, e, replies,
        );
    } else if k == 4 {
        lemma_failure_of_the_upload(
            geometry, root, format, image, pixmap, gc, picture, cursor, k, e, replies,
        );
    } else if k <= 7 {
        lemma_failure_of_the_picture(
            geometry, root, format, image, pixmap, gc, picture, cursor, k, e, replies,
        );
    } else {
        lemma_failure_of_the_cursor(
            geometry, root, format, image, pixmap, gc, picture, cursor, k, e, replies,
        );
    }
}

/// Failure of the picture. When the creation of the picture fails with
/// `e`, the pixmap is released before `e` is reported; the graphics context
/// is long gone by then.
pub proof fn lemma_picture_failure_releases_pixmap<E>(
    geometry: ImageGeometry,
    root: u32,
    format: u32,
    image: Vec<u8>,
    pixmap: u32,
    gc: u32,
    picture: u32,
    e: E,
    replies: Seq<Result<u32, E>>,
)
    requires
        replies.len() == 9,
        smooth(replies, 7, pixmap, gc, picture, 0),
        replies[7] == Err::<u32, E>(e),
    ensures
        ({
            let build = BuildModel::<E>::start(geometry, root, Some(format), image);
            &&& seq![Request::GenerateId] + build.requests(replies) == script(
                geometry,
                root,
                format,
                image,
                pixmap,
                gc,
                picture,
                0,
            ).take(8).push(Request::FreePixmap { pixmap })
            &&& build.result(replies) == Some(
                Err::<u32, CursorError<E>>(CursorError::Connection(e)),
            )
        }),
{
    lemma_failure_releases_what_is_held(
        geometry, root, format, image, pixmap, gc, picture, 0, 7, e, replies,
    );
    let sent = script(geometry, root, format, image, pixmap, gc, picture, 0);
    assert(sent.take(8) + releases(held(7, pixmap, gc, picture)) =~= sent.take(8).push(
        Request::FreePixmap { pixmap },
    ));
}

/// Failure of the cursor. When the creation of the cursor fails with `e`,
/// the requests sent are those of a complete build: pixmap and picture are
/// both still held at that point, and they are released in the reverse of the
/// order in which they were created, the picture first and the pixmap after
/// it, before `e` is reported.
pub proof fn lemma_cursor_failure_releases_picture_then_pixmap<E>(
    geometry: ImageGeometry,
    root: u32,
    format: u32,
    image: Vec<u8>,
    pixmap: u32,
    gc: u32,
    picture: u32,
    cursor: u32,
    e: E,
    replies: Seq<Result<u32, E>>,
)
    requires
        replies.len() == 12,
        smooth(replies, 9, pixmap, gc, picture, cursor),
        replies[9] == Err::<u32, E>(e),
    ensures
        ({
            let build = BuildModel::<E>::start(geometry, root, Some(format), image);
            let sent = seq![Request::GenerateId] + build.requests(replies);
            &&& sent == script(geometry, root, format, image, pixmap, gc, picture, cursor)
            &&& sent.len() == 12
            &&& sent[9] == (Request::CreateCursor {
                cursor,
                picture,
                x: geometry.hotspot_x,
                y: geometry.hotspot_y,
            })
            &&& sent[10] == Request::FreePicture { picture }
            &&& sent[11] == Request::FreePixmap { pixmap }
            &&& build.result(replies) == Some(
                Err::<u32, CursorError<E>>(CursorError::Connection(e)),
            )
        }),
{
    lemma_failure_releases_what_is_held(
        geometry, root, format, image, pixmap, gc, picture, cursor, 9, e, replies,
    );
    let sent = script(geometry, root, format, image, pixmap, gc, picture, cursor);
    assert(sent.take(10) + releases(held(9, pixmap, gc, picture)) =~= sent);
}

/// Without an ARGB32 format the build gets as far as the identifier of the
/// picture, releases the pixmap and ends with `NoArgb32Format`.
#[verifier::rlimit(40)]
pub proof fn lemma_missing_format_releases_pixmap<E>(
    geometry: ImageGeometry,
    root: u32,
    image: Vec<u8>,
    pixmap: u32,
    gc: u32,
    picture: u32,
    replies: Seq<Result<u32, E>>,
)
    requires
        replies.len() == 8,
        smooth(replies, 7, pixmap, gc, picture, 0),
    ensures
        ({
            let build = BuildModel::<E>::start(geometry, root, None, image);
            &&& seq![Request::GenerateId] + build.requests(replies) == script(
                geometry,
                root,
                0,
                image,
                pixmap,
                gc,
                picture,
                0,
            ).take(7).push(Request::FreePixmap { pixmap })
            &&& build.result(replies) == Some(
                Err::<u32, CursorError<E>>(CursorError::NoArgb32Format),
            )
        }),
{
    let build = BuildModel::<E>::start(geometry, root, None, image);
    reveal_with_fuel(BuildModel::requests, 9);
    reveal_with_fuel(BuildModel::result, 9);
    assert(seq![Request::GenerateId] + build.requests(replies) =~= script(
        geometry,
        root,
        0,
        image,
        pixmap,
        gc,
        picture,
        0,
    ).take(7).push(Request::FreePixmap { pixmap }));
}

/// A build never consults the cursor theme.
pub proof fn lemma_build_sends_no_theme_request<E>(m: BuildModel<E>, reply: Result<u32, E>)
    ensures
        m.step(reply) matches Progress::Send { request, .. } ==> !request.is_theme(),
{
}

} // verus!
