//! Resolving a selector to a cursor.
//!
//! No selector means the invisible cursor, which is built from a transparent
//! pixel without a look at the theme. A named icon is looked up in the theme
//! under its canonical name first and then under each alternate, until one
//! is found.

use vstd::prelude::*;
use crate::builder::{is_empty_build, lemma_build_sends_no_theme_request, BuildModel, ImageCursorBuild};
use crate::icon::{candidates, NamedIcon};
use crate::request::{CursorError, Progress, Request};

verus! {

/// A lookup as a mathematical value.
pub enum LookupModel<E> {
    /// The invisible cursor is being built.
    Empty(BuildModel<E>),
    /// The theme is being opened.
    Opening { name: &'static str, alt_names: Seq<&'static str> },
    /// The theme was asked for a name; `alt_names[next]` comes after it.
    Loading { alt_names: Seq<&'static str>, next: int },
}

/// A lookup under way.
#[derive(Debug)]
pub enum CursorLookup<E> {
    Empty(ImageCursorBuild<E>),
    Opening { name: &'static str, alt_names: Vec<&'static str> },
    Loading { alt_names: Vec<&'static str>, next: usize },
}

impl<E> View for CursorLookup<E> {
    type V = LookupModel<E>;

    open spec fn view(&self) -> LookupModel<E> {
        match *self {
            CursorLookup::Empty(build) => LookupModel::Empty(build@),
            CursorLookup::Opening { name, alt_names } => LookupModel::Opening {
                name,
                alt_names: alt_names@,
            },
            CursorLookup::Loading { alt_names, next } => LookupModel::Loading {
                alt_names: alt_names@,
                next: next as int,
            },
        }
    }
}

/// One theme lookup for each of `names`, in their order.
pub open spec fn loads(names: Seq<&'static str>) -> Seq<Request> {
    Seq::new(names.len(), |i: int| Request::LoadCursor { name: names[i] })
}

/// One failed exchange for each of `errors`, in their order.
pub open spec fn failures<E>(errors: Seq<E>) -> Seq<Result<u32, E>> {
    Seq::new(errors.len(), |i: int| Err(errors[i]))
}

impl<E> LookupModel<E> {
    /// Whether this is a lookup of `cursor` that has just begun.
    pub open spec fn starts(self, root: u32, format: Option<u32>, cursor: Option<NamedIcon>) -> bool {
        match cursor {
            None => self matches LookupModel::Empty(build) && is_empty_build(build, root, format),
            Some(named) => self == (LookupModel::<E>::Opening {
                name: named.name,
                alt_names: named.alt_names@,
            }),
        }
    }

    /// What the lookup does when `reply` comes back. The first name the
    /// theme knows ends the lookup with its cursor; a name it does not know
    /// leads to the next one, and the error of the last name is the error of
    /// the lookup. A theme that cannot be opened ends it at once.
    pub open spec fn step(self, reply: Result<u32, E>) -> Progress<
        LookupModel<E>,
        Result<u32, CursorError<E>>,
    > {
        match self {
            LookupModel::Empty(build) => match build.step(reply) {
                Progress::Send { state, request } => Progress::Send {
                    state: LookupModel::Empty(state),
                    request,
                },
                Progress::Done(outcome) => Progress::Done(outcome),
            },
            LookupModel::Opening { name, alt_names } => match reply {
                Ok(_) => Progress::Send {
                    state: LookupModel::Loading { alt_names, next: 0 },
                    request: Request::LoadCursor { name },
                },
                Err(e) => Progress::Done(Err(CursorError::Connection(e))),
            },
            LookupModel::Loading { alt_names, next } => match reply {
                Ok(cursor) => Progress::Done(Ok(cursor)),
                Err(e) => if 0 <= next < alt_names.len() {
                    Progress::Send {
                        state: LookupModel::Loading { alt_names, next: next + 1 },
                        request: Request::LoadCursor { name: alt_names[next] },
                    }
                } else {
                    Progress::Done(Err(CursorError::Connection(e)))
                },
            },
        }
    }

    /// The requests the lookup sends in answer to `replies`, one for each
    /// reply for as long as it is not over.
    pub open spec fn requests(self, replies: Seq<Result<u32, E>>) -> Seq<Request>
        decreases replies.len(),
    {
        if replies.len() == 0 {
            Seq::empty()
        } else {
            match self.step(replies[0]) {
                Progress::Send { state, request } => seq![request] + state.requests(
                    replies.drop_first(),
                ),
                Progress::Done(_) => Seq::empty(),
            }
        }
    }

    /// The result of the lookup, if `replies` take it to its end.
    pub open spec fn result(self, replies: Seq<Result<u32, E>>) -> Option<
        Result<u32, CursorError<E>>,
    >
        decreases replies.len(),
    {
        if replies.len() == 0 {
            None
        } else {
            match self.step(replies[0]) {
                Progress::Send { state, request } => state.result(replies.drop_first()),
                Progress::Done(outcome) => Some(outcome),
            }
        }
    }
}

impl<E> CursorLookup<E> {
    /// Begins the lookup of `cursor` on a server whose root drawable is
    /// `root` and whose ARGB32 picture format is `format`: by a build of the
    /// invisible cursor where there is no icon, by opening the theme where
    /// there is one.
    pub fn start(root: u32, format: Option<u32>, cursor: Option<NamedIcon>) -> (r: (
        Self,
        Request,
    ))
        ensures
            r.0@.starts(root, format, cursor),
            r.1 == (if cursor is None {
                Request::GenerateId
            } else {
                Request::OpenTheme
            }),
    {
        match cursor {
            None => {
                let (build, request) = ImageCursorBuild::start_empty(root, format);
                (CursorLookup::Empty(build), request)
            },
            Some(named) => (
                CursorLookup::Opening { name: named.name, alt_names: named.alt_names },
                Request::OpenTheme,
            ),
        }
    }

    /// Takes the lookup one step further with what the last request
    /// reported: the cursor or identifier it produced (any value where it
    /// produces none), or the error.
    pub fn step(self, reply: Result<u32, E>) -> (r: Progress<Self, Result<u32, CursorError<E>>>)
        ensures
            r@ == self@.step(reply),
    {
        match self {
            CursorLookup::Empty(build) => match build.step(reply) {
                Progress::Send { state, request } => Progress::Send {
                    state: CursorLookup::Empty(state),
                    request,
                },
                Progress::Done(outcome) => Progress::Done(outcome),
            },
            CursorLookup::Opening { name, alt_names } => match reply {
                Ok(_) => Progress::Send {
                    state: CursorLookup::Loading { alt_names, next: 0 },
                    request: Request::LoadCursor { name },
                },
                Err(e) => Progress::Done(Err(CursorError::Connection(e))),
            },
            CursorLookup::Loading { alt_names, next } => match reply {
                Ok(cursor) => Progress::Done(Ok(cursor)),
                Err(e) => if next < alt_names.len() {
                    let name = alt_names[next];
                    Progress::Send {
                        state: CursorLookup::Loading { alt_names, next: next + 1 },
                        request: Request::LoadCursor { name },
                    }
                } else {
                    Progress::Done(Err(CursorError::Connection(e)))
                },
            },
        }
    }
}

/// The invisible cursor never involves the theme: whatever comes back, no
/// request of its lookup opens the theme or loads a name.
pub proof fn lemma_empty_never_consults_theme<E>(m: LookupModel<E>, replies: Seq<Result<u32, E>>)
    requires
        m is Empty,
    ensures
        forall|i: int| 0 <= i < m.requests(replies).len() ==> !m.requests(replies)[i].is_theme(),
    decreases replies.len(),
{
    if replies.len() > 0 {
        lemma_build_sends_no_theme_request(m->Empty_0, replies[0]);
        match m.step(replies[0]) {
            Progress::Send { state, request } => {
                let rest = state.requests(replies.drop_first());
                lemma_empty_never_consults_theme(state, replies.drop_first());
                assert forall|i: int| 0 <= i < m.requests(replies).len() implies !m.requests(
                    replies,
                )[i].is_theme() by {
                    if i > 0 {
                        assert(m.requests(replies)[i] == rest[i - 1]);
                    }
                }
            },
            Progress::Done(_) => {},
        }
    }
}

/// The lookup of the invisible cursor is the build of a transparent pixel
/// and nothing else: it sends what the build sends and ends as the build
/// ends.
pub proof fn lemma_empty_lookup_is_the_build<E>(build: BuildModel<E>, replies: Seq<Result<u32, E>>)
    ensures
        LookupModel::Empty(build).requests(replies) == build.requests(replies),
        LookupModel::Empty(build).result(replies) == build.result(replies),
    decreases replies.len(),
{
    if replies.len() > 0 {
        match build.step(replies[0]) {
            Progress::Send { state, request } => {
                lemma_empty_lookup_is_the_build(state, replies.drop_first());
            },
            Progress::Done(_) => {},
        }
    }
}

/// From a pending load on: while the theme fails, the alternates are tried
/// in order; the first success ends the lookup with its cursor.
proof fn lemma_loading_until_success<E>(
    alt_names: Seq<&'static str>,
    next: int,
    errors: Seq<E>,
    cursor: u32,
)
    requires
        0 <= next,
        next + errors.len() <= alt_names.len(),
    ensures
        ({
            let m = LookupModel::<E>::Loading { alt_names, next };
            let replies = failures(errors) + seq![Ok::<u32, E>(cursor)];
            &&& m.requests(replies) == loads(alt_names.subrange(next, next + errors.len()))
            &&& m.result(replies) == Some(Ok::<u32, CursorError<E>>(cursor))
        }),
    decreases errors.len(),
{
    let m = LookupModel::<E>::Loading { alt_names, next };
    let replies = failures(errors) + seq![Ok::<u32, E>(cursor)];
    if errors.len() == 0 {
        assert(replies[0] == Ok::<u32, E>(cursor));
        assert(m.requests(replies) =~= loads(alt_names.subrange(next, next + errors.len())));
    } else {
        assert(replies[0] == Err::<u32, E>(errors[0]));
        assert(replies.drop_first() =~= failures(errors.drop_first()) + seq![
            Ok::<u32, E>(cursor),
        ]);
        lemma_loading_until_success(alt_names, next + 1, errors.drop_first(), cursor);
        assert(m.requests(replies) =~= loads(alt_names.subrange(next, next + errors.len())));
    }
}

/// From a pending load on: when every name that is left fails, all of them
/// are tried and the last error is the result.
proof fn lemma_loading_until_exhausted<E>(alt_names: Seq<&'static str>, next: int, errors: Seq<E>)
    requires
        0 <= next <= alt_names.len(),
        errors.len() == alt_names.len() - next + 1,
    ensures
        ({
            let m = LookupModel::<E>::Loading { alt_names, next };
            &&& m.requests(failures(errors)) == loads(alt_names.subrange(next, alt_names.len() as int))
            &&& m.result(failures(errors)) == Some(
                Err::<u32, CursorError<E>>(CursorError::Connection(errors.last())),
            )
        }),
    decreases errors.len(),
{
    let m = LookupModel::<E>::Loading { alt_names, next };
    let replies = failures(errors);
    assert(replies[0] == Err::<u32, E>(errors[0]));
    if next < alt_names.len() {
        assert(replies.drop_first() =~= failures(errors.drop_first()));
        lemma_loading_until_exhausted(alt_names, next + 1, errors.drop_first());
    }
    assert(m.requests(replies) =~= loads(alt_names.subrange(next, alt_names.len() as int)));
}

/// Fallback order. With the theme open, the names are tried in order,
/// canonical name first; when the first `errors.len()` of them fail and the
/// next yields `cursor`, exactly those names were asked for, none after the
/// one that was found, and the lookup yields `cursor`.
pub proof fn lemma_first_known_name_wins<E>(
    name: &'static str,
    alt_names: Seq<&'static str>,
    opened: u32,
    errors: Seq<E>,
    cursor: u32,
)
    requires
        errors.len() <= alt_names.len(),
    ensures
        ({
            let m = LookupModel::<E>::Opening { name, alt_names };
            let replies = seq![Ok::<u32, E>(opened)] + failures(errors) + seq![
                Ok::<u32, E>(cursor),
            ];
            &&& m.requests(replies) == loads(candidates(name, alt_names).take(errors.len() as int + 1))
            &&& m.result(replies) == Some(Ok::<u32, CursorError<E>>(cursor))
        }),
{
    let m = LookupModel::<E>::Opening { name, alt_names };
    let tail = failures(errors) + seq![Ok::<u32, E>(cursor)];
    let replies = seq![Ok::<u32, E>(opened)] + failures(errors) + seq![Ok::<u32, E>(cursor)];
    assert(replies[0] == Ok::<u32, E>(opened));
    assert(replies.drop_first() =~= tail);
    lemma_loading_until_success(alt_names, 0, errors, cursor);
    assert(m.requests(replies) =~= loads(candidates(name, alt_names).take(errors.len() as int + 1)));
}

/// Last failure wins. When the theme knows none of the names, every one of
/// them was asked for, in order, and the error of the last is the error of
/// the lookup; the earlier errors are dropped.
pub proof fn lemma_unknown_icon_reports_last_error<E>(
    name: &'static str,
    alt_names: Seq<&'static str>,
    opened: u32,
    errors: Seq<E>,
)
    requires
        errors.len() == alt_names.len() + 1,
    ensures
        ({
            let m = LookupModel::<E>::Opening { name, alt_names };
            let replies = seq![Ok::<u32, E>(opened)] + failures(errors);
            &&& m.requests(replies) == loads(candidates(name, alt_names))
            &&& m.result(replies) == Some(
                Err::<u32, CursorError<E>>(CursorError::Connection(errors.last())),
            )
        }),
{
    let m = LookupModel::<E>::Opening { name, alt_names };
    let replies = seq![Ok::<u32, E>(opened)] + failures(errors);
    assert(replies[0] == Ok::<u32, E>(opened));
    assert(replies.drop_first() =~= failures(errors));
    lemma_loading_until_exhausted(alt_names, 0, errors);
    assert(m.requests(replies) =~= loads(candidates(name, alt_names)));
}

} // verus!
