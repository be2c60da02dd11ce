//! Showing a system cursor on a window.
//!
//! The cursor comes from the cache where the selector was resolved before.
//! Otherwise it is resolved, remembered and then shown; a resolution that
//! fails is not remembered.

use vstd::prelude::*;
use crate::cache::{remembered, CursorCache};
use crate::icon::{selector, CursorIcon, NamedIcon};
use crate::lookup::{CursorLookup, LookupModel};
use crate::request::{CursorError, Progress, Request};
use crate::update::CursorUpdate;

verus! {

/// Why a cursor could not be shown.
#[derive(Debug, PartialEq, Eq)]
pub enum SetCursorError<E> {
    /// The cursor could not be created.
    Create(CursorError<E>),
    /// The cursor could not be set on the window.
    Update(E),
}

/// The operation as a mathematical value.
pub enum SetCursorModel<E> {
    /// The selector `key` is being resolved for `window`.
    Resolving { window: u32, key: Option<CursorIcon>, lookup: LookupModel<E> },
    /// The cursor is being put on the window.
    Updating(CursorUpdate),
}

/// The operation under way.
#[derive(Debug)]
pub enum SetCursorIcon<E> {
    Resolving { window: u32, key: Option<CursorIcon>, lookup: CursorLookup<E> },
    Updating(CursorUpdate),
}

impl<E> View for SetCursorIcon<E> {
    type V = SetCursorModel<E>;

    open spec fn view(&self) -> SetCursorModel<E> {
        match *self {
            SetCursorIcon::Resolving { window, key, lookup } => SetCursorModel::Resolving {
                window,
                key,
                lookup: lookup@,
            },
            SetCursorIcon::Updating(update) => SetCursorModel::Updating(update),
        }
    }
}

impl<E> SetCursorModel<E> {
    /// Whether this is where showing `cursor` on `window` begins, with
    /// `first` as its first request: with the update of the window where the
    /// cache knows the selector, with the lookup of the selector where it
    /// does not.
    pub open spec fn starts(
        self,
        first: Request,
        cache: Map<Option<CursorIcon>, u32>,
        root: u32,
        format: Option<u32>,
        window: u32,
        cursor: Option<NamedIcon>,
    ) -> bool {
        let key = selector(cursor);
        if cache.contains_key(key) {
            &&& self == SetCursorModel::<E>::Updating(CursorUpdate::Changing)
            &&& first == (Request::ChangeWindowCursor { window, cursor: cache[key] })
        } else {
            &&& self matches SetCursorModel::Resolving { window: w, key: k, lookup }
            &&& w == window
            &&& k == key
            &&& lookup.starts(root, format, cursor)
            &&& first == (if cursor is None {
                Request::GenerateId
            } else {
                Request::OpenTheme
            })
        }
    }

    /// What the operation does when `reply` comes back, and the cache it
    /// leaves. The cache changes at one point only: when the lookup ends
    /// with a cursor, the cursor is remembered for the selector, and what
    /// the cache then holds for the selector is put on the window.
    pub open spec fn step(self, cache: Map<Option<CursorIcon>, u32>, reply: Result<u32, E>) -> (
        Progress<SetCursorModel<E>, Result<(), SetCursorError<E>>>,
        Map<Option<CursorIcon>, u32>,
    ) {
        match self {
            SetCursorModel::Resolving { window, key, lookup } => match lookup.step(reply) {
                Progress::Send { state, request } => (
                    Progress::Send {
                        state: SetCursorModel::Resolving { window, key, lookup: state },
                        request,
                    },
                    cache,
                ),
                Progress::Done(Ok(cursor)) => (
                    Progress::Send {
                        state: SetCursorModel::Updating(CursorUpdate::Changing),
                        request: Request::ChangeWindowCursor {
                            window,
                            cursor: remembered(cache, key, cursor)[key],
                        },
                    },
                    remembered(cache, key, cursor),
                ),
                Progress::Done(Err(e)) => (Progress::Done(Err(SetCursorError::Create(e))), cache),
            },
            SetCursorModel::Updating(update) => match update.step_spec(reply) {
                Progress::Send { state, request } => (
                    Progress::Send { state: SetCursorModel::Updating(state), request },
                    cache,
                ),
                Progress::Done(Ok(_)) => (Progress::Done(Ok(())), cache),
                Progress::Done(Err(e)) => (Progress::Done(Err(SetCursorError::Update(e))), cache),
            },
        }
    }

    /// The requests the operation sends in answer to `replies`, one for each
    /// reply for as long as it is not over.
    pub open spec fn requests(
        self,
        cache: Map<Option<CursorIcon>, u32>,
        replies: Seq<Result<u32, E>>,
    ) -> Seq<Request>
        decreases replies.len(),
    {
        if replies.len() == 0 {
            Seq::empty()
        } else {
            match self.step(cache, replies[0]) {
                (Progress::Send { state, request }, after) => seq![request] + state.requests(
                    after,
                    replies.drop_first(),
                ),
                (Progress::Done(_), _) => Seq::empty(),
            }
        }
    }

    /// The cache after the operation has answered `replies`.
    pub open spec fn cache_after(
        self,
        cache: Map<Option<CursorIcon>, u32>,
        replies: Seq<Result<u32, E>>,
    ) -> Map<Option<CursorIcon>, u32>
        decreases replies.len(),
    {
        if replies.len() == 0 {
            cache
        } else {
            match self.step(cache, replies[0]) {
                (Progress::Send { state, request }, after) => state.cache_after(
                    after,
                    replies.drop_first(),
                ),
                (Progress::Done(_), after) => after,
            }
        }
    }
}

impl<E> SetCursorIcon<E> {
    /// Begins to show `cursor` on `window`, on a server whose root drawable
    /// is `root` and whose ARGB32 picture format is `format`.
    pub fn start(
        cache: &CursorCache,
        root: u32,
        format: Option<u32>,
        window: u32,
        cursor: Option<NamedIcon>,
    ) -> (r: (Self, Request))
        ensures
            r.0@.starts(r.1, cache@, root, format, window, cursor),
    {
        let key = match &cursor {
            Some(named) => Some(named.icon),
            None => None,
        };
        match cache.get(key) {
            Some(known) => {
                let (update, request) = CursorUpdate::start(window, known);
                (SetCursorIcon::Updating(update), request)
            },
            None => {
                let (lookup, request) = CursorLookup::start(root, format, cursor);
                (SetCursorIcon::Resolving { window, key, lookup }, request)
            },
        }
    }

    /// Takes the operation one step further with what the last request
    /// reported.
    pub fn step(self, cache: &mut CursorCache, reply: Result<u32, E>) -> (r: Progress<
        Self,
        Result<(), SetCursorError<E>>,
    >)
        ensures
            (r@, final(cache)@) == self@.step(old(cache)@, reply),
    {
        match self {
            SetCursorIcon::Resolving { window, key, lookup } => match lookup.step(reply) {
                Progress::Send { state, request } => Progress::Send {
                    state: SetCursorIcon::Resolving { window, key, lookup: state },
                    request,
                },
                Progress::Done(Ok(cursor)) => {
                    let shown = cache.or_insert(key, cursor);
                    let (update, request) = CursorUpdate::start(window, shown);
                    Progress::Send { state: SetCursorIcon::Updating(update), request }
                },
                Progress::Done(Err(e)) => Progress::Done(Err(SetCursorError::Create(e))),
            },
            SetCursorIcon::Updating(update) => match update.step(reply) {
                Progress::Send { state, request } => Progress::Send {
                    state: SetCursorIcon::Updating(state),
                    request,
                },
                Progress::Done(Ok(_)) => Progress::Done(Ok(())),
                Progress::Done(Err(e)) => Progress::Done(Err(SetCursorError::Update(e))),
            },
        }
    }
}

/// A step never empties or rewrites the cache: it leaves the cache as it
/// was, or, where a lookup has just ended with a cursor, remembers that
/// cursor for the selector. A lookup that fails is not remembered.
pub proof fn lemma_only_success_is_remembered<E>(
    m: SetCursorModel<E>,
    cache: Map<Option<CursorIcon>, u32>,
    reply: Result<u32, E>,
)
    ensures
        m.step(cache, reply).1 == (match m {
            SetCursorModel::Resolving { key, lookup, .. } => match lookup.step(reply) {
                Progress::Done(Ok(cursor)) => remembered(cache, key, cursor),
                _ => cache,
            },
            SetCursorModel::Updating(_) => cache,
        }),
        m.step(cache, reply).0 matches Progress::Done(Err(_)) ==> m.step(cache, reply).1 == cache,
{
}

/// A selector the cache knows is not resolved again: the operation begins
/// with the update of the window, to the cursor of the cache, and whatever
/// comes back it sends nothing but the flush and leaves the cache alone.
pub proof fn lemma_known_selector_is_not_resolved_again<E>(
    m: SetCursorModel<E>,
    first: Request,
    cache: Map<Option<CursorIcon>, u32>,
    root: u32,
    format: Option<u32>,
    window: u32,
    cursor: Option<NamedIcon>,
    replies: Seq<Result<u32, E>>,
)
    requires
        cache.contains_key(selector(cursor)),
        m.starts(first, cache, root, format, window, cursor),
    ensures
        first == (Request::ChangeWindowCursor { window, cursor: cache[selector(cursor)] }),
        m.cache_after(cache, replies) == cache,
        forall|i: int|
            0 <= i < m.requests(cache, replies).len() ==> m.requests(cache, replies)[i]
                == Request::Flush,
{
    if replies.len() > 0 {
        reveal_with_fuel(SetCursorModel::requests, 3);
        reveal_with_fuel(SetCursorModel::cache_after, 3);
    }
}

/// Idempotence. When the resolution of a selector has ended with a cursor,
/// the next request for the same selector begins with the update of its
/// window, to the very cursor the first request has shown, and builds
/// nothing.
pub proof fn lemma_second_request_shows_same_cursor<E>(
    m: SetCursorModel<E>,
    cache: Map<Option<CursorIcon>, u32>,
    reply: Result<u32, E>,
    again: SetCursorModel<E>,
    first: Request,
    root: u32,
    format: Option<u32>,
    window: u32,
    cursor: Option<NamedIcon>,
)
    requires
        m matches SetCursorModel::Resolving { key, lookup, .. } && key == selector(cursor)
            && lookup.step(reply) matches Progress::Done(Ok(_)),
        again.starts(first, m.step(cache, reply).1, root, format, window, cursor),
    ensures
        again == SetCursorModel::<E>::Updating(CursorUpdate::Changing),
        m.step(cache, reply).0 matches Progress::Send {
            request: Request::ChangeWindowCursor { cursor: shown, .. },
            ..
        } && first == (Request::ChangeWindowCursor { window, cursor: shown }),
{
}

} // verus!
