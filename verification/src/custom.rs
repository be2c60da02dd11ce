//! Cursors made from an application's own image.
//!
//! A custom cursor is shared: every holder has a reference to the same
//! server-side cursor, and the cursor is released when the last reference is
//! given back. The references are counted in a table of slots; a slot is
//! never used twice, so the slot is what tells two custom cursors apart.

use vstd::prelude::*;
use crate::builder::{smooth, BuildModel, ImageCursorBuild, ImageGeometry};
use crate::icon::CursorIcon;
use crate::request::Request;

verus! {

/// Where byte `i` of the converted image comes from: within each pixel the
/// first and the third byte change places.
pub open spec fn swapped(i: int) -> int {
    if i % 4 == 0 {
        i + 2
    } else if i % 4 == 2 {
        i - 2
    } else {
        i
    }
}

/// The image with red and blue exchanged in every pixel.
pub open spec fn rgba_to_bgra_spec(rgba: Seq<u8>) -> Seq<u8> {
    Seq::new(rgba.len(), |i: int| rgba[swapped(i)])
}

/// Lengths the conversion is defined for: whole pixels, or whole pixels and
/// three bytes of a last one.
pub open spec fn convertible(len: nat) -> bool {
    len % 4 == 0 || len % 4 == 3
}

/// Turns pixels in red, green, blue, alpha order into the blue, green, red,
/// alpha order the server draws from. Alpha stays where it is.
pub fn rgba_to_bgra(data: &mut Vec<u8>)
    requires
        convertible(old(data)@.len()),
    ensures
        final(data)@ == rgba_to_bgra_spec(old(data)@),
{
    let ghost before = data@;
    let n = data.len();
    let mut i: usize = 0;
    while n - i >= 3
        invariant
            i <= n,
            i % 4 == 0 || i == n,
            data@.len() == n,
            before.len() == n,
            forall|j: int| 0 <= j < i ==> data@[j] == before[swapped(j)],
            forall|j: int| i <= j < n ==> data@[j] == before[j],
        decreases n - i,
    {
        let red = data[i];
        let blue = data[i + 2];
        data.set(i, blue);
        data.set(i + 2, red);
        i = if n - i >= 4 {
            i + 4
        } else {
            n
        };
    }
    assert(data@ =~= rgba_to_bgra_spec(before));
}

/// Byte order. Of every whole pixel the converted image holds blue, green,
/// red and alpha where the image held red, green, blue and alpha, and both
/// are of one length.
pub proof fn lemma_bgra_pixels(rgba: Seq<u8>, p: int)
    requires
        0 <= p,
        4 * p + 3 < rgba.len(),
    ensures
        rgba_to_bgra_spec(rgba).len() == rgba.len(),
        rgba_to_bgra_spec(rgba)[4 * p] == rgba[4 * p + 2],
        rgba_to_bgra_spec(rgba)[4 * p + 1] == rgba[4 * p + 1],
        rgba_to_bgra_spec(rgba)[4 * p + 2] == rgba[4 * p],
        rgba_to_bgra_spec(rgba)[4 * p + 3] == rgba[4 * p + 3],
{
}

/// The image of a custom cursor as the application hands it over: pixels in
/// red, green, blue, alpha order, one row after the other.
#[derive(Debug)]
pub struct CursorImage {
    pub rgba: Vec<u8>,
    pub width: u16,
    pub height: u16,
    pub hotspot_x: u16,
    pub hotspot_y: u16,
}

impl CursorImage {
    /// Whether the pixel data has a length the conversion is defined for.
    pub fn is_convertible(&self) -> (r: bool)
        ensures
            r == convertible(self.rgba@.len()),
    {
        let rest = self.rgba.len() % 4;
        rest == 0 || rest == 3
    }
}

/// A build of the cursor of `image` that has just begun: 32 bits deep, from
/// the pixels of `image` in the server's byte order.
pub open spec fn is_custom_build<E>(
    m: BuildModel<E>,
    root: u32,
    format: Option<u32>,
    image: CursorImage,
) -> bool {
    &&& m.image matches Some(pixels)
    &&& pixels@ == rgba_to_bgra_spec(image.rgba@)
    &&& m == BuildModel::<E>::start(
        ImageGeometry {
            width: image.width,
            height: image.height,
            depth: 32,
            hotspot_x: image.hotspot_x,
            hotspot_y: image.hotspot_y,
        },
        root,
        format,
        pixels,
    )
}

/// What a custom cursor uploads. The fourth request after the first
/// allocation is the upload, and what it carries is the application's image
/// with red and blue exchanged in every pixel, at a depth of 32 bits.
pub proof fn lemma_custom_cursor_uploads_bgra<E>(
    m: BuildModel<E>,
    root: u32,
    format: Option<u32>,
    image: CursorImage,
    pixmap: u32,
    gc: u32,
    replies: Seq<Result<u32, E>>,
)
    requires
        is_custom_build(m, root, format, image),
        replies.len() == 4,
        smooth(replies, 4, pixmap, gc, 0, 0),
    ensures
        m.requests(replies).len() == 4,
        m.requests(replies)[3] matches Request::PutImage { depth, data, .. } && depth == 32
            && data@ == rgba_to_bgra_spec(image.rgba@),
{
    reveal_with_fuel(BuildModel::requests, 5);
}

/// One shared cursor and the number of references to it. A slot without
/// references is dead and stays dead.
#[derive(Clone, Copy, Debug, PartialEq, Eq)]
pub struct Slot {
    pub cursor: u32,
    pub refs: usize,
}

/// A reference to a shared custom cursor. Two references are equal exactly
/// when they share a slot, whatever the images looked like.
#[derive(Debug, PartialEq, Eq, Structural, Hash)]
pub struct CustomCursor {
    slot: usize,
    cursor: u32,
}

/// What a window shows: a custom cursor or a named icon.
#[derive(Debug, PartialEq, Eq, Structural, Hash)]
pub enum SelectedCursor {
    Custom(CustomCursor),
    Named(CursorIcon),
}

impl Default for SelectedCursor {
    /// The default icon.
    fn default() -> (r: Self)
        ensures
            r == SelectedCursor::Named(CursorIcon { id: 0 }),
    {
        SelectedCursor::Named(CursorIcon::default())
    }
}

/// The references to all custom cursors of a connection.
#[derive(Debug)]
pub struct CustomCursors {
    slots: Vec<Slot>,
}

impl View for CustomCursors {
    type V = Seq<Slot>;

    closed spec fn view(&self) -> Seq<Slot> {
        self.slots@
    }
}

/// Whether slot `slot` holds `cursor` and has references left.
pub open spec fn alive(slots: Seq<Slot>, slot: int, cursor: u32) -> bool {
    0 <= slot < slots.len() && slots[slot].cursor == cursor && slots[slot].refs > 0
}

/// Giving one reference back: the count of a live slot goes down by one, and
/// the reference that takes it to zero releases the cursor. A dead slot
/// stays as it is and releases nothing.
pub open spec fn release_spec(slots: Seq<Slot>, slot: int, cursor: u32) -> (
    Seq<Slot>,
    Option<Request>,
) {
    if alive(slots, slot, cursor) {
        (
            slots.update(slot, Slot { cursor, refs: (slots[slot].refs - 1) as usize }),
            if slots[slot].refs == 1 {
                Some(Request::FreeCursor { cursor })
            } else {
                None
            },
        )
    } else {
        (slots, None)
    }
}

/// The requests sent when a reference to slot `slot` is given back `times`
/// times in a row.
pub open spec fn drops(slots: Seq<Slot>, slot: int, cursor: u32, times: nat) -> Seq<Request>
    decreases times,
{
    if times == 0 {
        Seq::empty()
    } else {
        let (after, request) = release_spec(slots, slot, cursor);
        let rest = drops(after, slot, cursor, (times - 1) as nat);
        match request {
            Some(request) => seq![request] + rest,
            None => rest,
        }
    }
}

impl CustomCursor {
    /// The slot this reference counts in.
    pub closed spec fn index(&self) -> int {
        self.slot as int
    }

    pub closed spec fn cursor_spec(&self) -> u32 {
        self.cursor
    }

    /// The server-side cursor behind this reference.
    #[verifier::when_used_as_spec(cursor_spec)]
    pub fn cursor(&self) -> (r: u32)
        ensures
            r == self.cursor_spec(),
    {
        self.cursor
    }

    /// Begins the build of a custom cursor from `image`, on a server whose
    /// root drawable is `root` and whose ARGB32 picture format is `format`.
    pub fn build<E>(root: u32, format: Option<u32>, image: CursorImage) -> (r: (
        ImageCursorBuild<E>,
        Request,
    ))
        requires
            convertible(image.rgba@.len()),
        ensures
            is_custom_build(r.0@, root, format, image),
            r.1 == Request::GenerateId,
    {
        let geometry = ImageGeometry {
            width: image.width,
            height: image.height,
            depth: 32,
            hotspot_x: image.hotspot_x,
            hotspot_y: image.hotspot_y,
        };
        let mut pixels = image.rgba;
        rgba_to_bgra(&mut pixels);
        ImageCursorBuild::start(geometry, root, format, pixels)
    }

    /// Equal references share a slot, and the other way round as long as
    /// both are alive in the same table.
    pub proof fn lemma_equal_means_same_slot(self, other: CustomCursor, slots: Seq<Slot>)
        ensures
            self == other ==> self.index() == other.index(),
            alive(slots, self.index(), self.cursor_spec()) && alive(
                slots,
                other.index(),
                other.cursor_spec(),
            ) && self.index() == other.index() ==> self == other,
    {
    }
}

impl CustomCursors {
    /// A table without slots.
    pub fn new() -> (r: Self)
        ensures
            r@ == Seq::<Slot>::empty(),
    {
        CustomCursors { slots: Vec::new() }
    }

    /// Takes `cursor`, fresh from its build, into a slot of its own and
    /// returns the first reference to it.
    pub fn register(&mut self, cursor: u32) -> (r: CustomCursor)
        ensures
            final(self)@ == old(self)@.push(Slot { cursor, refs: 1 }),
            r.index() == old(self)@.len(),
            r.cursor_spec() == cursor,
    {
        let slot = self.slots.len();
        self.slots.push(Slot { cursor, refs: 1 });
        CustomCursor { slot, cursor }
    }

    /// One more reference to the cursor of `shared`. There is none to a
    /// cursor that is already released, nor beyond what the count can hold.
    pub fn share(&mut self, shared: &CustomCursor) -> (r: Option<CustomCursor>)
        ensures
            alive(old(self)@, shared.index(), shared.cursor_spec()) && old(self)@[shared.index()].refs
                < usize::MAX ==> r == Some(*shared) && final(self)@ == old(self)@.update(
                shared.index(),
                Slot {
                    cursor: shared.cursor_spec(),
                    refs: (old(self)@[shared.index()].refs + 1) as usize,
                },
            ),
            !(alive(old(self)@, shared.index(), shared.cursor_spec()) && old(self)@[shared.index()].refs
                < usize::MAX) ==> r is None && final(self)@ == old(self)@,
    {
        if shared.slot < self.slots.len() {
            let slot = self.slots[shared.slot];
            if slot.cursor == shared.cursor && slot.refs > 0 && slot.refs < usize::MAX {
                self.slots.set(shared.slot, Slot { cursor: slot.cursor, refs: slot.refs + 1 });
                return Some(CustomCursor { slot: shared.slot, cursor: shared.cursor });
            }
        }
        None
    }

    /// Gives the reference `dropped` back. The last reference to a cursor
    /// yields the request that releases it; every other one yields nothing.
    pub fn release(&mut self, dropped: CustomCursor) -> (r: Option<Request>)
        ensures
            (final(self)@, r) == release_spec(old(self)@, dropped.index(), dropped.cursor_spec()),
    {
        if dropped.slot < self.slots.len() {
            let slot = self.slots[dropped.slot];
            if slot.cursor == dropped.cursor && slot.refs > 0 {
                self.slots.set(dropped.slot, Slot { cursor: slot.cursor, refs: slot.refs - 1 });
                if slot.refs == 1 {
                    return Some(Request::FreeCursor { cursor: slot.cursor });
                }
            }
        }
        None
    }
}

/// Release on the last drop, once. However often the references to a live
/// cursor are given back, nothing is sent before the last of them is, that
/// one sends the single request that frees the cursor, and nothing is sent
/// after it.
pub proof fn lemma_last_drop_frees_once(slots: Seq<Slot>, slot: int, cursor: u32, times: nat)
    requires
        alive(slots, slot, cursor),
    ensures
        drops(slots, slot, cursor, times) == (if times >= slots[slot].refs {
            seq![Request::FreeCursor { cursor }]
        } else {
            Seq::<Request>::empty()
        }),
    decreases times,
{
    if times > 0 {
        let (after, request) = release_spec(slots, slot, cursor);
        if slots[slot].refs > 1 {
            lemma_last_drop_frees_once(after, slot, cursor, (times - 1) as nat);
        } else {
            lemma_dead_slot_is_silent(after, slot, cursor, (times - 1) as nat);
            assert(drops(slots, slot, cursor, times) =~= seq![Request::FreeCursor { cursor }]);
        }
    }
}

/// Giving back references to a cursor that is already released sends
/// nothing.
pub proof fn lemma_dead_slot_is_silent(slots: Seq<Slot>, slot: int, cursor: u32, times: nat)
    requires
        !alive(slots, slot, cursor),
    ensures
        drops(slots, slot, cursor, times) == Seq::<Request>::empty(),
    decreases times,
{
    if times > 0 {
        lemma_dead_slot_is_silent(slots, slot, cursor, (times - 1) as nat);
    }
}

} // verus!
