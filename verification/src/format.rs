//! Picking the 32-bit ARGB picture format out of what the server advertises.

use vstd::prelude::*;

verus! {

/// Wire code of a direct-colour picture format.
pub const PICT_TYPE_DIRECT: u8 = 1;

/// Bit position and width mask of each channel of a direct-colour format.
#[derive(Clone, Copy, Debug, PartialEq, Eq)]
pub struct DirectFormat {
    pub red_shift: u16,
    pub red_mask: u16,
    pub green_shift: u16,
    pub green_mask: u16,
    pub blue_shift: u16,
    pub blue_mask: u16,
    pub alpha_shift: u16,
    pub alpha_mask: u16,
}

/// One picture format as the server advertises it.
#[derive(Clone, Copy, Debug, PartialEq, Eq)]
pub struct PictFormat {
    pub id: u32,
    pub type_: u8,
    pub depth: u8,
    pub direct: DirectFormat,
}

/// The fixed layout the cursor builder draws in: direct colour, 32 bits deep,
/// alpha in the top byte, then red, green and blue, eight bits each.
pub open spec fn is_argb32(f: PictFormat) -> bool {
    &&& f.type_ == PICT_TYPE_DIRECT
    &&& f.depth == 32
    &&& f.direct.red_shift == 16 && f.direct.red_mask == 0xff
    &&& f.direct.green_shift == 8 && f.direct.green_mask == 0xff
    &&& f.direct.blue_shift == 0 && f.direct.blue_mask == 0xff
    &&& f.direct.alpha_shift == 24 && f.direct.alpha_mask == 0xff
}

/// Identifier of the first ARGB32 format in `formats`, if there is one.
pub open spec fn argb32_format(formats: Seq<PictFormat>) -> Option<u32>
    decreases formats.len(),
{
    if formats.len() == 0 {
        None
    } else if is_argb32(formats[0]) {
        Some(formats[0].id)
    } else {
        argb32_format(formats.drop_first())
    }
}

impl PictFormat {
    /// Whether this format has the ARGB32 layout.
    pub fn is_argb32(&self) -> (r: bool)
        ensures
            r == is_argb32(*self),
    {
        self.type_ == PICT_TYPE_DIRECT && self.depth == 32 && self.direct.red_shift == 16
            && self.direct.red_mask == 0xff && self.direct.green_shift == 8
            && self.direct.green_mask == 0xff && self.direct.blue_shift == 0
            && self.direct.blue_mask == 0xff && self.direct.alpha_shift == 24
            && self.direct.alpha_mask == 0xff
    }
}

/// Skipping formats that do not match leaves the answer unchanged.
proof fn lemma_skip_mismatches(formats: Seq<PictFormat>, n: int)
    requires
        0 <= n <= formats.len(),
        forall|j: int| 0 <= j < n ==> !is_argb32(formats[j]),
    ensures
        argb32_format(formats) == argb32_format(formats.skip(n)),
    decreases n,
{
    if n == 0 {
        assert(formats.skip(0) =~= formats);
    } else {
        assert(formats.drop_first().skip(n - 1) =~= formats.skip(n));
        lemma_skip_mismatches(formats.drop_first(), n - 1);
    }
}

/// Scans the advertised formats in order and returns the identifier of the
/// first one with the ARGB32 layout, or `None` when the server offers none.
pub fn find_argb32_format(formats: &[PictFormat]) -> (r: Option<u32>)
    ensures
        r == argb32_format(formats@),
{
    let mut i: usize = 0;
    while i < formats.len()
        invariant
            i <= formats.len(),
            forall|j: int| 0 <= j < i ==> !is_argb32(formats@[j]),
        decreases formats.len() - i,
    {
        if formats[i].is_argb32() {
            proof {
                lemma_skip_mismatches(formats@, i as int);
            }
            return Some(formats[i].id);
        }
        i += 1;
    }
    proof {
        lemma_skip_mismatches(formats@, formats@.len() as int);
    }
    None
}

/// `argb32_format` answers `None` exactly when no format matches, and
/// otherwise names a matching format that no matching format precedes.
pub proof fn lemma_argb32_format_is_first_match(formats: Seq<PictFormat>)
    ensures
        argb32_format(formats) is None <==> forall|i: int|
            0 <= i < formats.len() ==> !is_argb32(formats[i]),
        argb32_format(formats) matches Some(id) ==> exists|i: int|
            0 <= i < formats.len() && is_argb32(formats[i]) && formats[i].id == id && forall|j: int|
                0 <= j < i ==> !is_argb32(formats[j]),
    decreases formats.len(),
{
    if formats.len() == 0 {
    } else if is_argb32(formats[0]) {
        assert(0 <= 0 < formats.len() && is_argb32(formats[0]) && formats[0].id
            == argb32_format(formats)->Some_0 && forall|j: int|
            0 <= j < 0 ==> !is_argb32(formats[j]));
    } else {
        let rest = formats.drop_first();
        lemma_argb32_format_is_first_match(rest);
        assert(forall|i: int| 0 <= i < rest.len() ==> rest[i] == formats[i + 1]);
        if argb32_format(rest) is None {
            assert forall|i: int| 0 <= i < formats.len() implies !is_argb32(formats[i]) by {
                if i > 0 {
                    assert(rest[i - 1] == formats[i]);
                }
            }
        } else {
            let id = argb32_format(rest)->Some_0;
            let k = choose|i: int|
                0 <= i < rest.len() && is_argb32(rest[i]) && rest[i].id == id && forall|j: int|
                    0 <= j < i ==> !is_argb32(rest[j]);
            assert(is_argb32(formats[k + 1]));
            assert forall|j: int| 0 <= j < k + 1 implies !is_argb32(formats[j]) by {
                if j > 0 {
                    assert(rest[j - 1] == formats[j]);
                }
            }
            assert(0 <= k + 1 < formats.len() && is_argb32(formats[k + 1]) && formats[k + 1].id
                == id && forall|j: int| 0 <= j < k + 1 ==> !is_argb32(formats[j]));
        }
    }
}

/// Among advertised formats of which exactly one has the ARGB32 layout, the
/// resolver names that one, wherever it stands in the list.
pub proof fn lemma_single_match_is_found(formats: Seq<PictFormat>, k: int)
    requires
        0 <= k < formats.len(),
        is_argb32(formats[k]),
        forall|i: int| 0 <= i < formats.len() && i != k ==> !is_argb32(formats[i]),
    ensures
        argb32_format(formats) == Some(formats[k].id),
{
    lemma_skip_mismatches(formats, k);
    assert(formats.skip(k)[0] == formats[k]);
}

} // verus!
