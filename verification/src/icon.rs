//! Naming a system cursor.

use vstd::prelude::*;

verus! {

/// A system cursor icon, identified by its number in the icon table.
#[derive(Clone, Copy, Debug, PartialEq, Eq, Structural, Hash)]
pub struct CursorIcon {
    pub id: u32,
}

impl Default for CursorIcon {
    /// The first icon of the table, the ordinary arrow.
    fn default() -> (r: Self)
        ensures
            r == (CursorIcon { id: 0 }),
    {
        CursorIcon { id: 0 }
    }
}

/// An icon with the names the theme may know it by: the canonical name
/// first, then the alternates in the order they are to be tried.
#[derive(Debug)]
pub struct NamedIcon {
    pub icon: CursorIcon,
    pub name: &'static str,
    pub alt_names: Vec<&'static str>,
}

/// What picks a cursor: a named icon, or nothing for the invisible cursor.
pub open spec fn selector(cursor: Option<NamedIcon>) -> Option<CursorIcon> {
    match cursor {
        Some(named) => Some(named.icon),
        None => None,
    }
}

/// The names under which the theme is asked for an icon, in order.
pub open spec fn candidates(name: &'static str, alt_names: Seq<&'static str>) -> Seq<
    &'static str,
> {
    seq![name] + alt_names
}

} // verus!
