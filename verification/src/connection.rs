//! What a connection knows that cursors depend on.

use vstd::prelude::*;
use crate::builder::{is_empty_build, BuildModel, ImageCursorBuild, ImageGeometry};
use crate::cache::CursorCache;
use crate::custom::{convertible, is_custom_build, CursorImage, CustomCursor};
use crate::format::{argb32_format, find_argb32_format, PictFormat};
use crate::icon::NamedIcon;
use crate::lookup::CursorLookup;
use crate::request::Request;
use crate::set_cursor::SetCursorIcon;
use crate::update::CursorUpdate;

verus! {

/// The part of a connection that cursor handling reads and writes: the root
/// window of the default screen, the picture formats the server advertises
/// and the cursors resolved so far.
#[derive(Debug)]
pub struct XConnection {
    pub root: u32,
    pub render_formats: Vec<PictFormat>,
    pub cursor_cache: CursorCache,
}

impl XConnection {
    /// A connection that has resolved no cursor yet.
    pub fn new(root: u32, render_formats: Vec<PictFormat>) -> (r: Self)
        ensures
            r.root == root,
            r.render_formats == render_formats,
            r.cursor_cache@ == Map::<Option<crate::icon::CursorIcon>, u32>::empty(),
    {
        XConnection { root, render_formats, cursor_cache: CursorCache::new() }
    }

    /// The picture format that corresponds to ARGB32: the first advertised
    /// format with that layout. A server that advertises none is no server
    /// to ask this of; [`find_argb32_format`] tells whether it does.
    pub fn find_argb32_format(&self) -> (r: u32)
        requires
            argb32_format(self.render_formats@) is Some,
        ensures
            argb32_format(self.render_formats@) == Some(r),
    {
        find_argb32_format(self.render_formats.as_slice()).unwrap()
    }

    /// Begins the build of a cursor from an image.
    pub fn create_cursor_from_image<E>(
        &self,
        width: u16,
        height: u16,
        depth: u8,
        hotspot_x: u16,
        hotspot_y: u16,
        image: Vec<u8>,
    ) -> (r: (ImageCursorBuild<E>, Request))
        ensures
            r.0@ == BuildModel::<E>::start(
                ImageGeometry { width, height, depth, hotspot_x, hotspot_y },
                self.root,
                argb32_format(self.render_formats@),
                image,
            ),
            r.1 == Request::GenerateId,
    {
        let geometry = ImageGeometry { width, height, depth, hotspot_x, hotspot_y };
        ImageCursorBuild::start(geometry, self.root, find_argb32_format(self.render_formats.as_slice()), image)
    }

    /// Begins the build of the invisible cursor.
    pub fn create_empty_cursor<E>(&self) -> (r: (ImageCursorBuild<E>, Request))
        ensures
            is_empty_build(r.0@, self.root, argb32_format(self.render_formats@)),
            r.1 == Request::GenerateId,
    {
        ImageCursorBuild::start_empty(self.root, find_argb32_format(self.render_formats.as_slice()))
    }

    /// Begins to resolve `cursor` without a look at the cache.
    pub fn get_cursor<E>(&self, cursor: Option<NamedIcon>) -> (r: (CursorLookup<E>, Request))
        ensures
            r.0@.starts(self.root, argb32_format(self.render_formats@), cursor),
            r.1 == (if cursor is None {
                Request::GenerateId
            } else {
                Request::OpenTheme
            }),
    {
        CursorLookup::start(self.root, find_argb32_format(self.render_formats.as_slice()), cursor)
    }

    /// Begins to put `cursor` on `window`.
    pub fn update_cursor(&self, window: u32, cursor: u32) -> (r: (CursorUpdate, Request))
        ensures
            r.0 == CursorUpdate::Changing,
            r.1 == (Request::ChangeWindowCursor { window, cursor }),
    {
        CursorUpdate::start(window, cursor)
    }

    /// Begins to show the system cursor `cursor`, or the invisible cursor,
    /// on `window`. The steps that follow work on `cursor_cache`.
    pub fn set_cursor_icon<E>(&self, window: u32, cursor: Option<NamedIcon>) -> (r: (
        SetCursorIcon<E>,
        Request,
    ))
        ensures
            r.0@.starts(
                r.1,
                self.cursor_cache@,
                self.root,
                argb32_format(self.render_formats@),
                window,
                cursor,
            ),
    {
        SetCursorIcon::start(
            &self.cursor_cache,
            self.root,
            find_argb32_format(self.render_formats.as_slice()),
            window,
            cursor,
        )
    }

    /// Begins to show a custom cursor on `window`. Custom cursors do not go
    /// through the cache.
    pub fn set_custom_cursor(&self, window: u32, cursor: &CustomCursor) -> (r: (
        CursorUpdate,
        Request,
    ))
        ensures
            r.0 == CursorUpdate::Changing,
            r.1 == (Request::ChangeWindowCursor { window, cursor: cursor.cursor_spec() }),
    {
        CursorUpdate::start(window, cursor.cursor())
    }

    /// Begins the build of a custom cursor from `image`.
    pub fn create_custom_cursor<E>(&self, image: CursorImage) -> (r: (
        ImageCursorBuild<E>,
        Request,
    ))
        requires
            convertible(image.rgba@.len()),
        ensures
            is_custom_build(r.0@, self.root, argb32_format(self.render_formats@), image),
            r.1 == Request::GenerateId,
    {
        CustomCursor::build(self.root, find_argb32_format(self.render_formats.as_slice()), image)
    }
}

} // verus!
