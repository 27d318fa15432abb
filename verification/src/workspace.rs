pub mod album;
pub mod album_image;
pub mod album_image_loader;
pub mod image_loader;
pub mod image_manager;
pub mod parameters;
pub mod workspace;

use vstd::prelude::*;

use crate::album::{Album, AlbumImage};
use crate::types::RawImage;

verus! {

/// An album with one of its photos open for editing.
pub struct WorkSpace<P, V, C> {
    album: Album<P, V, C>,
    image_index: usize,
}

impl<P, V, C> WorkSpace<P, V, C> {
    /// The photos of the album.
    pub closed spec fn images(&self) -> Seq<AlbumImage<P, V, C>> {
        self.album.images@
    }

    /// The position of the open photo.
    pub closed spec fn index(&self) -> int {
        self.image_index as int
    }

    /// The open photo is one of the album's.
    pub open spec fn has_current(&self) -> bool {
        0 <= self.index() < self.images().len()
    }

    /// The open photo.
    pub open spec fn current(&self) -> AlbumImage<P, V, C> {
        self.images()[self.index()]
    }

    pub fn new(album: Album<P, V, C>, image_index: usize) -> (result: Self)
        ensures
            result.images() == album.images@,
            result.index() == image_index,
    {
        Self { album, image_index }
    }

    pub fn album_images(&self) -> (result: &Vec<AlbumImage<P, V, C>>)
        ensures
            result@ == self.images(),
    {
        &self.album.images
    }

    pub fn current_image(&self) -> (result: &AlbumImage<P, V, C>)
        requires
            self.has_current(),
        ensures
            *result == self.current(),
    {
        &self.album.images[self.image_index]
    }

    pub fn current_source_image(&self) -> (result: &RawImage)
        requires
            self.has_current(),
        ensures
            *result == self.current().source_image,
    {
        &self.current_image().source_image
    }

    pub fn current_parameters(&self) -> (result: &P)
        requires
            self.has_current(),
        ensures
            *result == self.current().parameters,
    {
        &self.current_image().parameters
    }

    pub fn current_image_view(&self) -> (result: &V)
        requires
            self.has_current(),
        ensures
            *result == self.current().image_view,
    {
        &self.current_image().image_view
    }

    pub fn current_crop(&self) -> (result: &C)
        requires
            self.has_current(),
        ensures
            *result == self.current().crop,
    {
        &self.current_image().crop
    }

    pub fn current_parameters_mut(&mut self) -> (result: &mut P)
        requires
            old(self).has_current(),
        ensures
            *result == old(self).current().parameters,
            final(self).index() == old(self).index(),
            final(self).images() == old(self).images().update(
                old(self).index(),
                AlbumImage { parameters: *final(result), ..old(self).current() },
            ),
    {
        let index = self.image_index;
        &mut self.album.images[index].parameters
    }

    pub fn current_image_view_mut(&mut self) -> (result: &mut V)
        requires
            old(self).has_current(),
        ensures
            *result == old(self).current().image_view,
            final(self).index() == old(self).index(),
            final(self).images() == old(self).images().update(
                old(self).index(),
                AlbumImage { image_view: *final(result), ..old(self).current() },
            ),
    {
        let index = self.image_index;
        &mut self.album.images[index].image_view
    }

    pub fn current_crop_mut(&mut self) -> (result: &mut C)
        requires
            old(self).has_current(),
        ensures
            *result == old(self).current().crop,
            final(self).index() == old(self).index(),
            final(self).images() == old(self).images().update(
                old(self).index(),
                AlbumImage { crop: *final(result), ..old(self).current() },
            ),
    {
        let index = self.image_index;
        &mut self.album.images[index].crop
    }

    /// Opens the next photo, the first after the last.
    pub fn next_image_index(&mut self)
        requires
            old(self).images().len() > 0,
            old(self).index() < usize::MAX,
        ensures
            final(self).images() == old(self).images(),
            final(self).index() == crate::workspace::album::next_index(
                old(self).images().len() as int,
                old(self).index(),
            ),
    {
        self.image_index = (self.image_index + 1) % self.album.images.len();
    }

    /// Opens the photo at `index`, if there is one.
    pub fn set_image_index(&mut self, index: usize)
        ensures
            final(self).images() == old(self).images(),
            final(self).index() == if index < old(self).images().len() {
                index as int
            } else {
                old(self).index()
            },
    {
        if index < self.album.images.len() {
            self.image_index = index;
        }
    }
}

} // verus!
