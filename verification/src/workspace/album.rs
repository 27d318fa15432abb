use vstd::prelude::*;

use super::album_image::AlbumImage;
use super::image_manager::strictly_increasing;

verus! {

/// The photo ids of `images`, in order.
pub open spec fn photo_ids(images: Seq<AlbumImage>) -> Seq<i32> {
    images.map_values(|image: AlbumImage| image.photo_id)
}

/// `index` is the first position whose photo id is at least `bound`.
pub open spec fn is_first_at_least(ids: Seq<i32>, bound: int, index: int) -> bool {
    &&& 0 <= index < ids.len()
    &&& ids[index] >= bound
    &&& forall|j: int| 0 <= j < index ==> ids[j] < bound
}

/// The position that a new list of photos selects, given the photo id
/// selected before: the first photo whose id is at least that id, else the
/// last photo, else 0 for no photos.
pub open spec fn selects_after_update(ids: Seq<i32>, bound: int, index: int) -> bool {
    if exists|i: int| 0 <= i < ids.len() && ids[i] >= bound {
        is_first_at_least(ids, bound, index)
    } else if ids.len() > 0 {
        index == ids.len() - 1
    } else {
        index == 0
    }
}

/// The position after stepping to the next photo, wrapping at the end.
pub open spec fn next_index(len: int, index: int) -> int {
    (index + 1) % len
}

/// The position after stepping to the previous photo, wrapping at the start.
pub open spec fn previous_index(len: int, index: int) -> int {
    (len + index - 1) % len
}

/// A position is valid for `len` photos when it points at one of them, or
/// is 0.
pub open spec fn index_valid(len: int, index: int) -> bool {
    index == 0 || (0 <= index < len)
}

/// The photos of the album in the order the image strip shows them, and
/// which one is selected.
pub struct Album {
    images: Vec<AlbumImage>,
    image_index: usize,
}

impl View for Album {
    /// The photos and the position of the selected one.
    type V = (Seq<AlbumImage>, int);

    closed spec fn view(&self) -> (Seq<AlbumImage>, int) {
        (self.images@, self.image_index as int)
    }
}

impl Album {
    pub open spec fn images_spec(&self) -> Seq<AlbumImage> {
        self@.0
    }

    pub open spec fn index_spec(&self) -> int {
        self@.1
    }

    /// The selected position is valid, as it always is.
    #[verifier::type_invariant]
    pub open spec fn well_formed(&self) -> bool {
        index_valid(self.images_spec().len() as int, self.index_spec())
    }

    /// The photo id of the selected photo, if there is one.
    pub open spec fn photo_id_spec(&self) -> Option<i32> {
        if 0 <= self.index_spec() < self.images_spec().len() {
            Some(self.images_spec()[self.index_spec()].photo_id)
        } else {
            None
        }
    }

    /// An album of `images` with the first one selected.
    pub fn new(images: Vec<AlbumImage>) -> (result: Self)
        ensures
            result.images_spec() == images@,
            result.index_spec() == 0,
            result.well_formed(),
    {
        Self { images, image_index: 0 }
    }

    /// Replaces the photos, keeping the selection on the first photo whose
    /// id is at least that of the photo selected before (0 if none was).
    pub fn set_images(&mut self, images: Vec<AlbumImage>)
        ensures
            final(self).well_formed(),
            final(self).images_spec() == images@,
            selects_after_update(
                photo_ids(images@),
                match old(self).photo_id_spec() {
                    Some(id) => id as int,
                    None => 0,
                },
                final(self).index_spec(),
            ),
    {
        proof {
            use_type_invariant(&*self);
        }
        let current_photo_id: i32 = if self.image_index < self.images.len() {
            self.images[self.image_index].photo_id
        } else {
            0
        };
        let ghost ids = photo_ids(images@);
        let len = images.len();
        let mut found: Option<usize> = None;
        let mut i: usize = 0;
        while i < len
            invariant
                len == images@.len(),
                ids == photo_ids(images@),
                i <= len,
                found is None ==> forall|j: int| 0 <= j < i ==> ids[j] < current_photo_id,
                found matches Some(k) ==> is_first_at_least(ids, current_photo_id as int, k as int),
            decreases len - i,
        {
            if found.is_none() && images[i].photo_id >= current_photo_id {
                found = Some(i);
            }
            i = i + 1;
        }
        let index: usize = match found {
            Some(k) => k,
            None => if len > 0 {
                len - 1
            } else {
                0
            },
        };
        proof {
            if found is None {
                assert forall|j: int| 0 <= j < ids.len() implies !(ids[j] >= current_photo_id) by {
                    assert(ids[j] < current_photo_id);
                }
            }
        }
        *self = Album { images, image_index: index };
    }

    pub fn get_images(&self) -> (result: &Vec<AlbumImage>)
        ensures
            result@ == self.images_spec(),
    {
        &self.images
    }

    pub fn get_image_index(&self) -> (result: usize)
        ensures
            result == self.index_spec(),
    {
        self.image_index
    }

    /// The photo id of the selected photo, or `None` for an empty album.
    pub fn get_photo_id(&self) -> (result: Option<i32>)
        ensures
            result == self.photo_id_spec(),
    {
        if self.image_index < self.images.len() {
            Some(self.images[self.image_index].photo_id)
        } else {
            None
        }
    }

    /// Selects the next photo, the first after the last.
    pub fn next_image(&mut self)
        requires
            old(self).images_spec().len() > 0,
        ensures
            final(self).well_formed(),
            final(self).images_spec() == old(self).images_spec(),
            final(self).index_spec() == next_index(
                old(self).images_spec().len() as int,
                old(self).index_spec(),
            ),
    {
        proof {
            use_type_invariant(&*self);
        }
        let len = self.images.len();
        self.image_index = (self.image_index + 1) % len;
    }

    /// Selects the previous photo, the last before the first.
    pub fn previous_image(&mut self)
        requires
            old(self).images_spec().len() > 0,
        ensures
            final(self).well_formed(),
            final(self).images_spec() == old(self).images_spec(),
            final(self).index_spec() == previous_index(
                old(self).images_spec().len() as int,
                old(self).index_spec(),
            ),
    {
        proof {
            use_type_invariant(&*self);
        }
        let len = self.images.len();
        if self.image_index == 0 {
            self.image_index = len - 1;
        } else {
            self.image_index = self.image_index - 1;
        }
        proof {
            let l = len as int;
            let i = old(self).index_spec();
            if i == 0 {
                assert((l + i - 1) % l == l - 1) by (nonlinear_arith)
                    requires
                        l > 0,
                        i == 0,
                ;
            } else {
                assert((l + i - 1) % l == i - 1) by (nonlinear_arith)
                    requires
                        l > 0,
                        0 < i < l,
                ;
            }
        }
    }

    /// Selects the photo at `index`, if there is one.
    pub fn set_image_index(&mut self, index: usize)
        ensures
            final(self).well_formed(),
            final(self).images_spec() == old(self).images_spec(),
            final(self).index_spec() == if index < old(self).images_spec().len() {
                index as int
            } else {
                old(self).index_spec()
            },
    {
        proof {
            use_type_invariant(&*self);
        }
        if index < self.images.len() {
            self.image_index = index;
        }
    }
}

/// Stepping forward and then back, or back and then forward, returns to
/// the photo selected before.
pub proof fn lemma_next_previous_inverse(len: int, index: int)
    requires
        0 <= index < len,
    ensures
        0 <= next_index(len, index) < len,
        0 <= previous_index(len, index) < len,
        previous_index(len, next_index(len, index)) == index,
        next_index(len, previous_index(len, index)) == index,
{
    if index + 1 < len {
        assert((index + 1) % len == index + 1) by (nonlinear_arith)
            requires
                0 <= index + 1 < len,
        ;
        assert((len + index + 1 - 1) % len == index) by (nonlinear_arith)
            requires
                0 <= index < len,
        ;
    } else {
        assert((index + 1) % len == 0) by (nonlinear_arith)
            requires
                index + 1 == len,
                len > 0,
        ;
        assert((len + 0 - 1) % len == index) by (nonlinear_arith)
            requires
                index + 1 == len,
                index >= 0,
        ;
    }
    if index == 0 {
        assert((len + index - 1) % len == len - 1) by (nonlinear_arith)
            requires
                index == 0,
                len > 0,
        ;
        assert((len - 1 + 1) % len == 0) by (nonlinear_arith)
            requires
                len > 0,
        ;
    } else {
        assert((len + index - 1) % len == index - 1) by (nonlinear_arith)
            requires
                0 < index < len,
        ;
        assert((index - 1 + 1) % len == index) by (nonlinear_arith)
            requires
                0 < index < len,
        ;
    }
}

/// Stepping forward selects the following photo and, from the last, the
/// first; stepping back selects the preceding photo and, from the first,
/// the last.
pub proof fn lemma_steps_move_by_one(len: int, index: int)
    requires
        0 <= index < len,
    ensures
        index + 1 < len ==> next_index(len, index) == index + 1,
        index + 1 == len ==> next_index(len, index) == 0,
        index > 0 ==> previous_index(len, index) == index - 1,
        index == 0 ==> previous_index(len, index) == len - 1,
{
    if index + 1 < len {
        assert((index + 1) % len == index + 1) by (nonlinear_arith)
            requires
                0 <= index + 1 < len,
        ;
    } else {
        assert((index + 1) % len == 0) by (nonlinear_arith)
            requires
                index + 1 == len,
                index >= 0,
        ;
    }
    if index > 0 {
        assert((len + index - 1) % len == index - 1) by (nonlinear_arith)
            requires
                0 < index < len,
        ;
    } else {
        assert((len + index - 1) % len == len - 1) by (nonlinear_arith)
            requires
                index == 0,
                len > 0,
        ;
    }
}

/// When the new photos are in increasing order of id and still hold the
/// photo selected before, that photo stays selected.
pub proof fn lemma_update_keeps_selected_photo(ids: Seq<i32>, selected: i32, index: int)
    requires
        strictly_increasing(ids),
        exists|k: int| 0 <= k < ids.len() && ids[k] == selected,
        selects_after_update(ids, selected as int, index),
    ensures
        0 <= index < ids.len(),
        ids[index] == selected,
{
    let k = choose|k: int| 0 <= k < ids.len() && ids[k] == selected;
    assert(ids[k] >= selected);
    assert(is_first_at_least(ids, selected as int, index));
    if index < k {
        assert(ids[index] < ids[k]);
    } else if index > k {
        assert(ids[k] < selected);
    }
}

} // verus!
