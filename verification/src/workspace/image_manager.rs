use std::collections::BTreeMap;
use std::path::PathBuf;
use std::sync::Arc;
use vstd::prelude::*;
use vstd::std_specs::cmp::OrdSpec;
use vstd::std_specs::iter::IteratorSpec;

use super::album_image::AlbumImage;
use crate::types::RawImage;

verus! {

broadcast use vstd::std_specs::btree::group_btree_axioms, vstd::laws_cmp::group_laws_cmp;

#[verifier::external_type_specification]
#[verifier::external_body]
pub struct ExPathBuf(std::path::PathBuf);

/// Calls `<PathBuf as Clone>::clone`, which returns a path equal to the one
/// it is given.
pub assume_specification[ <PathBuf as Clone>::clone ](path: &PathBuf) -> (result: PathBuf)
    ensures
        result == *path,
;

/// Calls `<Arc<T> as Clone>::clone`, which returns another pointer to the
/// same value.
#[verifier::external_body]
fn share<T>(arc: &Arc<T>) -> (result: Arc<T>)
    ensures
        result == *arc,
{
    arc.clone()
}

/// A photo whose image is still to be loaded from `path`.
pub struct ImagePath {
    pub photo_id: i32,
    pub path: PathBuf,
}

/// A photo as the store keeps it: where it was loaded from, its image and
/// thumbnail once loaded, and shared handles to its parameter history and
/// view, whose types the caller chooses.
pub struct SourceImage<H, V> {
    pub path: PathBuf,
    pub image: Option<Arc<RawImage>>,
    pub thumbnail: Option<Arc<RawImage>>,
    pub parameter_history: H,
    pub image_view: V,
}

/// `ids` is in strictly increasing order.
pub open spec fn strictly_increasing(ids: Seq<i32>) -> bool {
    forall|a: int, b: int| 0 <= a < b < ids.len() ==> ids[a] < ids[b]
}

/// `ids` lists the keys of `m`, each once, in increasing order.
pub open spec fn lists_keys<T>(ids: Seq<i32>, m: Map<i32, T>) -> bool {
    &&& strictly_increasing(ids)
    &&& forall|i: int| 0 <= i < ids.len() ==> m.contains_key(#[trigger] ids[i])
    &&& forall|k: i32| m.contains_key(k) ==> ids.contains(k)
}

/// The ids of the photos in `m`, in increasing order.
fn sorted_keys<T>(m: &BTreeMap<i32, T>) -> (result: Vec<i32>)
    ensures
        lists_keys(result@, m@),
{
    proof {
        assert(vstd::laws_cmp::obeys_cmp::<i32>());
        assert(vstd::std_specs::btree::key_obeys_cmp_spec::<i32>());
    }
    let iter = m.iter();
    let ghost entries = iter.remaining();
    proof {
        assert(entries == vstd::std_specs::btree::spec_btree_map_iter(m).remaining());
    }
    let mut result: Vec<i32> = Vec::new();
    for entry in it: iter
        invariant
            it.seq() == entries,
            result@.len() == it.index(),
            forall|i: int| 0 <= i < it.index() ==> result@[i] == *(#[trigger] entries[i]).0,
    {
        let (key, _value) = entry;
        result.push(*key);
    }
    proof {
        let keys = entries.map_values(|kv: (&i32, &T)| *kv.0);
        assert(vstd::std_specs::btree::increasing_seq(keys));
        assert(result@.len() == entries.len());
        assert forall|a: int, b: int| 0 <= a < b < result@.len() implies result@[a] < result@[b] by {
            assert(keys[a].cmp_spec(&keys[b]) is Less);
            assert(keys[a] == result@[a]);
            assert(keys[b] == result@[b]);
        }
        assert forall|i: int| 0 <= i < result@.len() implies m@.contains_key(#[trigger] result@[i]) by {
            assert(m@.contains_key(*entries[i].0));
        }
        assert forall|k: i32| m@.contains_key(k) implies result@.contains(k) by {
            assert(entries.contains((&k, &m@[k])));
            let i = choose|i: int| 0 <= i < entries.len() && entries[i] == (&k, &m@[k]);
            assert(result@[i] == k);
        }
    }
    result
}

} // verus!

verus! {

/// The store after reloading the list of photos as `new`: the photos of
/// `new`, where each photo already in `old` keeps the state it had there.
pub open spec fn refreshed<T>(old: Map<i32, T>, new: Map<i32, T>) -> Map<i32, T> {
    Map::new(
        |k: i32| new.contains_key(k),
        |k: i32|
            if old.contains_key(k) {
                old[k]
            } else {
                new[k]
            },
    )
}

/// The photos of the album with the state the editor keeps of each, by id,
/// and whether only favourites are listed.
pub struct ImageManager<H, V> {
    source_images: BTreeMap<i32, SourceImage<H, V>>,
    is_filter_active: bool,
}

impl<H, V> View for ImageManager<H, V> {
    /// The photos by id, and whether the favourites filter is on.
    type V = (Map<i32, SourceImage<H, V>>, bool);

    closed spec fn view(&self) -> (Map<i32, SourceImage<H, V>>, bool) {
        (self.source_images@, self.is_filter_active)
    }
}

impl<H, V> ImageManager<H, V> {
    pub open spec fn photos(&self) -> Map<i32, SourceImage<H, V>> {
        self@.0
    }

    pub open spec fn filter_active(&self) -> bool {
        self@.1
    }

    /// A store of `source_images` that lists every photo.
    pub fn new(source_images: BTreeMap<i32, SourceImage<H, V>>) -> (result: Self)
        ensures
            result.photos() == source_images@,
            !result.filter_active(),
    {
        Self { source_images, is_filter_active: false }
    }

    /// Takes the reloaded list of photos `new_images`, keeping the state of
    /// the photos that stay.
    pub fn refresh(&mut self, new_images: BTreeMap<i32, SourceImage<H, V>>)
        ensures
            final(self).photos() == refreshed(old(self).photos(), new_images@),
            final(self).filter_active() == old(self).filter_active(),
    {
        let ghost old_photos = self.source_images@;
        let ghost new_photos = new_images@;
        let ids = sorted_keys(&self.source_images);
        let mut merged = new_images;
        let mut i: usize = 0;
        proof {
            assert forall|k: i32| old_photos.contains_key(k) implies !(0 >= ids@.len() || k
                < ids@[0]) by {
                assert(ids@.contains(k));
                let t = choose|t: int| 0 <= t < ids@.len() && ids@[t] == k;
                if t > 0 {
                    assert(ids@[0] < ids@[t]);
                }
            }
        }
        while i < ids.len()
            invariant
                lists_keys(ids@, old_photos),
                i <= ids@.len(),
                merged@.dom() == new_photos.dom(),
                forall|k: i32|
                    #[trigger] merged@.contains_key(k) ==> merged@[k] == if old_photos.contains_key(k)
                        && (i >= ids@.len() || k < ids@[i as int]) {
                        old_photos[k]
                    } else {
                        new_photos[k]
                    },
                forall|j: int|
                    i <= j < ids@.len() ==> self.source_images@.contains_key(#[trigger] ids@[j])
                        && self.source_images@[ids@[j]] == old_photos[ids@[j]],
                self.is_filter_active == old(self).is_filter_active,
            decreases ids@.len() - i,
        {
            let id = ids[i];
            proof {
                assert forall|k: i32| old_photos.contains_key(k) implies ((i + 1 >= ids@.len()
                    || k < ids@[i + 1]) <==> (k < id || k == id)) by {
                    assert(ids@.contains(k));
                    let t = choose|t: int| 0 <= t < ids@.len() && ids@[t] == k;
                    if t < i {
                        assert(ids@[t] < ids@[i as int]);
                        if i + 1 < ids@.len() {
                            assert(ids@[t] < ids@[i + 1]);
                        }
                    } else if t > i {
                        assert(ids@[i as int] < ids@[t]);
                        assert(t >= i + 1);
                        if t > i + 1 {
                            assert(ids@[i + 1] < ids@[t]);
                        }
                    } else if i + 1 < ids@.len() {
                        assert(ids@[i as int] < ids@[i + 1]);
                    }
                }
            }
            if merged.contains_key(&id) {
                let removed = self.source_images.remove(&id);
                match removed {
                    Some(source_image) => {
                        merged.insert(id, source_image);
                    },
                    None => {},
                }
            }
            proof {
                assert forall|j: int|
                    i + 1 <= j < ids@.len() implies self.source_images@.contains_key(
                    #[trigger] ids@[j],
                ) && self.source_images@[ids@[j]] == old_photos[ids@[j]] by {
                    assert(ids@[i as int] < ids@[j]);
                }
            }
            i = i + 1;
        }
        proof {
            assert(merged@ =~= refreshed(old_photos, new_photos));
        }
        self.source_images = merged;
    }

    /// Gives the photo `photo_id` its loaded image and thumbnail. Returns
    /// whether the store has that photo; nothing changes if it does not.
    pub fn set_image(&mut self, photo_id: i32, image: RawImage, thumbnail: RawImage) -> (result:
        bool)
        ensures
            result == old(self).photos().contains_key(photo_id),
            final(self).filter_active() == old(self).filter_active(),
            !result ==> final(self).photos() == old(self).photos(),
            result ==> {
                let before = old(self).photos()[photo_id];
                let after = final(self).photos()[photo_id];
                &&& final(self).photos() == old(self).photos().insert(photo_id, after)
                &&& after.image matches Some(loaded) && *loaded == image
                &&& after.thumbnail matches Some(loaded) && *loaded == thumbnail
                &&& after.path == before.path
                &&& after.parameter_history == before.parameter_history
                &&& after.image_view == before.image_view
            },
    {
        match self.source_images.remove(&photo_id) {
            Some(source_image) => {
                let mut source_image = source_image;
                source_image.image = Some(Arc::new(image));
                source_image.thumbnail = Some(Arc::new(thumbnail));
                self.source_images.insert(photo_id, source_image);
                proof {
                    assert(self.source_images@ =~= old(self).source_images@.insert(
                        photo_id,
                        self.source_images@[photo_id],
                    ));
                }
                true
            },
            None => false,
        }
    }

    /// The photo `photo_id`, if the store has it.
    pub fn get_source_image(&self, photo_id: i32) -> (result: Option<&SourceImage<H, V>>)
        ensures
            match result {
                Some(source_image) => self.photos().contains_key(photo_id) && *source_image
                    == self.photos()[photo_id],
                None => !self.photos().contains_key(photo_id),
            },
    {
        self.source_images.get(&photo_id)
    }

    /// All photos, by id.
    pub fn get_source_images(&self) -> (result: &BTreeMap<i32, SourceImage<H, V>>)
        ensures
            result@ == self.photos(),
    {
        &self.source_images
    }

    /// Removes the photo `photo_id` from the store.
    pub fn delete_image(&mut self, photo_id: i32)
        ensures
            final(self).photos() == old(self).photos().remove(photo_id),
            final(self).filter_active() == old(self).filter_active(),
    {
        self.source_images.remove(&photo_id);
    }

    /// Lists only favourites if all photos were listed, and the other way
    /// round.
    pub fn toggle_filter(&mut self)
        ensures
            final(self).photos() == old(self).photos(),
            final(self).filter_active() == !old(self).filter_active(),
    {
        self.is_filter_active = !self.is_filter_active;
    }

    pub fn get_is_filter_active(&self) -> (result: bool)
        ensures
            result == self.filter_active(),
    {
        self.is_filter_active
    }

    /// The photos for the image strip, by increasing id: all of them, or,
    /// with the filter on, those that `is_favorite` accepts by their
    /// parameter history.
    pub fn get_all_album_images<F: Fn(&H) -> bool>(&self, is_favorite: F) -> (result: Vec<
        AlbumImage,
    >)
        requires
            forall|history: &H| is_favorite.requires((history,)),
        ensures
            strictly_increasing(result@.map_values(|image: AlbumImage| image.photo_id)),
            forall|i: int|
                0 <= i < result@.len() ==> {
                    let id = #[trigger] result@[i].photo_id;
                    &&& self.photos().contains_key(id)
                    &&& result@[i].thumbnail == self.photos()[id].thumbnail
                    &&& self.filter_active() ==> is_favorite.ensures(
                        (&self.photos()[id].parameter_history,),
                        true,
                    )
                },
            forall|k: i32|
                #[trigger] self.photos().contains_key(k) && !result@.map_values(
                    |image: AlbumImage| image.photo_id,
                ).contains(k) ==> self.filter_active() && is_favorite.ensures(
                    (&self.photos()[k].parameter_history,),
                    false,
                ),
    {
        let ids = sorted_keys(&self.source_images);
        let mut result: Vec<AlbumImage> = Vec::new();
        let mut i: usize = 0;
        while i < ids.len()
            invariant
                lists_keys(ids@, self.source_images@),
                i <= ids@.len(),
                forall|history: &H| is_favorite.requires((history,)),
                forall|j: int|
                    0 <= j < result@.len() ==> exists|t: int|
                        0 <= t < i && ids@[t] == (#[trigger] result@[j]).photo_id,
                strictly_increasing(result@.map_values(|image: AlbumImage| image.photo_id)),
                forall|j: int|
                    0 <= j < result@.len() ==> {
                        let id = #[trigger] result@[j].photo_id;
                        &&& self.source_images@.contains_key(id)
                        &&& result@[j].thumbnail == self.source_images@[id].thumbnail
                        &&& self.is_filter_active ==> is_favorite.ensures(
                            (&self.source_images@[id].parameter_history,),
                            true,
                        )
                    },
                forall|t: int|
                    0 <= t < i && !result@.map_values(|image: AlbumImage| image.photo_id).contains(
                        #[trigger] ids@[t],
                    ) ==> self.is_filter_active && is_favorite.ensures(
                        (&self.source_images@[ids@[t]].parameter_history,),
                        false,
                    ),
            decreases ids@.len() - i,
        {
            let id = ids[i];
            let ghost before = result@;
            match self.source_images.get(&id) {
                Some(source_image) => {
                    let listed = if self.is_filter_active {
                        is_favorite(&source_image.parameter_history)
                    } else {
                        true
                    };
                    if listed {
                        let thumbnail = match &source_image.thumbnail {
                            Some(thumbnail) => Some(share(thumbnail)),
                            None => None,
                        };
                        result.push(AlbumImage::new(id, thumbnail));
                        proof {
                            let r = result@.map_values(|image: AlbumImage| image.photo_id);
                            let bm = before.map_values(|image: AlbumImage| image.photo_id);
                            assert forall|a: int, b: int| 0 <= a < b < r.len() implies r[a] < r[b] by {
                                if b == r.len() - 1 {
                                    assert(r[a] == before[a].photo_id);
                                    let t = choose|t: int|
                                        0 <= t < i && ids@[t] == (#[trigger] before[a]).photo_id;
                                    assert(ids@[t] < ids@[i as int]);
                                } else {
                                    assert(r[a] == bm[a]);
                                    assert(r[b] == bm[b]);
                                }
                            }
                            assert forall|j: int| 0 <= j < result@.len() implies exists|t: int|
                                0 <= t < i + 1 && ids@[t] == (#[trigger] result@[j]).photo_id by {
                                if j < before.len() {
                                    assert(result@[j] == before[j]);
                                    let t = choose|t: int|
                                        0 <= t < i && ids@[t] == (#[trigger] before[j]).photo_id;
                                    assert(ids@[t] == result@[j].photo_id);
                                } else {
                                    assert(ids@[i as int] == result@[j].photo_id);
                                }
                            }
                            assert forall|t: int|
                                0 <= t < i + 1 && !r.contains(#[trigger] ids@[t]) implies self.is_filter_active
                                && is_favorite.ensures(
                                (&self.source_images@[ids@[t]].parameter_history,),
                                false,
                            ) by {
                                if t < i {
                                    if bm.contains(ids@[t]) {
                                        let q = choose|q: int| 0 <= q < bm.len() && bm[q] == ids@[t];
                                        assert(r[q] == ids@[t]);
                                    }
                                } else {
                                    assert(r[r.len() - 1] == ids@[t]);
                                }
                            }
                        }
                    } else {
                        proof {
                            let r = result@.map_values(|image: AlbumImage| image.photo_id);
                            assert forall|t: int|
                                0 <= t < i + 1 && !r.contains(#[trigger] ids@[t]) implies self.is_filter_active
                                && is_favorite.ensures(
                                (&self.source_images@[ids@[t]].parameter_history,),
                                false,
                            ) by {
                                if t == i {
                                    assert(self.source_images@[ids@[t]] == *source_image);
                                }
                            }
                        }
                    }
                },
                None => {},
            }
            i = i + 1;
        }
        proof {
            let r = result@.map_values(|image: AlbumImage| image.photo_id);
            assert forall|k: i32|
                #[trigger] self.source_images@.contains_key(k) && !r.contains(k) implies self.is_filter_active
                && is_favorite.ensures((&self.source_images@[k].parameter_history,), false) by {
                assert(ids@.contains(k));
                let t = choose|t: int| 0 <= t < ids@.len() && ids@[t] == k;
                assert(!r.contains(ids@[t]));
            }
        }
        result
    }

    /// The photos whose image is still to be loaded, by increasing id.
    pub fn get_paths_without_image(&self) -> (result: Vec<ImagePath>)
        ensures
            strictly_increasing(result@.map_values(|p: ImagePath| p.photo_id)),
            forall|i: int|
                0 <= i < result@.len() ==> {
                    let id = #[trigger] result@[i].photo_id;
                    &&& self.photos().contains_key(id)
                    &&& self.photos()[id].image is None
                    &&& result@[i].path == self.photos()[id].path
                },
            forall|k: i32|
                #[trigger] self.photos().contains_key(k) && self.photos()[k].image is None
                    ==> result@.map_values(|p: ImagePath| p.photo_id).contains(k),
            result@.map_values(|p: ImagePath| p.photo_id).to_set() == pending_ids(self.photos()),
    {
        let ids = sorted_keys(&self.source_images);
        let mut result: Vec<ImagePath> = Vec::new();
        let mut i: usize = 0;
        while i < ids.len()
            invariant
                lists_keys(ids@, self.source_images@),
                i <= ids@.len(),
                forall|j: int|
                    0 <= j < result@.len() ==> exists|t: int|
                        0 <= t < i && ids@[t] == (#[trigger] result@[j]).photo_id,
                strictly_increasing(result@.map_values(|p: ImagePath| p.photo_id)),
                forall|j: int|
                    0 <= j < result@.len() ==> {
                        let id = #[trigger] result@[j].photo_id;
                        &&& self.source_images@.contains_key(id)
                        &&& self.source_images@[id].image is None
                        &&& result@[j].path == self.source_images@[id].path
                    },
                forall|t: int|
                    0 <= t < i && #[trigger] self.source_images@[ids@[t]].image is None
                        ==> result@.map_values(|p: ImagePath| p.photo_id).contains(ids@[t]),
            decreases ids@.len() - i,
        {
            let id = ids[i];
            let ghost before = result@;
            match self.source_images.get(&id) {
                Some(source_image) => {
                    if source_image.image.is_none() {
                        let path = source_image.path.clone();
                        result.push(ImagePath { photo_id: id, path });
                        proof {
                            let r = result@.map_values(|p: ImagePath| p.photo_id);
                            assert forall|a: int, b: int| 0 <= a < b < r.len() implies r[a] < r[b] by {
                                if b == r.len() - 1 && a < b {
                                    assert(r[a] == before[a].photo_id);
                                    let t = choose|t: int| 0 <= t < i && ids@[t] == (#[trigger] before[a]).photo_id;
                                    assert(ids@[t] < ids@[i as int]);
                                } else {
                                    assert(r[a] == before.map_values(|p: ImagePath| p.photo_id)[a]);
                                    assert(r[b] == before.map_values(|p: ImagePath| p.photo_id)[b]);
                                }
                            }
                            assert forall|j: int| 0 <= j < result@.len() implies exists|t: int|
                                0 <= t < i + 1 && ids@[t] == (#[trigger] result@[j]).photo_id by {
                                if j < before.len() {
                                    assert(result@[j] == before[j]);
                                    let t = choose|t: int| 0 <= t < i && ids@[t] == (#[trigger] before[j]).photo_id;
                                    assert(ids@[t] == result@[j].photo_id);
                                } else {
                                    assert(ids@[i as int] == result@[j].photo_id);
                                }
                            }
                            assert forall|t: int|
                                0 <= t < i + 1 && #[trigger] self.source_images@[ids@[t]].image is None
                                implies r.contains(ids@[t]) by {
                                if t < i {
                                    let bm = before.map_values(|p: ImagePath| p.photo_id);
                                    assert(bm.contains(ids@[t]));
                                    let q = choose|q: int| 0 <= q < bm.len() && bm[q] == ids@[t];
                                    assert(r[q] == ids@[t]);
                                } else {
                                    assert(r[r.len() - 1] == ids@[t]);
                                }
                            }
                        }
                    }
                },
                None => {},
            }
            i = i + 1;
        }
        proof {
            let r = result@.map_values(|p: ImagePath| p.photo_id);
            assert forall|k: i32|
                #[trigger] self.source_images@.contains_key(k) && self.source_images@[k].image is None
                implies r.contains(k) by {
                assert(ids@.contains(k));
                let t = choose|t: int| 0 <= t < ids@.len() && ids@[t] == k;
                assert(self.source_images@[ids@[t]].image is None);
            }
            assert forall|j: int| 0 <= j < r.len() implies self.source_images@.contains_key(
                #[trigger] r[j],
            ) && self.source_images@[r[j]].image is None by {
                assert(r[j] == result@[j].photo_id);
            }
            lemma_listed_paths_are_pending(self.source_images@, r);
        }
        result
    }
}

} // verus!

verus! {

/// The ids of the photos whose image is still to be loaded.
pub open spec fn pending_ids<H, V>(photos: Map<i32, SourceImage<H, V>>) -> Set<i32> {
    Set::new(|k: i32| photos.contains_key(k) && photos[k].image is None)
}

/// `ids` lists, as a set, exactly the photos still to be loaded, when it
/// lists only such photos and each of them.
proof fn lemma_listed_paths_are_pending<H, V>(
    photos: Map<i32, SourceImage<H, V>>,
    ids: Seq<i32>,
)
    requires
        forall|i: int|
            0 <= i < ids.len() ==> photos.contains_key(#[trigger] ids[i]) && photos[ids[i]].image is None,
        forall|k: i32| #[trigger] photos.contains_key(k) && photos[k].image is None ==> ids.contains(k),
    ensures
        ids.to_set() == pending_ids(photos),
{
    assert forall|k: i32| ids.to_set().contains(k) <==> pending_ids(photos).contains(k) by {
        if ids.contains(k) {
            let i = choose|i: int| 0 <= i < ids.len() && ids[i] == k;
            assert(photos.contains_key(ids[i]));
        }
    }
    assert(ids.to_set() =~= pending_ids(photos));
}

/// Giving a photo its image, as `set_image` does, takes it off the photos
/// still to be loaded and leaves that list otherwise as it was: a loaded
/// photo is not loaded again.
pub proof fn lemma_loaded_photo_leaves_pending<H, V>(
    photos: Map<i32, SourceImage<H, V>>,
    photo_id: i32,
    loaded: SourceImage<H, V>,
)
    requires
        loaded.image is Some,
    ensures
        pending_ids(photos.insert(photo_id, loaded)) == pending_ids(photos).remove(photo_id),
{
    assert(pending_ids(photos.insert(photo_id, loaded)) =~= pending_ids(photos).remove(photo_id));
}

} // verus!

verus! {

/// `value` halved, rounding toward zero as integer division in Rust does.
pub open spec fn half_toward_zero(value: int) -> int {
    if value >= 0 {
        value / 2
    } else {
        -((-value) / 2)
    }
}

/// The centre that the crop of a freshly loaded `width` by `height` photo
/// starts at: the middle of the image, each side taken as an `i32` (which
/// wraps for sides beyond `i32::MAX`) and halved toward zero.
pub fn default_crop_center(width: usize, height: usize) -> (result: (i32, i32))
    ensures
        result.0 == half_toward_zero(width as i32 as int),
        result.1 == half_toward_zero(height as i32 as int),
{
    let w: i32 = width as i32;
    let h: i32 = height as i32;
    (w / 2, h / 2)
}

} // verus!

verus! {

/// Reloading the list of photos keeps exactly the photos of the new list;
/// a photo that was there before keeps the state it had, and a new one
/// comes as listed.
pub proof fn lemma_refresh_keeps_state<T>(old: Map<i32, T>, new: Map<i32, T>, id: i32)
    ensures
        refreshed(old, new).contains_key(id) <==> new.contains_key(id),
        new.contains_key(id) && old.contains_key(id) ==> refreshed(old, new)[id] == old[id],
        new.contains_key(id) && !old.contains_key(id) ==> refreshed(old, new)[id] == new[id],
{
}

/// The default crop centre halves each side: twice the centre is the side,
/// or one less for an odd side, for sides that fit an `i32`.
pub proof fn lemma_half_toward_zero(value: int)
    ensures
        value >= 0 ==> 2 * half_toward_zero(value) <= value < 2 * half_toward_zero(value) + 2,
        value < 0 ==> 2 * half_toward_zero(value) - 2 < value <= 2 * half_toward_zero(value),
{
}

} // verus!
