//! The stored data and its mathematical model.

use anchor_lang::prelude::Pubkey;
use vstd::prelude::*;

verus! {

/// `anchor_lang::prelude::Pubkey` is the 32-byte address of an account. The
/// library stores addresses and hands them on; it never looks inside one, so
/// the type is declared without its contents and nothing is claimed of it.
#[verifier::external_type_specification]
#[verifier::external_body]
pub struct ExPubkey(anchor_lang::prelude::Pubkey);

/// One image of the list.
#[derive(Debug)]
pub struct ItemStruct {
    /// The number the image was given when it was added, counted from 1.
    pub item_number: u64,
    /// The content identifier of the image. Any text is accepted.
    pub image_cid: String,
    /// The address of the user who added the image.
    pub user_address: Pubkey,
}

/// What an `ItemStruct` stands for.
#[verifier::ext_equal]
pub struct Item {
    pub number: nat,
    pub cid: Seq<char>,
    pub user: Pubkey,
}

impl View for ItemStruct {
    type V = Item;

    open spec fn view(&self) -> Item {
        Item { number: self.item_number as nat, cid: self.image_cid@, user: self.user_address }
    }
}

impl Clone for ItemStruct {
    /// The copy holds the same number, content identifier and user.
    fn clone(&self) -> (copy: Self)
        ensures
            copy == *self,
    {
        ItemStruct {
            item_number: self.item_number,
            image_cid: self.image_cid.clone(),
            user_address: self.user_address,
        }
    }
}

/// The account that holds the list.
#[derive(Debug)]
pub struct BaseAccount {
    /// The number of images in the list. It is counted up and down as images
    /// come and go, and never recomputed from the list.
    pub total_images: u64,
    /// The images, in the order in which they were added.
    pub image_list: Vec<ItemStruct>,
}

/// What a `BaseAccount` stands for: a counter and a sequence of items.
#[verifier::ext_equal]
pub struct ImageList {
    pub total: nat,
    pub items: Seq<Item>,
}

impl View for BaseAccount {
    type V = ImageList;

    open spec fn view(&self) -> ImageList {
        ImageList {
            total: self.total_images as nat,
            items: self.image_list@.map_values(|item: ItemStruct| item@),
        }
    }
}

impl Clone for BaseAccount {
    /// The copy holds the same counter and the same items in the same order.
    fn clone(&self) -> (copy: Self)
        ensures
            copy.total_images == self.total_images,
            copy.image_list@ == self.image_list@,
            copy@ == self@,
    {
        let mut image_list: Vec<ItemStruct> = Vec::new();
        let mut i: usize = 0;
        while i < self.image_list.len()
            invariant
                i <= self.image_list.len(),
                image_list@ == self.image_list@.subrange(0, i as int),
            decreases self.image_list.len() - i,
        {
            image_list.push(self.image_list[i].clone());
            i += 1;
        }
        assert(self.image_list@.subrange(0, i as int) == self.image_list@);
        BaseAccount { total_images: self.total_images, image_list }
    }
}

impl BaseAccount {
    /// The counter agrees with the list.
    pub open spec fn wf(&self) -> bool {
        self@.wf()
    }
}

impl ImageList {
    /// The list of a fresh account: nothing counted, nothing stored.
    pub open spec fn empty() -> ImageList {
        ImageList { total: 0, items: Seq::empty() }
    }

    /// The counter agrees with the list.
    pub open spec fn wf(self) -> bool {
        self.total == self.items.len()
    }

    /// Every item carries its place in the list, counted from 1. This holds
    /// as long as images are only added.
    pub open spec fn numbered_in_order(self) -> bool {
        forall|i: int| 0 <= i < self.items.len() ==> (#[trigger] self.items[i]).number == i + 1
    }

    /// Some item is stored under `cid`.
    pub open spec fn contains_cid(self, cid: Seq<char>) -> bool {
        exists|i: int| 0 <= i < self.items.len() && (#[trigger] self.items[i]).cid == cid
    }

    /// `i` is the place of the first item stored under `cid`.
    pub open spec fn is_first_with_cid(self, cid: Seq<char>, i: int) -> bool {
        &&& 0 <= i < self.items.len()
        &&& self.items[i].cid == cid
        &&& forall|j: int| 0 <= j < i ==> (#[trigger] self.items[j]).cid != cid
    }

    /// The place of the first item stored under `cid`, if there is one.
    pub open spec fn position(self, cid: Seq<char>) -> Option<int> {
        if self.contains_cid(cid) {
            Some(choose|i: int| self.is_first_with_cid(cid, i))
        } else {
            None
        }
    }

    /// The list after `user` has added an image under `cid`: the new item
    /// stands last and is numbered one above the counter, which goes up by one.
    pub open spec fn appended(self, cid: Seq<char>, user: Pubkey) -> ImageList {
        ImageList {
            total: self.total + 1,
            items: self.items.push(Item { number: self.total + 1, cid, user }),
        }
    }

    /// The list after the first item stored under `cid` was taken out, with
    /// the counter one lower; the list itself where no item is stored under
    /// `cid`.
    pub open spec fn removed(self, cid: Seq<char>) -> ImageList {
        match self.position(cid) {
            Some(i) => ImageList { total: (self.total - 1) as nat, items: self.items.remove(i) },
            None => self,
        }
    }

    /// The list after one image was added for each entry of `added`, in
    /// order. An entry is the content identifier and the user who adds it.
    pub open spec fn appended_all(self, added: Seq<(Seq<char>, Pubkey)>) -> ImageList
        decreases added.len(),
    {
        if added.len() == 0 {
            self
        } else {
            self.appended_all(added.drop_last()).appended(added.last().0, added.last().1)
        }
    }

    /// The list after it was emptied.
    pub open spec fn cleared(self) -> ImageList {
        ImageList::empty()
    }
}

/// Where an item is stored under `cid`, one of them is the first, and
/// `position` names it; no other place is the first.
pub proof fn lemma_position(list: ImageList, cid: Seq<char>)
    ensures
        list.contains_cid(cid) <==> list.position(cid) is Some,
        list.position(cid) matches Some(i) ==> list.is_first_with_cid(cid, i),
        forall|i: int| list.is_first_with_cid(cid, i) ==> list.position(cid) == Some(i),
{
    if list.contains_cid(cid) {
        let k = choose|k: int| 0 <= k < list.items.len() && (#[trigger] list.items[k]).cid == cid;
        lemma_first_exists(list, cid, k);
        let first = choose|i: int| list.is_first_with_cid(cid, i);
        assert forall|i: int| list.is_first_with_cid(cid, i) implies i == first by {
            if i < first {
                assert(list.items[i].cid != cid);
            } else if first < i {
                assert(list.items[first].cid != cid);
            }
        }
    } else {
        assert forall|i: int| !list.is_first_with_cid(cid, i) by {
            if list.is_first_with_cid(cid, i) {
                assert(list.items[i].cid == cid);
            }
        }
    }
}

/// An item stored under `cid` at place `k` has a first such item at or before it.
proof fn lemma_first_exists(list: ImageList, cid: Seq<char>, k: int)
    requires
        0 <= k < list.items.len(),
        list.items[k].cid == cid,
    ensures
        exists|i: int| list.is_first_with_cid(cid, i),
    decreases k,
{
    if exists|j: int| 0 <= j < k && (#[trigger] list.items[j]).cid == cid {
        let j = choose|j: int| 0 <= j < k && (#[trigger] list.items[j]).cid == cid;
        lemma_first_exists(list, cid, j);
    } else {
        assert(list.is_first_with_cid(cid, k));
    }
}

} // verus!
