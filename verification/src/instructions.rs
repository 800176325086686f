//! The four operations on the account.

use crate::account::{lemma_position, BaseAccount, ImageList, ItemStruct};
use anchor_lang::prelude::Pubkey;
use vstd::prelude::*;

verus! {

/// What `start_stuff_off` works on.
pub struct StartStuffOff {
    /// The account to prepare.
    pub base_account: BaseAccount,
    /// The address of the user who pays for the account.
    pub user: Pubkey,
}

/// What `add_image` works on.
pub struct AddImage {
    /// The account that holds the list.
    pub base_account: BaseAccount,
    /// The address of the user who adds the image.
    pub user: Pubkey,
}

/// What `remove_image` works on.
pub struct RemoveImage {
    /// The account that holds the list.
    pub base_account: BaseAccount,
}

/// What `reset_images` works on.
pub struct ResetImages {
    /// The account that holds the list.
    pub base_account: BaseAccount,
}

/// Prepares the account: whatever it held, it then counts no image and
/// stores none.
pub fn start_stuff_off(ctx: &mut StartStuffOff)
    ensures
        final(ctx).base_account@ == ImageList::empty(),
        final(ctx).base_account.wf(),
        final(ctx).user == old(ctx).user,
{
    ctx.base_account.total_images = 0;
    ctx.base_account.image_list = Vec::new();
}

/// Adds an image under `image_cid` for the user of `ctx` and returns the
/// content identifier that was stored.
///
/// The new item stands last in the list, numbered one above the counter, and
/// the counter goes up by one. The items that were there stay as they were.
/// Where the counter agreed with the list and every item carried the number
/// of its place, the same holds afterwards. The counter must have room for
/// one more.
pub fn add_image(ctx: &mut AddImage, image_cid: String) -> (stored: String)
    requires
        old(ctx).base_account.total_images < u64::MAX,
    ensures
        final(ctx).base_account@ == old(ctx).base_account@.appended(image_cid@, old(ctx).user),
        old(ctx).base_account.wf() ==> final(ctx).base_account.wf(),
        old(ctx).base_account.wf() && old(ctx).base_account@.numbered_in_order()
            ==> final(ctx).base_account@.numbered_in_order(),
        final(ctx).user == old(ctx).user,
        stored@ == image_cid@,
{
    let item = ItemStruct {
        item_number: ctx.base_account.total_images + 1,
        image_cid: image_cid.clone(),
        user_address: ctx.user,
    };
    ctx.base_account.image_list.push(item);
    ctx.base_account.total_images += 1;
    image_cid
}

/// Removes the first image stored under `image_cid` and returns
/// `image_cid`.
///
/// Where an item is stored under `image_cid`, the first such item leaves the
/// list, the others keep their order and their numbers, and the counter goes
/// down by one. Where none is, nothing changes. A counter of zero beside an
/// item to remove cannot be counted down, so such an account is not accepted.
pub fn remove_image(ctx: &mut RemoveImage, image_cid: String) -> (given: String)
    requires
        old(ctx).base_account@.contains_cid(image_cid@) ==> old(ctx).base_account.total_images > 0,
    ensures
        final(ctx).base_account@ == old(ctx).base_account@.removed(image_cid@),
        old(ctx).base_account.wf() ==> final(ctx).base_account.wf(),
        given@ == image_cid@,
{
    let index = position(&ctx.base_account, &image_cid);
    match index {
        Some(i) => {
            proof {
                lemma_position(ctx.base_account@, image_cid@);
            }
            ctx.base_account.image_list.remove(i);
            ctx.base_account.total_images -= 1;
            assert(ctx.base_account@.items =~= old(ctx).base_account@.items.remove(i as int));
        },
        None => {},
    }
    image_cid
}

/// Empties the list: whatever the account held, it then counts no image and
/// stores none.
pub fn reset_images(ctx: &mut ResetImages)
    ensures
        final(ctx).base_account@ == old(ctx).base_account@.cleared(),
        final(ctx).base_account@ == ImageList::empty(),
        final(ctx).base_account.wf(),
{
    ctx.base_account.image_list = Vec::new();
    ctx.base_account.total_images = 0;
}

/// The place of the first image of `account` stored under `image_cid`.
fn position(account: &BaseAccount, image_cid: &String) -> (index: Option<usize>)
    ensures
        match index {
            Some(i) => account@.position(image_cid@) == Some(i as int),
            None => account@.position(image_cid@) is None,
        },
{
    let mut i: usize = 0;
    while i < account.image_list.len()
        invariant
            i <= account.image_list.len(),
            forall|j: int| 0 <= j < i ==> (#[trigger] account@.items[j]).cid != image_cid@,
        decreases account.image_list.len() - i,
    {
        if account.image_list[i].image_cid == *image_cid {
            proof {
                assert(account@.is_first_with_cid(image_cid@, i as int));
                lemma_position(account@, image_cid@);
            }
            return Some(i);
        }
        i += 1;
    }
    None
}

} // verus!
