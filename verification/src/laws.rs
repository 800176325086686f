//! What holds of the operations taken together.
//!
//! Each law is stated over the model of the account, the same that the
//! contracts of the operations use, so it holds of every run of them.

use crate::account::{lemma_position, ImageList, Item};
use anchor_lang::prelude::Pubkey;
use vstd::prelude::*;

verus! {

/// Adding images one after another puts them at the end of the list in the
/// order in which they were added, leaves the items before them as they
/// were, and numbers the new items upwards from one above the counter, which
/// ends higher by the number of images added.
pub proof fn lemma_appended_all(list: ImageList, added: Seq<(Seq<char>, Pubkey)>)
    ensures
        ({
            let after = list.appended_all(added);
            let before = list.items.len();
            &&& after.total == list.total + added.len()
            &&& after.items.len() == before + added.len()
            &&& forall|i: int| 0 <= i < before ==> #[trigger] after.items[i] == list.items[i]
            &&& forall|i: int|
                before <= i < before + added.len() ==> #[trigger] after.items[i] == (Item {
                    number: (list.total + (i - before) + 1) as nat,
                    cid: added[i - before].0,
                    user: added[i - before].1,
                })
            &&& list.wf() ==> after.wf()
            &&& list.wf() && list.numbered_in_order() ==> after.numbered_in_order()
        }),
    decreases added.len(),
{
    if added.len() > 0 {
        lemma_appended_all(list, added.drop_last());
    }
}

/// After any number of images were added to a fresh account, the counter and
/// the length of the list both equal that number, and the item at place `i`
/// holds the `i`-th content identifier and user under the number `i + 1`.
pub proof fn lemma_appended_to_empty(added: Seq<(Seq<char>, Pubkey)>)
    ensures
        ({
            let after = ImageList::empty().appended_all(added);
            &&& after.total == added.len()
            &&& after.items.len() == added.len()
            &&& forall|i: int|
                0 <= i < added.len() ==> #[trigger] after.items[i] == (Item {
                    number: (i + 1) as nat,
                    cid: added[i].0,
                    user: added[i].1,
                })
            &&& after.wf()
            &&& after.numbered_in_order()
        }),
{
    lemma_appended_all(ImageList::empty(), added);
}

/// Removing by a content identifier under which exactly one item is stored,
/// at place `i`, shortens the list by one and lowers the counter by one. No
/// item is stored under that identifier afterwards, and every other item is
/// still there, unchanged and in the same order: those before `i` at their
/// place, those after `i` one place earlier.
pub proof fn lemma_removed_only_match(list: ImageList, cid: Seq<char>, i: int)
    requires
        list.wf(),
        0 <= i < list.items.len(),
        list.items[i].cid == cid,
        forall|j: int| 0 <= j < list.items.len() && j != i ==> (#[trigger] list.items[j]).cid != cid,
    ensures
        ({
            let after = list.removed(cid);
            &&& after.items.len() == list.items.len() - 1
            &&& after.total == list.total - 1
            &&& after.wf()
            &&& !after.contains_cid(cid)
            &&& forall|j: int| 0 <= j < i ==> #[trigger] after.items[j] == list.items[j]
            &&& forall|j: int|
                i <= j < after.items.len() ==> #[trigger] after.items[j] == list.items[j + 1]
        }),
{
    assert(list.is_first_with_cid(cid, i));
    lemma_position(list, cid);
}

/// Removing by a content identifier under which no item is stored changes
/// nothing.
pub proof fn lemma_removed_no_match(list: ImageList, cid: Seq<char>)
    requires
        !list.contains_cid(cid),
    ensures
        list.removed(cid) == list,
{
}

/// Removing by a content identifier takes out the first item stored under it
/// and no other: the items before it stay at their place, the items after it
/// move one place forward, whatever their content identifiers are.
pub proof fn lemma_removed_first(list: ImageList, cid: Seq<char>, i: int)
    requires
        list.is_first_with_cid(cid, i),
    ensures
        list.removed(cid).items == list.items.remove(i),
        list.removed(cid).total == (list.total - 1) as nat,
        list.wf() ==> list.removed(cid).wf(),
{
    lemma_position(list, cid);
}

/// Adding an image and then removing by its content identifier restores the
/// counter and the length of the list. Where no item was stored under that
/// identifier before, it restores the whole list.
pub proof fn lemma_appended_then_removed(list: ImageList, cid: Seq<char>, user: Pubkey)
    ensures
        list.appended(cid, user).removed(cid).total == list.total,
        list.appended(cid, user).removed(cid).items.len() == list.items.len(),
        !list.contains_cid(cid) ==> list.appended(cid, user).removed(cid) == list,
{
    let longer = list.appended(cid, user);
    let last = list.items.len() as int;
    assert(longer.items[last].cid == cid);
    lemma_position(longer, cid);
    if !list.contains_cid(cid) {
        assert(longer.is_first_with_cid(cid, last));
        assert(longer.items.remove(last) =~= list.items);
    }
}

/// Emptying the list twice leaves what emptying it once leaves: the empty
/// list with a counter of zero.
pub proof fn lemma_cleared_twice(list: ImageList)
    ensures
        list.cleared().cleared() == list.cleared(),
        list.cleared() == ImageList::empty(),
        list.cleared().wf(),
{
}

} // verus!
