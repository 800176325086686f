//! A shared list of image content identifiers, kept in one account.
//!
//! The account holds a counter and the ordered list of the images that were
//! added to it. Four operations work on it: one prepares a fresh account, one
//! appends an image under the next number, one removes the first image stored
//! under a content identifier, and one empties the list.
//!
//! Every operation is stated over the mathematical model of the account, a
//! natural number and a sequence of items, and proved against it.

pub mod account;
pub mod instructions;
pub mod laws;

pub use account::{BaseAccount, ImageList, Item, ItemStruct};
pub use instructions::{
    add_image, remove_image, reset_images, start_stuff_off, AddImage, RemoveImage, ResetImages,
    StartStuffOff,
};
