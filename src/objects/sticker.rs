//! Stickers.

use vstd::prelude::*;

verus! {

/// A sticker that can be sent in messages.
#[derive(Clone, Copy, Debug, PartialEq, Eq, Structural, Hash)]
pub struct Sticker {}

/// The smallest description of a sticker.
#[derive(Clone, Copy, Debug, PartialEq, Eq, Structural, Hash)]
pub struct StickerItem {}

/// A pack of standard stickers.
#[derive(Clone, Copy, Debug, PartialEq, Eq, Structural, Hash)]
pub struct StickerPack {}

} // verus!
