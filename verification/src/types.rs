//! Core data model of the engine: identifiers, enums, records, and the
//! error taxonomy shared by every state transition.

use vstd::prelude::*;

verus! {

/// Difficulty level of a game session.
///
/// The difficulty gates eligibility (points and practice requirements),
/// selects the reward table, and fixes the expiry horizon of a session.
#[derive(Clone, Copy, Debug, PartialEq, Eq, Structural)]
pub enum DifficultyLevel {
    Practice,
    Player,
    Pro,
}

/// Decision taken by a listing's owner on an open offer.
#[derive(Clone, Copy, Debug, PartialEq, Eq, Structural)]
pub enum Offer {
    Accept,
    Reject,
}

/// The eight collectable NFT colours, one per collection of a round.
#[derive(Clone, Copy, Debug, PartialEq, Eq, Structural)]
pub enum NftColor {
    Xorange,
    Xpink,
    Xblue,
    Xcyan,
    Xcoral,
    Xpurple,
    Xleafgreen,
    Xgreen,
}

impl NftColor {
    /// The colour assigned to index `index`, in declaration order;
    /// `None` for indices past the eighth colour.
    pub fn from_index(index: usize) -> (r: Option<Self>)
        ensures
            r == Self::spec_from_index(index as int),
    {
        match index {
            0 => Some(NftColor::Xorange),
            1 => Some(NftColor::Xpink),
            2 => Some(NftColor::Xblue),
            3 => Some(NftColor::Xcyan),
            4 => Some(NftColor::Xcoral),
            5 => Some(NftColor::Xpurple),
            6 => Some(NftColor::Xleafgreen),
            7 => Some(NftColor::Xgreen),
            _ => None,
        }
    }

    /// Mathematical counterpart of [`NftColor::from_index`].
    pub open spec fn spec_from_index(index: int) -> Option<NftColor> {
        if index == 0 {
            Some(NftColor::Xorange)
        } else if index == 1 {
            Some(NftColor::Xpink)
        } else if index == 2 {
            Some(NftColor::Xblue)
        } else if index == 3 {
            Some(NftColor::Xcyan)
        } else if index == 4 {
            Some(NftColor::Xcoral)
        } else if index == 5 {
            Some(NftColor::Xpurple)
        } else if index == 6 {
            Some(NftColor::Xleafgreen)
        } else if index == 7 {
            Some(NftColor::Xgreen)
        } else {
            None
        }
    }
}

/// Caller identity of a state transition: either the privileged game
/// origin (root) or an ordinary signed account.
#[derive(Clone, Copy, Debug, PartialEq, Eq, Structural)]
pub enum Origin {
    Root,
    Signed(u64),
}

/// Every way a state transition can be rejected.  A rejected call
/// leaves the whole engine state exactly as it was.
#[derive(Clone, Copy, Debug, PartialEq, Eq, Structural)]
pub enum Error {
    /// The caller is neither privileged nor entitled to sign this call.
    BadOrigin,
    /// A player has not enough points to play.
    NotEnoughPoints,
    ConversionError,
    ArithmeticOverflow,
    ArithmeticUnderflow,
    MultiplyError,
    DivisionError,
    /// There are too many games expiring in a single block.
    TooManyGames,
    /// The caller is not the player of this game session.
    NoThePlayer,
    /// This is not an active game.
    NoActiveGame,
    NoPermission,
    /// This listing does not exist.
    ListingDoesNotExist,
    /// This offer does not exist.
    OfferDoesNotExist,
    /// There are too many properties in the catalog.
    TooManyTest,
    /// No property price could be found.
    NoProperty,
    /// The user has not yet been registered.
    UserNotRegistered,
    /// The user has already played all practice rounds.
    TooManyPractise,
    /// The user has not yet made a practice round.
    NoPractise,
    InvalidIndex,
    /// The colour for this collection is not known.
    CollectionUnknown,
    /// There is no active round at the moment.
    NoActiveRound,
    /// The player is already registered.
    PlayerAlreadyRegistered,
    /// The account is already an admin.
    AccountAlreadyAdmin,
    /// This account is not an admin.
    NotAdmin,
    /// There are already enough admins.
    TooManyAdmins,
    /// The user has to wait before requesting tokens again.
    CantRequestToken,
}

/// Holder for the engine's sovereign account id.
#[derive(Clone, Copy, Debug, PartialEq, Eq, Structural)]
pub struct PalletIdStorage {
    pub pallet_id: u64,
}

/// A property record of the catalog: the ground truth a guess is
/// checked against lives in a parallel id-to-price mapping.
#[derive(Debug, PartialEq, Eq)]
pub struct PropertyInfoData {
    pub id: u32,
    pub bedrooms: u32,
    pub bathrooms: u32,
    pub summary: Vec<u8>,
    pub property_sub_type: Vec<u8>,
    pub first_visible_date: Vec<u8>,
    pub display_size: Vec<u8>,
    pub display_address: Vec<u8>,
    pub property_images1: Vec<u8>,
}

/// Mathematical content of a property record.
pub struct PropertyView {
    pub id: u32,
    pub bedrooms: u32,
    pub bathrooms: u32,
    pub summary: Seq<u8>,
    pub property_sub_type: Seq<u8>,
    pub first_visible_date: Seq<u8>,
    pub display_size: Seq<u8>,
    pub display_address: Seq<u8>,
    pub property_images1: Seq<u8>,
}

impl View for PropertyInfoData {
    type V = PropertyView;

    open spec fn view(&self) -> PropertyView {
        PropertyView {
            id: self.id,
            bedrooms: self.bedrooms,
            bathrooms: self.bathrooms,
            summary: self.summary@,
            property_sub_type: self.property_sub_type@,
            first_visible_date: self.first_visible_date@,
            display_size: self.display_size@,
            display_address: self.display_address@,
            property_images1: self.property_images1@,
        }
    }
}

impl Clone for PropertyInfoData {
    /// A clone has the same content as the original.
    fn clone(&self) -> (r: Self)
        ensures
            r@ == self@,
    {
        PropertyInfoData {
            id: self.id,
            bedrooms: self.bedrooms,
            bathrooms: self.bathrooms,
            summary: clone_bytes(&self.summary),
            property_sub_type: clone_bytes(&self.property_sub_type),
            first_visible_date: clone_bytes(&self.first_visible_date),
            display_size: clone_bytes(&self.display_size),
            display_address: clone_bytes(&self.display_address),
            property_images1: clone_bytes(&self.property_images1),
        }
    }
}

/// Copies a byte vector element by element.
fn clone_bytes(v: &Vec<u8>) -> (r: Vec<u8>)
    ensures
        r@ == v@,
{
    let mut r: Vec<u8> = Vec::new();
    let mut i: usize = 0;
    while i < v.len()
        invariant
            i <= v.len(),
            r@ == v@.subrange(0, i as int),
        decreases v.len() - i,
    {
        r.push(v[i]);
        proof {
            assert(r@ =~= v@.subrange(0, i + 1));
        }
        i = i + 1;
    }
    proof {
        assert(r@ =~= v@);
    }
    r
}

/// A live game session: one player, one difficulty, one property
/// snapshot, keyed by an auto-incrementing game id.
#[derive(Debug, PartialEq, Eq)]
pub struct GameData {
    pub difficulty: DifficultyLevel,
    pub player: u64,
    pub property: PropertyInfoData,
}

/// Mathematical content of a game session.
pub struct GameView {
    pub difficulty: DifficultyLevel,
    pub player: u64,
    pub property: PropertyView,
}

impl View for GameData {
    type V = GameView;

    open spec fn view(&self) -> GameView {
        GameView { difficulty: self.difficulty, player: self.player, property: self.property@ }
    }
}

impl Clone for GameData {
    /// A clone has the same content as the original.
    fn clone(&self) -> (r: Self)
        ensures
            r@ == self@,
    {
        GameData {
            difficulty: self.difficulty,
            player: self.player,
            property: self.property.clone(),
        }
    }
}

/// A listed NFT held in marketplace escrow, keyed by listing id.
#[derive(Clone, Copy, Debug, PartialEq, Eq, Structural)]
pub struct ListingInfo {
    pub owner: u64,
    pub collection_id: u32,
    pub item_id: u32,
}

/// An NFT offered against a listing and held in escrow, keyed by
/// offer id.
#[derive(Clone, Copy, Debug, PartialEq, Eq, Structural)]
pub struct OfferInfo {
    pub owner: u64,
    pub listing_id: u32,
    pub collection_id: u32,
    pub item_id: u32,
}

/// Observable event emitted by a successful state transition.
#[derive(Clone, Copy, Debug, PartialEq, Eq, Structural)]
pub enum Event {
    /// A user has received points.
    PointsReceived { receiver: u64, amount: u32 },
    /// A game has started.
    GameStarted { player: u64, game_id: u32 },
    /// An answer has been submitted.
    AnswerSubmitted { player: u64, game_id: u32 },
    /// An NFT has been listed.
    NftListed { owner: u64, collection_id: u32, item_id: u32 },
    /// An NFT has been delisted.
    NftDelisted { owner: u64, collection_id: u32, item_id: u32 },
    /// An offer has been made.
    OfferMade { owner: u64, listing_id: u32, collection_id: u32, item_id: u32 },
    /// An offer has been withdrawn.
    OfferWithdrawn { owner: u64, offer_id: u32 },
    /// An offer has been handled.
    OfferHandled { offer_id: u32, offer: Offer },
    /// A new player has been registered.
    NewPlayerRegistered { player: u64 },
    /// A new admin has been added.
    NewAdminAdded { new_admin: u64 },
    /// An admin has been removed.
    AdminRemoved { admin: u64 },
    /// The user received tokens.
    TokenReceived { player: u64 },
}

} // verus!
