//! The engine's store and its state transitions.
//!
//! All persistent state — rounds, users, sessions, the catalog, the
//! marketplace, the leaderboard, the admin registry, and the NFT
//! custody ledger — lives in one explicit [`Pallet`] value.  Each
//! externally callable transition takes the caller's [`Origin`] plus
//! plain arguments, and either commits its whole effect or returns an
//! [`Error`] leaving the state untouched.

use vstd::hash_map::HashMapWithView;
use vstd::prelude::*;

use crate::leaderboard::Leaderboard;
use crate::nfts::{NftItem, NftLedger};
use crate::types::{Error, Event, GameData, ListingInfo, NftColor, OfferInfo, Origin, PropertyInfoData};
use crate::user::User;

verus! {

broadcast use vstd::std_specs::hash::group_hash_axioms;

/// The maximum number of properties in the catalog.
pub const MAX_PROPERTY: usize = 100;

/// The maximum number of games that may expire in one block.
pub const MAX_ONGOING_GAMES: usize = 100;

/// The maximum number of admin accounts.
pub const MAX_ADMINS: usize = 10;

/// Blocks a player waits between token requests.
pub const REQUEST_LIMIT: u64 = 100800;

/// The marketplace's own sovereign escrow account.  No private key
/// exists for it, so it never signs a call.
pub const MARKETPLACE_ACCOUNT: u64 = u64::MAX;

/// `a + b` clamped to `u64::MAX`.
pub open spec fn sat_add64(a: u64, b: u64) -> u64 {
    if a + b > u64::MAX {
        u64::MAX
    } else {
        (a + b) as u64
    }
}

/// The whole persistent state of the engine.
pub struct Pallet {
    /// The block the chain is currently at.
    pub block_number: u64,
    /// The id of the current round.
    pub current_round: u32,
    /// Whether a round is currently ongoing.
    pub round_active: bool,
    /// Round number to the winner of that round.
    pub round_champion: HashMapWithView<u64, u64>,
    /// Collection id to the next item id minted in it.
    pub next_color_id: HashMapWithView<u64, u32>,
    /// Collection id to its colour.
    pub collection_color: HashMapWithView<u64, NftColor>,
    /// The id the next listing will get.
    pub next_listing_id: u32,
    /// The id the next offer will get.
    pub next_offer_id: u32,
    /// The id the next game session will get.
    pub game_id: u32,
    /// The bounded top-N ranking by points.
    pub leaderboard: Leaderboard,
    /// Account id to its user record.
    pub users: HashMapWithView<u64, User>,
    /// Game id to its live session.
    pub game_info: HashMapWithView<u64, GameData>,
    /// Listing id to its listing.
    pub listings: HashMapWithView<u64, ListingInfo>,
    /// Offer id to its offer.
    pub offers: HashMapWithView<u64, OfferInfo>,
    /// Block number to the ids of the sessions expiring there.
    pub games_expiring: HashMapWithView<u64, Vec<u32>>,
    /// The property catalog.
    pub test_properties: Vec<PropertyInfoData>,
    /// Property id to its true price: the answer key.
    pub test_prices: HashMapWithView<u64, u32>,
    /// Accounts permitted to register players.
    pub admins: Vec<u64>,
    /// The NFT ownership-and-custody ledger.
    pub nfts: NftLedger,
    /// Account id to its fungible balance.
    pub balances: HashMapWithView<u64, u64>,
    /// Everything observable the engine has emitted, in order.
    pub events: Vec<Event>,
}

impl Pallet {
    /// Whether `a` is a registered admin.
    pub open spec fn spec_is_admin(self, a: u64) -> bool {
        self.admins@.contains(a)
    }

    /// A listing's or offer's item sits in escrow: owned by the
    /// marketplace account and transfer-locked.
    pub open spec fn escrow_held(self, collection_id: u32, item_id: u32) -> bool {
        self.nfts.spec_item(collection_id, item_id) == Some(
            NftItem { owner: MARKETPLACE_ACCOUNT, locked: true },
        )
    }

    /// Well-formedness: every invariant the transitions preserve.
    pub open spec fn wf(self) -> bool {
        // Bounded, duplicate-free registries.
        &&& self.leaderboard.wf()
        &&& self.admins@.len() <= MAX_ADMINS
        &&& (forall|i: int, j: int|
            0 <= i < j < self.admins@.len() ==> #[trigger] self.admins@[i] != #[trigger] self.admins@[j])
        &&& self.test_properties@.len() <= MAX_PROPERTY
        &&& (forall|b: u64| #[trigger]
            self.games_expiring@.contains_key(b) ==> self.games_expiring@[b]@.len()
                <= MAX_ONGOING_GAMES)
        // Ids below the counters: an id is never handed out twice.
        &&& (forall|k: u64| #[trigger] self.game_info@.contains_key(k) ==> k < self.game_id)
        &&& (forall|k: u64| #[trigger] self.listings@.contains_key(k) ==> k < self.next_listing_id)
        &&& (forall|k: u64| #[trigger] self.offers@.contains_key(k) ==> k < self.next_offer_id)
        // Sessions belong to registered players.
        &&& (forall|k: u64| #[trigger]
            self.game_info@.contains_key(k) ==> self.users@.contains_key(
                self.game_info@[k].player,
            ))
        // Listed and offered items sit locked in escrow, and their
        // beneficial owners are registered ordinary accounts.
        &&& (forall|k: u64| #[trigger]
            self.listings@.contains_key(k) ==> self.escrow_held(
                self.listings@[k].collection_id,
                self.listings@[k].item_id,
            ) && self.users@.contains_key(self.listings@[k].owner) && self.listings@[k].owner
                != MARKETPLACE_ACCOUNT)
        &&& (forall|k: u64| #[trigger]
            self.offers@.contains_key(k) ==> self.escrow_held(
                self.offers@[k].collection_id,
                self.offers@[k].item_id,
            ) && self.users@.contains_key(self.offers@[k].owner) && self.offers@[k].owner
                != MARKETPLACE_ACCOUNT)
        // Distinct listings and offers escrow distinct items.
        &&& (forall|k1: u64, k2: u64|
            #![trigger self.listings@.contains_key(k1), self.listings@.contains_key(k2)]
            self.listings@.contains_key(k1) && self.listings@.contains_key(k2) && k1 != k2 ==> !(
            self.listings@[k1].collection_id == self.listings@[k2].collection_id
                && self.listings@[k1].item_id == self.listings@[k2].item_id))
        &&& (forall|k1: u64, k2: u64|
            #![trigger self.offers@.contains_key(k1), self.offers@.contains_key(k2)]
            self.offers@.contains_key(k1) && self.offers@.contains_key(k2) && k1 != k2 ==> !(
            self.offers@[k1].collection_id == self.offers@[k2].collection_id && self.offers@[k1].item_id
                == self.offers@[k2].item_id))
        &&& (forall|kl: u64, ko: u64|
            #![trigger self.listings@.contains_key(kl), self.offers@.contains_key(ko)]
            self.listings@.contains_key(kl) && self.offers@.contains_key(ko) ==> !(
            self.listings@[kl].collection_id == self.offers@[ko].collection_id
                && self.listings@[kl].item_id == self.offers@[ko].item_id))
        // Minted items stay below the per-collection item counter, so
        // the next mint in a collection is always fresh.
        &&& (forall|c: u32, i: u32|
            #[trigger] self.nfts.spec_item(c, i) is Some ==> self.next_color_id@.contains_key(
                c as u64,
            ) && i < self.next_color_id@[c as u64])
        // Every minted item belongs to escrow or a registered user, in
        // a collection with a known colour.
        &&& (forall|c: u32, i: u32|
            #[trigger] self.nfts.spec_item(c, i) is Some ==> (self.nfts.spec_item(c, i)->Some_0.owner
                == MARKETPLACE_ACCOUNT || self.users@.contains_key(
                self.nfts.spec_item(c, i)->Some_0.owner,
            )) && self.collection_color@.contains_key(c as u64))
    }

    /// A fresh engine: block zero, no round, everything empty.
    pub fn new() -> (r: Pallet)
        ensures
            r.wf(),
            r.block_number == 0,
            r.current_round == 0,
            !r.round_active,
            r.round_champion@ == Map::<u64, u64>::empty(),
            r.next_color_id@ == Map::<u64, u32>::empty(),
            r.collection_color@ == Map::<u64, NftColor>::empty(),
            r.next_listing_id == 0,
            r.next_offer_id == 0,
            r.game_id == 0,
            r.leaderboard@ == Seq::<(u64, u32)>::empty(),
            r.users@ == Map::<u64, User>::empty(),
            r.game_info@ == Map::<u64, GameData>::empty(),
            r.listings@ == Map::<u64, ListingInfo>::empty(),
            r.offers@ == Map::<u64, OfferInfo>::empty(),
            r.games_expiring@ == Map::<u64, Vec<u32>>::empty(),
            r.test_properties@.len() == 0,
            r.test_prices@ == Map::<u64, u32>::empty(),
            r.admins@.len() == 0,
            forall|c: u32, i: u32| #[trigger] r.nfts.spec_item(c, i) is None,
            r.nfts.spec_next_collection_id() == 0,
            r.balances@ == Map::<u64, u64>::empty(),
            r.events@.len() == 0,
    {
        Pallet {
            block_number: 0,
            current_round: 0,
            round_active: false,
            round_champion: HashMapWithView::new(),
            next_color_id: HashMapWithView::new(),
            collection_color: HashMapWithView::new(),
            next_listing_id: 0,
            next_offer_id: 0,
            game_id: 0,
            leaderboard: Leaderboard::new(),
            users: HashMapWithView::new(),
            game_info: HashMapWithView::new(),
            listings: HashMapWithView::new(),
            offers: HashMapWithView::new(),
            games_expiring: HashMapWithView::new(),
            test_properties: Vec::new(),
            test_prices: HashMapWithView::new(),
            admins: Vec::new(),
            nfts: NftLedger::new(),
            balances: HashMapWithView::new(),
            events: Vec::new(),
        }
    }

    /// The marketplace's sovereign escrow account.
    pub fn account_id(&self) -> (r: u64)
        ensures
            r == MARKETPLACE_ACCOUNT,
    {
        MARKETPLACE_ACCOUNT
    }

    /// Moves the chain to block `n`.
    pub fn set_block_number(&mut self, n: u64)
        requires
            old(self).wf(),
        ensures
            final(self).wf(),
            *final(self) == (Pallet { block_number: n, ..*old(self) }),
    {
        self.block_number = n;
    }

    /// Whether `a` is a registered admin.
    pub fn is_admin(&self, a: u64) -> (r: bool)
        ensures
            r == self.spec_is_admin(a),
    {
        let mut i: usize = 0;
        while i < self.admins.len()
            invariant
                i <= self.admins@.len(),
                forall|j: int| 0 <= j < i ==> self.admins@[j] != a,
            decreases self.admins@.len() - i,
        {
            if self.admins[i] == a {
                return true;
            }
            i = i + 1;
        }
        false
    }

    /// The error `register_user` answers, if any: the call must be
    /// signed by an admin, and the player must be new.
    pub open spec fn spec_register_user_err(self, origin: Origin, player: u64) -> Option<Error> {
        match origin {
            Origin::Root => Some(Error::BadOrigin),
            Origin::Signed(signer) => {
                if !self.spec_is_admin(signer) {
                    Some(Error::NoPermission)
                } else if self.users@.contains_key(player) {
                    Some(Error::PlayerAlreadyRegistered)
                } else {
                    None
                }
            },
        }
    }

    /// Registers `player`: a fresh record with 50 points, a funded
    /// balance of 10 tokens, and the first token request allowed once
    /// the waiting period has passed.
    ///
    /// The origin must be signed by an admin.
    pub fn register_user(&mut self, origin: Origin, player: u64) -> (r: Result<(), Error>)
        requires
            old(self).wf(),
        ensures
            final(self).wf(),
            match r {
                Ok(()) => {
                    &&& old(self).spec_register_user_err(origin, player) is None
                    &&& final(self).users@ == old(self).users@.insert(
                        player,
                        User::fresh(sat_add64(old(self).block_number, REQUEST_LIMIT)),
                    )
                    &&& final(self).balances@ == old(self).balances@.insert(player, 10u64)
                    &&& final(self).events@ == old(self).events@.push(
                        Event::NewPlayerRegistered { player },
                    )
                    &&& *final(self) == (Pallet {
                        users: final(self).users,
                        balances: final(self).balances,
                        events: final(self).events,
                        ..*old(self)
                    })
                },
                Err(e) => old(self).spec_register_user_err(origin, player) == Some(e) && *final(self) == *old(self),
            },
    {
        let signer = match origin {
            Origin::Signed(s) => s,
            Origin::Root => {
                return Err(Error::BadOrigin);
            },
        };
        if !self.is_admin(signer) {
            return Err(Error::NoPermission);
        }
        if self.users.contains_key(&player) {
            return Err(Error::PlayerAlreadyRegistered);
        }
        let next_request = saturating_add_u64(self.block_number, REQUEST_LIMIT);
        let user = User {
            points: 50,
            wins: 0,
            losses: 0,
            practise_rounds: 0,
            last_played_round: 0,
            next_token_request: next_request,
            nfts: crate::colors::CollectedColors::default(),
        };
        self.users.insert(player, user);
        self.balances.insert(player, 10);
        self.events.push(Event::NewPlayerRegistered { player });
        Ok(())
    }

    /// The error `give_points` answers, if any: root only, a
    /// registered receiver, and no point overflow.
    pub open spec fn spec_give_points_err(self, origin: Origin, receiver: u64) -> Option<Error> {
        if origin != Origin::Root {
            Some(Error::BadOrigin)
        } else if !self.users@.contains_key(receiver) {
            Some(Error::UserNotRegistered)
        } else if self.users@[receiver].points + 100 > u32::MAX {
            Some(Error::ArithmeticOverflow)
        } else {
            None
        }
    }

    /// Grants `receiver` 100 points.  The origin must be root.
    pub fn give_points(&mut self, origin: Origin, receiver: u64) -> (r: Result<(), Error>)
        requires
            old(self).wf(),
        ensures
            final(self).wf(),
            match r {
                Ok(()) => {
                    &&& old(self).spec_give_points_err(origin, receiver) is None
                    &&& final(self).users@ == old(self).users@.insert(
                        receiver,
                        User {
                            points: (old(self).users@[receiver].points + 100) as u32,
                            ..old(self).users@[receiver]
                        },
                    )
                    &&& final(self).events@ == old(self).events@.push(
                        Event::PointsReceived { receiver, amount: 100 },
                    )
                    &&& *final(self) == (Pallet {
                        users: final(self).users,
                        events: final(self).events,
                        ..*old(self)
                    })
                },
                Err(e) => old(self).spec_give_points_err(origin, receiver) == Some(e) && *final(self) == *old(self),
            },
    {
        if origin != Origin::Root {
            return Err(Error::BadOrigin);
        }
        let mut user = match self.users.get(&receiver) {
            Some(u) => *u,
            None => {
                return Err(Error::UserNotRegistered);
            },
        };
        user.points = match user.points.checked_add(100) {
            Some(p) => p,
            None => {
                return Err(Error::ArithmeticOverflow);
            },
        };
        self.users.insert(receiver, user);
        self.events.push(Event::PointsReceived { receiver, amount: 100 });
        Ok(())
    }

    /// The error `add_to_admins` answers, if any: root only, a new
    /// admin, and a free slot.
    pub open spec fn spec_add_to_admins_err(self, origin: Origin, new_admin: u64) -> Option<Error> {
        if origin != Origin::Root {
            Some(Error::BadOrigin)
        } else if self.spec_is_admin(new_admin) {
            Some(Error::AccountAlreadyAdmin)
        } else if self.admins@.len() >= MAX_ADMINS {
            Some(Error::TooManyAdmins)
        } else {
            None
        }
    }

    /// Adds `new_admin` to the accounts permitted to register players.
    /// The origin must be root.
    pub fn add_to_admins(&mut self, origin: Origin, new_admin: u64) -> (r: Result<(), Error>)
        requires
            old(self).wf(),
        ensures
            final(self).wf(),
            match r {
                Ok(()) => {
                    &&& old(self).spec_add_to_admins_err(origin, new_admin) is None
                    &&& final(self).admins@ == old(self).admins@.push(new_admin)
                    &&& final(self).spec_is_admin(new_admin)
                    &&& (forall|a: u64|
                        a != new_admin ==> final(self).spec_is_admin(a) == old(self).spec_is_admin(
                            a,
                        ))
                    &&& final(self).events@ == old(self).events@.push(
                        Event::NewAdminAdded { new_admin },
                    )
                    &&& *final(self) == (Pallet {
                        admins: final(self).admins,
                        events: final(self).events,
                        ..*old(self)
                    })
                },
                Err(e) => old(self).spec_add_to_admins_err(origin, new_admin) == Some(e) && *final(self) == *old(self),
            },
    {
        if origin != Origin::Root {
            return Err(Error::BadOrigin);
        }
        if self.is_admin(new_admin) {
            return Err(Error::AccountAlreadyAdmin);
        }
        if self.admins.len() >= MAX_ADMINS {
            return Err(Error::TooManyAdmins);
        }
        self.admins.push(new_admin);
        proof {
            assert(self.admins@.last() == new_admin);
            assert(self.spec_is_admin(new_admin));
            assert forall|a: u64| a != new_admin implies self.spec_is_admin(a) == old(
                self,
            ).spec_is_admin(a) by {
                if old(self).spec_is_admin(a) {
                    let j = choose|j: int|
                        0 <= j < old(self).admins@.len() && old(self).admins@[j] == a;
                    assert(self.admins@[j] == a);
                }
                if self.spec_is_admin(a) {
                    let j = choose|j: int| 0 <= j < self.admins@.len() && self.admins@[j] == a;
                    assert(j < old(self).admins@.len());
                    assert(old(self).admins@[j] == a);
                }
            }
        }
        self.events.push(Event::NewAdminAdded { new_admin });
        Ok(())
    }

    /// The error `remove_from_admins` answers, if any: root only and an
    /// existing admin.
    pub open spec fn spec_remove_from_admins_err(self, origin: Origin, admin: u64) -> Option<
        Error,
    > {
        if origin != Origin::Root {
            Some(Error::BadOrigin)
        } else if !self.spec_is_admin(admin) {
            Some(Error::NotAdmin)
        } else {
            None
        }
    }

    /// Removes `admin` from the admin registry.  The origin must be
    /// root.
    pub fn remove_from_admins(&mut self, origin: Origin, admin: u64) -> (r: Result<(), Error>)
        requires
            old(self).wf(),
        ensures
            final(self).wf(),
            match r {
                Ok(()) => {
                    &&& old(self).spec_remove_from_admins_err(origin, admin) is None
                    &&& final(self).admins@.len() == old(self).admins@.len() - 1
                    &&& !final(self).spec_is_admin(admin)
                    &&& (forall|a: u64|
                        a != admin ==> final(self).spec_is_admin(a) == old(self).spec_is_admin(a))
                    &&& final(self).events@ == old(self).events@.push(Event::AdminRemoved { admin })
                    &&& *final(self) == (Pallet {
                        admins: final(self).admins,
                        events: final(self).events,
                        ..*old(self)
                    })
                },
                Err(e) => old(self).spec_remove_from_admins_err(origin, admin) == Some(e) && *final(self) == *old(self),
            },
    {
        if origin != Origin::Root {
            return Err(Error::BadOrigin);
        }
        let ghost s0 = self.admins@;
        let mut i: usize = 0;
        #[verifier::loop_isolation(false)]
        while i < self.admins.len()
            invariant
                *self == *old(self),
                self.admins@ == s0,
                i <= s0.len(),
                forall|j: int| 0 <= j < i ==> s0[j] != admin,
            decreases s0.len() - i,
        {
            if self.admins[i] == admin {
                self.admins.remove(i);
                proof {
                    let s1 = self.admins@;
                    assert(s1 == s0.remove(i as int));
                    assert forall|k: int, l: int| 0 <= k < l < s1.len() implies s1[k] != s1[l] by {
                        let k0 = if k < i {
                            k
                        } else {
                            k + 1
                        };
                        let l0 = if l < i {
                            l
                        } else {
                            l + 1
                        };
                        assert(s1[k] == s0[k0] && s1[l] == s0[l0]);
                    }
                    assert forall|k: int| 0 <= k < s1.len() implies s1[k] != admin by {
                        let k0 = if k < i {
                            k
                        } else {
                            k + 1
                        };
                        assert(s1[k] == s0[k0]);
                    }
                    assert(!s1.contains(admin));
                    assert forall|a: u64| a != admin implies (s1.contains(a) == s0.contains(a)) by {
                        if s0.contains(a) {
                            let k = choose|k: int| 0 <= k < s0.len() && s0[k] == a;
                            assert(k != i);
                            if k < i {
                                assert(s1[k] == a);
                            } else {
                                assert(s1[k - 1] == a);
                            }
                            assert(s1.contains(a));
                        }
                        if s1.contains(a) {
                            let k = choose|k: int| 0 <= k < s1.len() && s1[k] == a;
                            let k0 = if k < i {
                                k
                            } else {
                                k + 1
                            };
                            assert(s0[k0] == a);
                            assert(s0.contains(a));
                        }
                    }
                }
                proof {
                    assert(s0[i as int] == admin);
                    assert(s0.contains(admin));
                }
                self.events.push(Event::AdminRemoved { admin });
                return Ok(());
            }
            i = i + 1;
        }
        proof {
            assert(!s0.contains(admin));
        }
        Err(Error::NotAdmin)
    }

    /// The error `request_token` answers, if any: a signed call from a
    /// registered user whose waiting period has passed.
    pub open spec fn spec_request_token_err(self, origin: Origin) -> Option<Error> {
        match origin {
            Origin::Root => Some(Error::BadOrigin),
            Origin::Signed(signer) => {
                if !self.users@.contains_key(signer) {
                    Some(Error::UserNotRegistered)
                } else if self.users@[signer].next_token_request >= self.block_number {
                    Some(Error::CantRequestToken)
                } else {
                    None
                }
            },
        }
    }

    /// Refills the caller's balance to 10 tokens and restarts the
    /// waiting period.  The origin must be a signed, registered user
    /// past its waiting period.
    pub fn request_token(&mut self, origin: Origin) -> (r: Result<(), Error>)
        requires
            old(self).wf(),
        ensures
            final(self).wf(),
            match r {
                Ok(()) => {
                    &&& old(self).spec_request_token_err(origin) is None
                    &&& origin matches Origin::Signed(signer)
                    &&& final(self).users@ == old(self).users@.insert(
                        origin->Signed_0,
                        User {
                            next_token_request: sat_add64(old(self).block_number, REQUEST_LIMIT),
                            ..old(self).users@[origin->Signed_0]
                        },
                    )
                    &&& final(self).balances@ == old(self).balances@.insert(
                        origin->Signed_0,
                        10u64,
                    )
                    &&& final(self).events@ == old(self).events@.push(
                        Event::TokenReceived { player: origin->Signed_0 },
                    )
                    &&& *final(self) == (Pallet {
                        users: final(self).users,
                        balances: final(self).balances,
                        events: final(self).events,
                        ..*old(self)
                    })
                },
                Err(e) => old(self).spec_request_token_err(origin) == Some(e) && *final(self)
                    == *old(self),
            },
    {
        let signer = match origin {
            Origin::Signed(s) => s,
            Origin::Root => {
                return Err(Error::BadOrigin);
            },
        };
        let mut user = match self.users.get(&signer) {
            Some(u) => *u,
            None => {
                return Err(Error::UserNotRegistered);
            },
        };
        if user.next_token_request >= self.block_number {
            return Err(Error::CantRequestToken);
        }
        user.next_token_request = saturating_add_u64(self.block_number, REQUEST_LIMIT);
        self.users.insert(signer, user);
        self.balances.insert(signer, 10);
        self.events.push(Event::TokenReceived { player: signer });
        Ok(())
    }

    /// The error `add_property` answers, if any: root only and a free
    /// catalog slot.
    pub open spec fn spec_add_property_err(self, origin: Origin) -> Option<Error> {
        if origin != Origin::Root {
            Some(Error::BadOrigin)
        } else if self.test_properties@.len() >= MAX_PROPERTY {
            Some(Error::TooManyTest)
        } else {
            None
        }
    }

    /// Appends `property` to the catalog and records `price` as the
    /// answer key for its id.  The origin must be root.
    pub fn add_property(&mut self, origin: Origin, property: PropertyInfoData, price: u32) -> (r:
        Result<(), Error>)
        requires
            old(self).wf(),
        ensures
            final(self).wf(),
            match r {
                Ok(()) => {
                    &&& old(self).spec_add_property_err(origin) is None
                    &&& final(self).test_properties@.len() == old(self).test_properties@.len() + 1
                    &&& final(self).test_properties@.last() == property
                    &&& (forall|j: int|
                        0 <= j < old(self).test_properties@.len() ==> final(self).test_properties@[j] == old(self).test_properties@[j])
                    &&& final(self).test_prices@ == old(self).test_prices@.insert(
                        property.id as u64,
                        price,
                    )
                    &&& *final(self) == (Pallet {
                        test_properties: final(self).test_properties,
                        test_prices: final(self).test_prices,
                        ..*old(self)
                    })
                },
                Err(e) => old(self).spec_add_property_err(origin) == Some(e) && *final(self)
                    == *old(self),
            },
    {
        if origin != Origin::Root {
            return Err(Error::BadOrigin);
        }
        if self.test_properties.len() >= MAX_PROPERTY {
            return Err(Error::TooManyTest);
        }
        let id = property.id;
        self.test_properties.push(property);
        self.test_prices.insert(id as u64, price);
        Ok(())
    }

    /// Keeps the catalog entries whose id differs from `id`.
    pub open spec fn not_property_id(id: u32) -> spec_fn(PropertyInfoData) -> bool {
        |p: PropertyInfoData| p.id != id
    }

    /// The error `remove_property` answers, if any: root only.
    pub open spec fn spec_remove_property_err(self, origin: Origin) -> Option<Error> {
        if origin != Origin::Root {
            Some(Error::BadOrigin)
        } else {
            None
        }
    }

    /// Removes every catalog entry with id `id` and drops its answer
    /// key.  The origin must be root.
    pub fn remove_property(&mut self, origin: Origin, id: u32) -> (r: Result<(), Error>)
        requires
            old(self).wf(),
        ensures
            final(self).wf(),
            match r {
                Ok(()) => {
                    &&& old(self).spec_remove_property_err(origin) is None
                    &&& final(self).test_properties@ == old(self).test_properties@.filter(
                        Pallet::not_property_id(id),
                    )
                    &&& final(self).test_prices@ == old(self).test_prices@.remove(id as u64)
                    &&& *final(self) == (Pallet {
                        test_properties: final(self).test_properties,
                        test_prices: final(self).test_prices,
                        ..*old(self)
                    })
                },
                Err(e) => old(self).spec_remove_property_err(origin) == Some(e) && *final(self)
                    == *old(self),
            },
    {
        if origin != Origin::Root {
            return Err(Error::BadOrigin);
        }
        let ghost s0 = self.test_properties@;
        let ghost pred = Pallet::not_property_id(id);
        let mut kept: Vec<PropertyInfoData> = Vec::new();
        let ghost mut i: int = 0;
        #[verifier::loop_isolation(false)]
        while self.test_properties.len() > 0
            invariant
                *self == (Pallet { test_properties: self.test_properties, ..*old(self) }),
                0 <= i <= s0.len(),
                self.test_properties@ == s0.skip(i),
                kept@ == s0.take(i).filter(pred),
                kept@.len() <= i,
            decreases self.test_properties@.len(),
        {
            let p = self.test_properties.remove(0);
            proof {
                assert(p == s0.skip(i)[0]);
                assert(p == s0[i]);
                assert(s0.skip(i).remove(0) =~= s0.skip(i + 1));
            }
            if p.id != id {
                kept.push(p);
            }
            proof {
                reveal_with_fuel(Seq::filter, 2);
                let t = s0.take(i + 1);
                assert(t.drop_last() =~= s0.take(i));
                assert(t.last() == s0[i]);
                assert(t.len() == i + 1);
                assert(t.filter(pred) == if pred(t.last()) {
                    t.drop_last().filter(pred).push(t.last())
                } else {
                    t.drop_last().filter(pred)
                });
                assert(pred(s0[i]) == (s0[i].id != id));
                assert(kept@ == s0.take(i + 1).filter(pred));
                i = i + 1;
            }
        }
        proof {
            assert(s0.take(s0.len() as int) =~= s0);
        }
        self.test_properties = kept;
        self.test_prices.remove(&(id as u64));
        Ok(())
    }
}

/// `a + b` clamped to `u64::MAX`.
fn saturating_add_u64(a: u64, b: u64) -> (r: u64)
    ensures
        r == sat_add64(a, b),
{
    match a.checked_add(b) {
        Some(r) => r,
        None => u64::MAX,
    }
}

} // verus!
