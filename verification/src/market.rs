//! The marketplace: listing, delisting, offers, and offer handling,
//! layered on the NFT custody ledger.  Every custody move is the
//! symmetric triple unlock–transfer–relock, so an item at rest is
//! always transfer-locked.

use vstd::prelude::*;

use crate::leaderboard::lb_updated;
use crate::nfts::NftItem;
use crate::pallet::{Pallet, MARKETPLACE_ACCOUNT};
use crate::types::{Error, Event, ListingInfo, NftColor, Offer, OfferInfo, Origin};
use crate::user::{gain_points_for_count, loss_points_for_count, User};

verus! {

broadcast use vstd::std_specs::hash::group_hash_axioms;

impl Pallet {
    /// The error `list_nft` answers, if any: a signed caller owning
    /// the item, and a listing counter that can still grow.
    pub open spec fn spec_list_nft_err(self, origin: Origin, collection_id: u32, item_id: u32)
        -> Option<Error> {
        match origin {
            Origin::Root => Some(Error::BadOrigin),
            Origin::Signed(s) => {
                if self.nfts.spec_owner(collection_id, item_id) != Some(s) {
                    Some(Error::NoPermission)
                } else if self.next_listing_id == u32::MAX {
                    Some(Error::ArithmeticOverflow)
                } else {
                    None
                }
            },
        }
    }

    /// Lists the caller's NFT: custody moves to the marketplace's
    /// escrow account — unlocked, transferred, re-locked — and a
    /// listing is recorded under a fresh id.
    ///
    /// The escrow account itself never signs: it has no key.
    pub fn list_nft(&mut self, origin: Origin, collection_id: u32, item_id: u32) -> (r: Result<
        (),
        Error,
    >)
        requires
            old(self).wf(),
            origin != Origin::Signed(MARKETPLACE_ACCOUNT),
        ensures
            final(self).wf(),
            match r {
                Ok(()) => {
                    let s = origin->Signed_0;
                    &&& old(self).spec_list_nft_err(origin, collection_id, item_id) is None
                    &&& final(self).listings@ == old(self).listings@.insert(
                        old(self).next_listing_id as u64,
                        ListingInfo { owner: s, collection_id, item_id },
                    )
                    &&& final(self).next_listing_id == old(self).next_listing_id + 1
                    &&& final(self).nfts.spec_item(collection_id, item_id) == Some(
                        NftItem { owner: MARKETPLACE_ACCOUNT, locked: true },
                    )
                    &&& (forall|c: u32, i: u32|
                        !(c == collection_id && i == item_id) ==> #[trigger] final(self).nfts.spec_item(c, i) == old(self).nfts.spec_item(c, i))
                    &&& final(self).nfts.spec_next_collection_id() == old(self).nfts.spec_next_collection_id()
                    &&& final(self).events@ == old(self).events@.push(
                        Event::NftListed { owner: s, collection_id, item_id },
                    )
                    &&& *final(self) == (Pallet {
                        listings: final(self).listings,
                        next_listing_id: final(self).next_listing_id,
                        nfts: final(self).nfts,
                        events: final(self).events,
                        ..*old(self)
                    })
                },
                Err(e) => old(self).spec_list_nft_err(origin, collection_id, item_id) == Some(e)
                    && *final(self) == *old(self),
            },
    {
        let signer = match origin {
            Origin::Signed(s) => s,
            Origin::Root => {
                return Err(Error::BadOrigin);
            },
        };
        match self.nfts.owner(collection_id, item_id) {
            Some(o) => {
                if o != signer {
                    return Err(Error::NoPermission);
                }
            },
            None => {
                return Err(Error::NoPermission);
            },
        }
        if self.next_listing_id == u32::MAX {
            return Err(Error::ArithmeticOverflow);
        }
        self.nfts.unlock(collection_id, item_id);
        self.nfts.force_transfer(collection_id, item_id, MARKETPLACE_ACCOUNT);
        self.nfts.lock(collection_id, item_id);
        let listing = ListingInfo { owner: signer, collection_id, item_id };
        self.listings.insert(self.next_listing_id as u64, listing);
        self.events.push(Event::NftListed { owner: signer, collection_id, item_id });
        self.next_listing_id = self.next_listing_id + 1;
        Ok(())
    }

    /// The error `delist_nft` answers, if any: a signed caller owning
    /// an existing listing.
    pub open spec fn spec_delist_nft_err(self, origin: Origin, listing_id: u32) -> Option<Error> {
        match origin {
            Origin::Root => Some(Error::BadOrigin),
            Origin::Signed(s) => {
                if !self.listings@.contains_key(listing_id as u64) {
                    Some(Error::ListingDoesNotExist)
                } else if self.listings@[listing_id as u64].owner != s {
                    Some(Error::NoPermission)
                } else {
                    None
                }
            },
        }
    }

    /// Takes the caller's listing down: the item leaves escrow back to
    /// its owner, re-locked, and the listing is deleted.
    pub fn delist_nft(&mut self, origin: Origin, listing_id: u32) -> (r: Result<(), Error>)
        requires
            old(self).wf(),
        ensures
            final(self).wf(),
            match r {
                Ok(()) => {
                    let s = origin->Signed_0;
                    let listing = old(self).listings@[listing_id as u64];
                    &&& old(self).spec_delist_nft_err(origin, listing_id) is None
                    &&& final(self).listings@ == old(self).listings@.remove(listing_id as u64)
                    &&& final(self).nfts.spec_item(listing.collection_id, listing.item_id) == Some(
                        NftItem { owner: s, locked: true },
                    )
                    &&& (forall|c: u32, i: u32|
                        !(c == listing.collection_id && i == listing.item_id) ==> #[trigger] final(self).nfts.spec_item(c, i) == old(self).nfts.spec_item(c, i))
                    &&& final(self).nfts.spec_next_collection_id() == old(self).nfts.spec_next_collection_id()
                    &&& final(self).events@ == old(self).events@.push(
                        Event::NftDelisted {
                            owner: s,
                            collection_id: listing.collection_id,
                            item_id: listing.item_id,
                        },
                    )
                    &&& *final(self) == (Pallet {
                        listings: final(self).listings,
                        nfts: final(self).nfts,
                        events: final(self).events,
                        ..*old(self)
                    })
                },
                Err(e) => old(self).spec_delist_nft_err(origin, listing_id) == Some(e) && *final(self) == *old(self),
            },
    {
        let signer = match origin {
            Origin::Signed(s) => s,
            Origin::Root => {
                return Err(Error::BadOrigin);
            },
        };
        let listing = match self.listings.get(&(listing_id as u64)) {
            Some(l) => *l,
            None => {
                return Err(Error::ListingDoesNotExist);
            },
        };
        if listing.owner != signer {
            return Err(Error::NoPermission);
        }
        self.nfts.unlock(listing.collection_id, listing.item_id);
        self.nfts.force_transfer(listing.collection_id, listing.item_id, signer);
        self.nfts.lock(listing.collection_id, listing.item_id);
        self.listings.remove(&(listing_id as u64));
        self.events.push(
            Event::NftDelisted {
                owner: signer,
                collection_id: listing.collection_id,
                item_id: listing.item_id,
            },
        );
        Ok(())
    }

    /// The error `make_offer` answers, if any: a signed caller, an
    /// existing listing, an offered item the caller owns, and an offer
    /// counter that can still grow.
    pub open spec fn spec_make_offer_err(
        self,
        origin: Origin,
        listing_id: u32,
        collection_id: u32,
        item_id: u32,
    ) -> Option<Error> {
        match origin {
            Origin::Root => Some(Error::BadOrigin),
            Origin::Signed(s) => {
                if !self.listings@.contains_key(listing_id as u64) {
                    Some(Error::ListingDoesNotExist)
                } else if self.nfts.spec_owner(collection_id, item_id) != Some(s) {
                    Some(Error::NoPermission)
                } else if self.next_offer_id == u32::MAX {
                    Some(Error::ArithmeticOverflow)
                } else {
                    None
                }
            },
        }
    }

    /// Offers the caller's NFT against a listing: the offered item
    /// moves into escrow, re-locked, and an offer is recorded under a
    /// fresh id.
    ///
    /// The escrow account itself never signs: it has no key.
    pub fn make_offer(
        &mut self,
        origin: Origin,
        listing_id: u32,
        collection_id: u32,
        item_id: u32,
    ) -> (r: Result<(), Error>)
        requires
            old(self).wf(),
            origin != Origin::Signed(MARKETPLACE_ACCOUNT),
        ensures
            final(self).wf(),
            match r {
                Ok(()) => {
                    let s = origin->Signed_0;
                    &&& old(self).spec_make_offer_err(origin, listing_id, collection_id, item_id)
                        is None
                    &&& final(self).offers@ == old(self).offers@.insert(
                        old(self).next_offer_id as u64,
                        OfferInfo { owner: s, listing_id, collection_id, item_id },
                    )
                    &&& final(self).next_offer_id == old(self).next_offer_id + 1
                    &&& final(self).nfts.spec_item(collection_id, item_id) == Some(
                        NftItem { owner: MARKETPLACE_ACCOUNT, locked: true },
                    )
                    &&& (forall|c: u32, i: u32|
                        !(c == collection_id && i == item_id) ==> #[trigger] final(self).nfts.spec_item(c, i) == old(self).nfts.spec_item(c, i))
                    &&& final(self).nfts.spec_next_collection_id() == old(self).nfts.spec_next_collection_id()
                    &&& final(self).events@ == old(self).events@.push(
                        Event::OfferMade { owner: s, listing_id, collection_id, item_id },
                    )
                    &&& *final(self) == (Pallet {
                        offers: final(self).offers,
                        next_offer_id: final(self).next_offer_id,
                        nfts: final(self).nfts,
                        events: final(self).events,
                        ..*old(self)
                    })
                },
                Err(e) => old(self).spec_make_offer_err(origin, listing_id, collection_id, item_id)
                    == Some(e) && *final(self) == *old(self),
            },
    {
        let signer = match origin {
            Origin::Signed(s) => s,
            Origin::Root => {
                return Err(Error::BadOrigin);
            },
        };
        if !self.listings.contains_key(&(listing_id as u64)) {
            return Err(Error::ListingDoesNotExist);
        }
        match self.nfts.owner(collection_id, item_id) {
            Some(o) => {
                if o != signer {
                    return Err(Error::NoPermission);
                }
            },
            None => {
                return Err(Error::NoPermission);
            },
        }
        if self.next_offer_id == u32::MAX {
            return Err(Error::ArithmeticOverflow);
        }
        self.nfts.unlock(collection_id, item_id);
        self.nfts.force_transfer(collection_id, item_id, MARKETPLACE_ACCOUNT);
        self.nfts.lock(collection_id, item_id);
        let offer = OfferInfo { owner: signer, listing_id, collection_id, item_id };
        self.offers.insert(self.next_offer_id as u64, offer);
        self.events.push(Event::OfferMade { owner: signer, listing_id, collection_id, item_id });
        self.next_offer_id = self.next_offer_id + 1;
        Ok(())
    }

    /// The error `withdraw_offer` answers, if any: a signed caller
    /// owning an existing offer.
    pub open spec fn spec_withdraw_offer_err(self, origin: Origin, offer_id: u32) -> Option<
        Error,
    > {
        match origin {
            Origin::Root => Some(Error::BadOrigin),
            Origin::Signed(s) => {
                if !self.offers@.contains_key(offer_id as u64) {
                    Some(Error::OfferDoesNotExist)
                } else if self.offers@[offer_id as u64].owner != s {
                    Some(Error::NoPermission)
                } else {
                    None
                }
            },
        }
    }

    /// Withdraws the caller's offer: the offered item leaves escrow
    /// back to the offerer, re-locked, and the offer is deleted.
    pub fn withdraw_offer(&mut self, origin: Origin, offer_id: u32) -> (r: Result<(), Error>)
        requires
            old(self).wf(),
        ensures
            final(self).wf(),
            match r {
                Ok(()) => {
                    let s = origin->Signed_0;
                    let offer = old(self).offers@[offer_id as u64];
                    &&& old(self).spec_withdraw_offer_err(origin, offer_id) is None
                    &&& final(self).offers@ == old(self).offers@.remove(offer_id as u64)
                    &&& final(self).nfts.spec_item(offer.collection_id, offer.item_id) == Some(
                        NftItem { owner: s, locked: true },
                    )
                    &&& (forall|c: u32, i: u32|
                        !(c == offer.collection_id && i == offer.item_id) ==> #[trigger] final(self).nfts.spec_item(c, i) == old(self).nfts.spec_item(c, i))
                    &&& final(self).nfts.spec_next_collection_id() == old(self).nfts.spec_next_collection_id()
                    &&& final(self).events@ == old(self).events@.push(
                        Event::OfferWithdrawn { owner: s, offer_id },
                    )
                    &&& *final(self) == (Pallet {
                        offers: final(self).offers,
                        nfts: final(self).nfts,
                        events: final(self).events,
                        ..*old(self)
                    })
                },
                Err(e) => old(self).spec_withdraw_offer_err(origin, offer_id) == Some(e) && *final(self) == *old(self),
            },
    {
        let signer = match origin {
            Origin::Signed(s) => s,
            Origin::Root => {
                return Err(Error::BadOrigin);
            },
        };
        let offer = match self.offers.get(&(offer_id as u64)) {
            Some(o) => *o,
            None => {
                return Err(Error::OfferDoesNotExist);
            },
        };
        if offer.owner != signer {
            return Err(Error::NoPermission);
        }
        self.nfts.unlock(offer.collection_id, offer.item_id);
        self.nfts.force_transfer(offer.collection_id, offer.item_id, signer);
        self.nfts.lock(offer.collection_id, offer.item_id);
        self.offers.remove(&(offer_id as u64));
        self.events.push(Event::OfferWithdrawn { owner: signer, offer_id });
        Ok(())
    }

    /// One party's bookkeeping for an accepted trade: gain one copy of
    /// the incoming colour with its tier reward, then lose one copy of
    /// the outgoing colour with its tier charge — both read from the
    /// freshly mutated counters, and every arithmetic step checked.
    pub open spec fn spec_color_swap(u: User, gain: NftColor, lose: NftColor) -> Result<
        User,
        Error,
    > {
        if u.nfts.count_of(gain) == u32::MAX {
            Err(Error::ArithmeticOverflow)
        } else {
            let n1 = (u.nfts.count_of(gain) + 1) as u32;
            let g = gain_points_for_count(n1);
            if u.points + g > u32::MAX {
                Err(Error::ArithmeticOverflow)
            } else {
                let nfts1 = u.nfts.with_count(gain, n1);
                let p1 = (u.points + g) as u32;
                if nfts1.count_of(lose) == 0 {
                    Err(Error::ArithmeticUnderflow)
                } else {
                    let n2 = (nfts1.count_of(lose) - 1) as u32;
                    let l = loss_points_for_count(n2);
                    if p1 < l {
                        Err(Error::ArithmeticUnderflow)
                    } else {
                        Ok(
                            User {
                                nfts: nfts1.with_count(lose, n2),
                                points: (p1 - l) as u32,
                                ..u
                            },
                        )
                    }
                }
            }
        }
    }

    /// Applies one party's colour-and-point bookkeeping for an
    /// accepted trade.
    fn apply_color_swap(u: User, gain: NftColor, lose: NftColor) -> (r: Result<User, Error>)
        ensures
            r == Pallet::spec_color_swap(u, gain, lose),
    {
        let mut v = u;
        match v.add_nft_color(gain) {
            Ok(()) => {},
            Err(e) => {
                return Err(e);
            },
        }
        let g = v.calculate_points(gain);
        v.points = match v.points.checked_add(g) {
            Some(p) => p,
            None => {
                return Err(Error::ArithmeticOverflow);
            },
        };
        match v.sub_nft_color(lose) {
            Ok(()) => {},
            Err(e) => {
                return Err(e);
            },
        }
        let l = v.subtracting_calculate_points(lose);
        v.points = match v.points.checked_sub(l) {
            Some(p) => p,
            None => {
                return Err(Error::ArithmeticUnderflow);
            },
        };
        Ok(v)
    }

    /// The error `handle_offer` answers, if any: a signed caller
    /// owning the listing behind an existing offer, and — on Accept —
    /// both parties' bookkeeping going through.
    pub open spec fn spec_handle_offer_err(self, origin: Origin, offer_id: u32, offer: Offer)
        -> Option<Error> {
        match origin {
            Origin::Root => Some(Error::BadOrigin),
            Origin::Signed(s) => {
                if !self.offers@.contains_key(offer_id as u64) {
                    Some(Error::OfferDoesNotExist)
                } else {
                    let details = self.offers@[offer_id as u64];
                    if !self.listings@.contains_key(details.listing_id as u64) {
                        Some(Error::ListingDoesNotExist)
                    } else {
                        let listing = self.listings@[details.listing_id as u64];
                        if listing.owner != s {
                            Some(Error::NoPermission)
                        } else if offer is Reject {
                            None
                        } else {
                            let color_l = self.collection_color@[listing.collection_id as u64];
                            let color_o = self.collection_color@[details.collection_id as u64];
                            match Pallet::spec_color_swap(self.users@[details.owner], color_l, color_o) {
                                Err(e) => Some(e),
                                Ok(u1) => {
                                    let base = if s == details.owner {
                                        u1
                                    } else {
                                        self.users@[s]
                                    };
                                    match Pallet::spec_color_swap(base, color_o, color_l) {
                                        Err(e) => Some(e),
                                        Ok(_) => None,
                                    }
                                },
                            }
                        }
                    }
                }
            },
        }
    }

    /// How an accepted offer relates the state before (`pre`) and
    /// after (`post`): the two items have exactly swapped beneficial
    /// owners and sit re-locked with them, listing and offer are both
    /// gone, both parties' colour and point bookkeeping is swapped,
    /// both are re-ranked in order, and the round ends for whoever
    /// completed four of all colours — the later completion naming the
    /// champion.
    pub open spec fn accepted_offer_post(pre: Pallet, post: Pallet, s: u64, offer_id: u32) -> bool {
        let details = pre.offers@[offer_id as u64];
        let listing = pre.listings@[details.listing_id as u64];
        let color_l = pre.collection_color@[listing.collection_id as u64];
        let color_o = pre.collection_color@[details.collection_id as u64];
        let u1 = Pallet::spec_color_swap(pre.users@[details.owner], color_l, color_o)->Ok_0;
        let base = if s == details.owner {
            u1
        } else {
            pre.users@[s]
        };
        let u2 = Pallet::spec_color_swap(base, color_o, color_l)->Ok_0;
        let rc1 = if u1.nfts.spec_has_four_of_all_colors() {
            pre.round_champion@.insert(pre.current_round as u64, details.owner)
        } else {
            pre.round_champion@
        };
        &&& post.listings@ == pre.listings@.remove(details.listing_id as u64)
        &&& post.offers@ == pre.offers@.remove(offer_id as u64)
        &&& post.users@ == pre.users@.insert(details.owner, u1).insert(s, u2)
        &&& post.nfts.spec_item(listing.collection_id, listing.item_id) == Some(
            NftItem { owner: details.owner, locked: true },
        )
        &&& post.nfts.spec_item(details.collection_id, details.item_id) == Some(
            NftItem { owner: s, locked: true },
        )
        &&& (forall|c: u32, i: u32|
            !(c == listing.collection_id && i == listing.item_id) && !(c == details.collection_id
                && i == details.item_id) ==> #[trigger] post.nfts.spec_item(c, i)
                == pre.nfts.spec_item(c, i))
        &&& post.round_active == (if u1.nfts.spec_has_four_of_all_colors()
            || u2.nfts.spec_has_four_of_all_colors() {
            false
        } else {
            pre.round_active
        })
        &&& post.round_champion@ == (if u2.nfts.spec_has_four_of_all_colors() {
            rc1.insert(pre.current_round as u64, s)
        } else {
            rc1
        })
        &&& post == (Pallet {
            users: post.users,
            leaderboard: post.leaderboard,
            listings: post.listings,
            offers: post.offers,
            nfts: post.nfts,
            round_active: post.round_active,
            round_champion: post.round_champion,
            events: post.events,
            ..pre
        })
    }

    /// The leaderboard after an accepted offer: the offerer is
    /// re-ranked on its new points first, then the listing's owner.
    pub open spec fn accepted_offer_leaderboard(
        pre: Pallet,
        post: Pallet,
        s: u64,
        offer_id: u32,
    ) -> bool {
        let details = pre.offers@[offer_id as u64];
        let listing = pre.listings@[details.listing_id as u64];
        let color_l = pre.collection_color@[listing.collection_id as u64];
        let color_o = pre.collection_color@[details.collection_id as u64];
        let u1 = Pallet::spec_color_swap(pre.users@[details.owner], color_l, color_o)->Ok_0;
        let base = if s == details.owner {
            u1
        } else {
            pre.users@[s]
        };
        let u2 = Pallet::spec_color_swap(base, color_o, color_l)->Ok_0;
        exists|mid: Seq<(u64, u32)>|
            #[trigger] crate::leaderboard::lb_snapshot(mid) && lb_updated(
                pre.leaderboard@,
                mid,
                details.owner,
                u1.points,
            ) && lb_updated(mid, post.leaderboard@, s, u2.points)
    }

    /// Settles an offer.  Reject returns the offered item to the
    /// offerer, re-locked; the listing stays open.  Accept swaps
    /// custody of the two items — each re-locked with its new owner —
    /// deletes both records, swaps both parties' colour and point
    /// bookkeeping, re-ranks both on the leaderboard, and ends the
    /// round for whoever thereby completes four of all colours.
    ///
    /// The caller must own the listing the offer points at.
    #[verifier::rlimit(60)]
    pub fn handle_offer(&mut self, origin: Origin, offer_id: u32, offer: Offer) -> (r: Result<
        (),
        Error,
    >)
        requires
            old(self).wf(),
        ensures
            final(self).wf(),
            r is Err ==> old(self).spec_handle_offer_err(origin, offer_id, offer) == Some(
                r->Err_0,
            ) && *final(self) == *old(self),
            r is Ok ==> old(self).spec_handle_offer_err(origin, offer_id, offer) is None,
            r is Ok ==> final(self).offers@ == old(self).offers@.remove(offer_id as u64),
            r is Ok ==> final(self).events@ == old(self).events@.push(
                Event::OfferHandled { offer_id, offer },
            ),
            r is Ok && offer is Reject ==> ({
                let details = old(self).offers@[offer_id as u64];
                &&& final(self).nfts.spec_item(details.collection_id, details.item_id) == Some(
                    NftItem { owner: details.owner, locked: true },
                )
                &&& (forall|c: u32, i: u32|
                    !(c == details.collection_id && i == details.item_id) ==> #[trigger] final(self).nfts.spec_item(c, i) == old(self).nfts.spec_item(c, i))
                &&& *final(self) == (Pallet {
                    offers: final(self).offers,
                    nfts: final(self).nfts,
                    events: final(self).events,
                    ..*old(self)
                })
            }),
            r is Ok && offer is Accept ==> Pallet::accepted_offer_post(
                *old(self),
                *final(self),
                origin->Signed_0,
                offer_id,
            ),
            r is Ok && offer is Accept ==> Pallet::accepted_offer_leaderboard(
                *old(self),
                *final(self),
                origin->Signed_0,
                offer_id,
            ),
    {
        let signer = match origin {
            Origin::Signed(s) => s,
            Origin::Root => {
                return Err(Error::BadOrigin);
            },
        };
        let details = match self.offers.get(&(offer_id as u64)) {
            Some(o) => *o,
            None => {
                return Err(Error::OfferDoesNotExist);
            },
        };
        let listing = match self.listings.get(&(details.listing_id as u64)) {
            Some(l) => *l,
            None => {
                return Err(Error::ListingDoesNotExist);
            },
        };
        if listing.owner != signer {
            return Err(Error::NoPermission);
        }
        match offer {
            Offer::Reject => {
                self.nfts.unlock(details.collection_id, details.item_id);
                self.nfts.force_transfer(details.collection_id, details.item_id, details.owner);
                self.nfts.lock(details.collection_id, details.item_id);
                self.offers.remove(&(offer_id as u64));
                self.events.push(Event::OfferHandled { offer_id, offer });
                Ok(())
            },
            Offer::Accept => {
                let color_l = match self.collection_color.get(&(listing.collection_id as u64)) {
                    Some(c) => *c,
                    None => {
                        proof {
                            assert(false);
                        }
                        return Err(Error::CollectionUnknown);
                    },
                };
                let color_o = match self.collection_color.get(&(details.collection_id as u64)) {
                    Some(c) => *c,
                    None => {
                        proof {
                            assert(false);
                        }
                        return Err(Error::CollectionUnknown);
                    },
                };
                let offerer_user = match self.users.get(&details.owner) {
                    Some(u) => *u,
                    None => {
                        proof {
                            assert(false);
                        }
                        return Err(Error::UserNotRegistered);
                    },
                };
                let u1 = match Pallet::apply_color_swap(offerer_user, color_l, color_o) {
                    Ok(u) => u,
                    Err(e) => {
                        return Err(e);
                    },
                };
                let base = if signer == details.owner {
                    u1
                } else {
                    match self.users.get(&signer) {
                        Some(u) => *u,
                        None => {
                            proof {
                                assert(false);
                            }
                            return Err(Error::UserNotRegistered);
                        },
                    }
                };
                let u2 = match Pallet::apply_color_swap(base, color_o, color_l) {
                    Ok(u) => u,
                    Err(e) => {
                        return Err(e);
                    },
                };
                // Commit: swap custody, drop both records, settle both
                // parties, re-rank, and close the round if completed.
                self.nfts.unlock(listing.collection_id, listing.item_id);
                self.nfts.force_transfer(listing.collection_id, listing.item_id, details.owner);
                self.nfts.lock(listing.collection_id, listing.item_id);
                self.nfts.unlock(details.collection_id, details.item_id);
                self.nfts.force_transfer(details.collection_id, details.item_id, signer);
                self.nfts.lock(details.collection_id, details.item_id);
                self.listings.remove(&(details.listing_id as u64));
                self.offers.remove(&(offer_id as u64));
                self.users.insert(details.owner, u1);
                self.users.insert(signer, u2);
                if u1.has_four_of_all_colors() {
                    self.round_active = false;
                    self.round_champion.insert(self.current_round as u64, details.owner);
                }
                if u2.has_four_of_all_colors() {
                    self.round_active = false;
                    self.round_champion.insert(self.current_round as u64, signer);
                }
                self.leaderboard.update(details.owner, u1.points);
                let ghost mid = self.leaderboard@;
                self.leaderboard.update(signer, u2.points);
                self.events.push(Event::OfferHandled { offer_id, offer });
                proof {
                    // The two escrowed items are distinct, so the two
                    // custody moves do not disturb one another.
                    assert(!(listing.collection_id == details.collection_id && listing.item_id
                        == details.item_id));
                    assert forall|c: u32, i: u32|
                        !(c == listing.collection_id && i == listing.item_id) && !(c
                            == details.collection_id && i == details.item_id) implies #[trigger] self.nfts.spec_item(
                        c,
                        i,
                    ) == old(self).nfts.spec_item(c, i) by {}
                    // The intermediate leaderboard witnesses the two
                    // re-rankings in order.
                    assert(crate::leaderboard::lb_snapshot(mid));
                    assert(lb_updated(old(self).leaderboard@, mid, details.owner, u1.points));
                    assert(lb_updated(mid, self.leaderboard@, signer, u2.points));
                    assert(Pallet::accepted_offer_leaderboard(*old(self), *self, signer, offer_id));
                    assert(Pallet::accepted_offer_post(*old(self), *self, signer, offer_id));
                }
                Ok(())
            },
        }
    }
}

} // verus!
