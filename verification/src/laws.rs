//! Laws of the engine that span several transitions, stated and proved
//! once over the specification functions the transitions' contracts
//! use.

use vstd::prelude::*;

use crate::leaderboard::{sorted_desc, LEADERBOARD_LIMIT};
use crate::pallet::Pallet;
use crate::types::GameData;
use crate::user::User;

verus! {

/// Expiring a list of ids whose sessions are all gone changes
/// nothing: a session resolved by an answer before its expiry block is
/// silently skipped by the sweep, and no penalty is applied.
pub proof fn lemma_expire_skips_resolved(
    users: Map<u64, User>,
    games: Map<u64, GameData>,
    ids: Seq<u32>,
)
    requires
        forall|j: int| 0 <= j < ids.len() ==> !games.contains_key(#[trigger] ids[j] as u64),
    ensures
        Pallet::spec_expire(users, games, ids) == (users, games),
    decreases ids.len(),
{
    if ids.len() > 0 {
        assert(!games.contains_key(ids[0] as u64));
        assert(forall|j: int|
            0 <= j < ids.drop_first().len() ==> #[trigger] ids.drop_first()[j] == ids[j + 1]);
        lemma_expire_skips_resolved(users, games, ids.drop_first());
    }
}

/// Running the expiry sweep twice for the same block is a no-op the
/// second time: the first sweep consumed the bucket, so the second
/// finds nothing to expire and leaves users, sessions, and the
/// schedule exactly as they were.
pub proof fn lemma_sweep_idempotent(pre: Pallet, mid: Pallet, post: Pallet, n: u64)
    requires
        Pallet::swept(pre, mid, n),
        Pallet::swept(mid, post, n),
    ensures
        post.users@ == mid.users@,
        post.game_info@ == mid.game_info@,
        post.games_expiring@ == mid.games_expiring@,
        post == (Pallet {
            users: post.users,
            game_info: post.game_info,
            games_expiring: post.games_expiring,
            ..mid
        }),
{
    assert(!mid.games_expiring@.contains_key(n));
    lemma_expire_skips_resolved(mid.users@, mid.game_info@, Seq::<u32>::empty());
    assert(post.games_expiring@ =~= mid.games_expiring@);
}

/// After an accepted offer, the two NFTs have exactly swapped
/// beneficial owners, both sit transfer-locked with their new owners
/// — so any owner-signed transfer attempt fails — and the listing and
/// the offer are both gone.
pub proof fn lemma_offer_acceptance_conserves(pre: Pallet, post: Pallet, s: u64, offer_id: u32)
    requires
        pre.offers@.contains_key(offer_id as u64),
        pre.listings@.contains_key(pre.offers@[offer_id as u64].listing_id as u64),
        Pallet::accepted_offer_post(pre, post, s, offer_id),
    ensures
        ({
            let details = pre.offers@[offer_id as u64];
            let listing = pre.listings@[details.listing_id as u64];
            &&& post.nfts.spec_owner(listing.collection_id, listing.item_id) == Some(details.owner)
            &&& post.nfts.spec_locked(listing.collection_id, listing.item_id)
            &&& post.nfts.spec_owner(details.collection_id, details.item_id) == Some(s)
            &&& post.nfts.spec_locked(details.collection_id, details.item_id)
            &&& !post.listings@.contains_key(details.listing_id as u64)
            &&& !post.offers@.contains_key(offer_id as u64)
        }),
{
}

/// A player returning in a later round starts it with an empty
/// colour set: the first play of a round whose number differs from
/// the player's last-played marker resets the collected colours,
/// whatever was accumulated before.
pub proof fn lemma_round_reset(s: Pallet, u: User)
    requires
        s.current_round != u.last_played_round,
        u.last_played_round < u32::MAX,
    ensures
        s.spec_played_user(u).nfts == crate::colors::CollectedColors::empty(),
        s.spec_played_user(u).last_played_round == u.last_played_round + 1,
        s.spec_played_user(u).points == u.points,
{
}

/// The leaderboard never exceeds its capacity and is always sorted
/// descending by points: every transition keeps the engine
/// well-formed, and well-formedness carries both bounds.
pub proof fn lemma_leaderboard_bounded_and_sorted(s: Pallet)
    requires
        s.wf(),
    ensures
        s.leaderboard@.len() <= LEADERBOARD_LIMIT,
        sorted_desc(s.leaderboard@),
{
}

/// Game, listing, and offer ids are handed out strictly increasingly
/// and never reused: in a well-formed engine every live record sits
/// strictly below its counter, and each transition that assigns an id
/// assigns the counter's value and increments it.
pub proof fn lemma_ids_never_reused(s: Pallet)
    requires
        s.wf(),
    ensures
        forall|k: u64| k >= s.game_id ==> !(#[trigger] s.game_info@.contains_key(k)),
        forall|k: u64| k >= s.next_listing_id ==> !(#[trigger] s.listings@.contains_key(k)),
        forall|k: u64| k >= s.next_offer_id ==> !(#[trigger] s.offers@.contains_key(k)),
{
}

} // verus!
