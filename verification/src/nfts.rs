//! The NFT ownership-and-custody ledger: who owns each
//! (collection, item) pair and whether its transfer is locked.
//!
//! The engine treats this ledger as its record of the NFT subsystem:
//! minting, transfer locks, ordinary owner-signed transfers, and the
//! privileged custody moves the marketplace performs.

use vstd::hash_map::HashMapWithView;
use vstd::prelude::*;

verus! {

broadcast use vstd::std_specs::hash::group_hash_axioms;

/// Ways the NFT subsystem rejects an owner-signed transfer.
#[derive(Clone, Copy, Debug, PartialEq, Eq, Structural)]
pub enum NftError {
    /// No such item exists.
    UnknownItem,
    /// The item's transfer is locked.
    ItemLocked,
    /// The signer does not own the item.
    NoPermission,
}

/// One minted NFT: its current owner and its transfer-lock flag.
#[derive(Clone, Copy, Debug, PartialEq, Eq, Structural)]
pub struct NftItem {
    pub owner: u64,
    pub locked: bool,
}

/// The packed map key of an item: collection in the high half, item in
/// the low half.
pub open spec fn spec_nft_key(collection_id: u32, item_id: u32) -> u64 {
    (collection_id * 0x1_0000_0000 + item_id) as u64
}

/// Distinct (collection, item) pairs pack to distinct keys.
pub proof fn lemma_nft_key_injective(c1: u32, i1: u32, c2: u32, i2: u32)
    ensures
        spec_nft_key(c1, i1) == spec_nft_key(c2, i2) ==> c1 == c2 && i1 == i2,
{
    assert(c1 * 0x1_0000_0000 + i1 < 0x1_0000_0000_0000_0000) by (nonlinear_arith)
        requires
            c1 <= 0xFFFF_FFFF && i1 <= 0xFFFF_FFFF,
    ;
    assert(c2 * 0x1_0000_0000 + i2 < 0x1_0000_0000_0000_0000) by (nonlinear_arith)
        requires
            c2 <= 0xFFFF_FFFF && i2 <= 0xFFFF_FFFF,
    ;
    if c1 * 0x1_0000_0000 + i1 == c2 * 0x1_0000_0000 + i2 {
        assert(c1 == c2 && i1 == i2) by (nonlinear_arith)
            requires
                c1 * 0x1_0000_0000 + i1 == c2 * 0x1_0000_0000 + i2,
                i1 <= 0xFFFF_FFFF,
                i2 <= 0xFFFF_FFFF,
        ;
    }
}

/// Packs a (collection, item) pair into its map key.
fn nft_key(collection_id: u32, item_id: u32) -> (k: u64)
    ensures
        k == spec_nft_key(collection_id, item_id),
{
    proof {
        assert(collection_id * 0x1_0000_0000 + item_id < 0x1_0000_0000_0000_0000)
            by (nonlinear_arith)
            requires
                collection_id <= 0xFFFF_FFFF && item_id <= 0xFFFF_FFFF,
        ;
    }
    (collection_id as u64) * 0x1_0000_0000u64 + (item_id as u64)
}

/// The NFT ownership ledger.
pub struct NftLedger {
    items: HashMapWithView<u64, NftItem>,
    next_collection_id: u32,
}

impl NftLedger {
    /// The item stored for a (collection, item) pair, if minted.
    pub closed spec fn spec_item(self, collection_id: u32, item_id: u32) -> Option<NftItem> {
        if self.items@.contains_key(spec_nft_key(collection_id, item_id)) {
            Some(self.items@[spec_nft_key(collection_id, item_id)])
        } else {
            None
        }
    }

    /// The owner of an item, if minted.
    pub open spec fn spec_owner(self, collection_id: u32, item_id: u32) -> Option<u64> {
        match self.spec_item(collection_id, item_id) {
            Some(item) => Some(item.owner),
            None => None,
        }
    }

    /// Whether a minted item's transfer is locked.
    pub open spec fn spec_locked(self, collection_id: u32, item_id: u32) -> bool {
        match self.spec_item(collection_id, item_id) {
            Some(item) => item.locked,
            None => false,
        }
    }

    /// The id the next created collection will get.
    pub closed spec fn spec_next_collection_id(self) -> u32 {
        self.next_collection_id
    }

    /// The empty ledger: no collections, no items.
    pub fn new() -> (r: Self)
        ensures
            r.spec_next_collection_id() == 0,
            forall|c: u32, i: u32| #[trigger] r.spec_item(c, i) is None,
    {
        NftLedger { items: HashMapWithView::new(), next_collection_id: 0 }
    }

    /// Creates the next collection, returning its id; fails exactly
    /// when the collection counter is exhausted.
    pub fn create_next_collection(&mut self) -> (r: Result<u32, crate::types::Error>)
        ensures
            match r {
                Ok(id) => old(self).spec_next_collection_id() < u32::MAX && id == old(
                    self,
                ).spec_next_collection_id() && final(self).spec_next_collection_id() == id + 1,
                Err(e) => e == crate::types::Error::ArithmeticOverflow && old(
                    self,
                ).spec_next_collection_id() == u32::MAX && *final(self) == *old(self),
            },
            forall|c: u32, i: u32| #[trigger]
                final(self).spec_item(c, i) == old(self).spec_item(c, i),
    {
        match self.next_collection_id.checked_add(1) {
            Some(next) => {
                let id = self.next_collection_id;
                self.next_collection_id = next;
                Ok(id)
            },
            None => Err(crate::types::Error::ArithmeticOverflow),
        }
    }

    /// Reads the id the next created collection will get.
    pub fn next_collection_id(&self) -> (r: u32)
        ensures
            r == self.spec_next_collection_id(),
    {
        self.next_collection_id
    }

    /// Looks up the owner of an item.
    pub fn owner(&self, collection_id: u32, item_id: u32) -> (r: Option<u64>)
        ensures
            r == self.spec_owner(collection_id, item_id),
    {
        let k = nft_key(collection_id, item_id);
        match self.items.get(&k) {
            Some(item) => Some(item.owner),
            None => None,
        }
    }

    /// Whether an item's transfer is locked.
    pub fn is_locked(&self, collection_id: u32, item_id: u32) -> (r: bool)
        ensures
            r == self.spec_locked(collection_id, item_id),
    {
        let k = nft_key(collection_id, item_id);
        match self.items.get(&k) {
            Some(item) => item.locked,
            None => false,
        }
    }

    /// An owner-signed transfer, as the NFT subsystem checks it: the
    /// item must exist, be unlocked, and belong to the signer; on
    /// success it moves to `dest` and stays unlocked.
    pub fn transfer(&mut self, signer: u64, collection_id: u32, item_id: u32, dest: u64) -> (r:
        Result<(), NftError>)
        ensures
            match r {
                Ok(()) => {
                    &&& old(self).spec_item(collection_id, item_id) matches Some(item)
                    &&& !item.locked
                    &&& item.owner == signer
                    &&& final(self).spec_item(collection_id, item_id) == Some(
                        NftItem { owner: dest, locked: false },
                    )
                },
                Err(NftError::UnknownItem) => old(self).spec_item(collection_id, item_id) is None
                    && *final(self) == *old(self),
                Err(NftError::ItemLocked) => old(self).spec_locked(collection_id, item_id)
                    && *final(self) == *old(self),
                Err(NftError::NoPermission) => {
                    &&& old(self).spec_item(collection_id, item_id) matches Some(item)
                    &&& !item.locked
                    &&& item.owner != signer
                    &&& *final(self) == *old(self)
                },
            },
            forall|c: u32, i: u32|
                !(c == collection_id && i == item_id) ==> #[trigger] final(self).spec_item(c, i)
                    == old(self).spec_item(c, i),
            final(self).spec_next_collection_id() == old(self).spec_next_collection_id(),
    {
        let k = nft_key(collection_id, item_id);
        let item = match self.items.get(&k) {
            Some(item) => *item,
            None => {
                return Err(NftError::UnknownItem);
            },
        };
        if item.locked {
            return Err(NftError::ItemLocked);
        }
        if item.owner != signer {
            return Err(NftError::NoPermission);
        }
        self.items.insert(k, NftItem { owner: dest, locked: false });
        proof {
            self.lemma_other_items_unchanged(*old(self), collection_id, item_id);
        }
        Ok(())
    }

    /// Mints a fresh, unlocked item for `recipient`.
    pub fn mint(&mut self, collection_id: u32, item_id: u32, recipient: u64)
        requires
            old(self).spec_item(collection_id, item_id) is None,
        ensures
            final(self).spec_item(collection_id, item_id) == Some(
                NftItem { owner: recipient, locked: false },
            ),
            forall|c: u32, i: u32|
                !(c == collection_id && i == item_id) ==> #[trigger] final(self).spec_item(c, i)
                    == old(self).spec_item(c, i),
            final(self).spec_next_collection_id() == old(self).spec_next_collection_id(),
    {
        let k = nft_key(collection_id, item_id);
        self.items.insert(k, NftItem { owner: recipient, locked: false });
        proof {
            self.lemma_other_items_unchanged(*old(self), collection_id, item_id);
        }
    }

    /// Locks transfer of an existing item.
    pub fn lock(&mut self, collection_id: u32, item_id: u32)
        requires
            old(self).spec_item(collection_id, item_id) is Some,
        ensures
            final(self).spec_item(collection_id, item_id) == Some(
                NftItem {
                    owner: old(self).spec_item(collection_id, item_id)->Some_0.owner,
                    locked: true,
                },
            ),
            forall|c: u32, i: u32|
                !(c == collection_id && i == item_id) ==> #[trigger] final(self).spec_item(c, i)
                    == old(self).spec_item(c, i),
            final(self).spec_next_collection_id() == old(self).spec_next_collection_id(),
    {
        let k = nft_key(collection_id, item_id);
        let item = match self.items.get(&k) {
            Some(item) => *item,
            None => {
                proof {
                    assert(false);
                }
                return ;
            },
        };
        self.items.insert(k, NftItem { owner: item.owner, locked: true });
        proof {
            self.lemma_other_items_unchanged(*old(self), collection_id, item_id);
        }
    }

    /// Unlocks transfer of an existing item.
    pub fn unlock(&mut self, collection_id: u32, item_id: u32)
        requires
            old(self).spec_item(collection_id, item_id) is Some,
        ensures
            final(self).spec_item(collection_id, item_id) == Some(
                NftItem {
                    owner: old(self).spec_item(collection_id, item_id)->Some_0.owner,
                    locked: false,
                },
            ),
            forall|c: u32, i: u32|
                !(c == collection_id && i == item_id) ==> #[trigger] final(self).spec_item(c, i)
                    == old(self).spec_item(c, i),
            final(self).spec_next_collection_id() == old(self).spec_next_collection_id(),
    {
        let k = nft_key(collection_id, item_id);
        let item = match self.items.get(&k) {
            Some(item) => *item,
            None => {
                proof {
                    assert(false);
                }
                return ;
            },
        };
        self.items.insert(k, NftItem { owner: item.owner, locked: false });
        proof {
            self.lemma_other_items_unchanged(*old(self), collection_id, item_id);
        }
    }

    /// A privileged custody move: the item must exist and be unlocked;
    /// it moves to `dest` and stays unlocked.
    pub fn force_transfer(&mut self, collection_id: u32, item_id: u32, dest: u64)
        requires
            old(self).spec_item(collection_id, item_id) is Some,
            !old(self).spec_locked(collection_id, item_id),
        ensures
            final(self).spec_item(collection_id, item_id) == Some(
                NftItem { owner: dest, locked: false },
            ),
            forall|c: u32, i: u32|
                !(c == collection_id && i == item_id) ==> #[trigger] final(self).spec_item(c, i)
                    == old(self).spec_item(c, i),
            final(self).spec_next_collection_id() == old(self).spec_next_collection_id(),
    {
        let k = nft_key(collection_id, item_id);
        self.items.insert(k, NftItem { owner: dest, locked: false });
        proof {
            self.lemma_other_items_unchanged(*old(self), collection_id, item_id);
        }
    }

    /// After an insert at one packed key, every other pair reads
    /// unchanged.
    proof fn lemma_other_items_unchanged(self, prev: NftLedger, collection_id: u32, item_id: u32)
        requires
            forall|k: u64|
                k != spec_nft_key(collection_id, item_id) ==> self.items@.contains_key(k)
                    == prev.items@.contains_key(k) && (prev.items@.contains_key(k)
                    ==> self.items@[k] == prev.items@[k]),
        ensures
            forall|c: u32, i: u32|
                !(c == collection_id && i == item_id) ==> #[trigger] self.spec_item(c, i)
                    == prev.spec_item(c, i),
    {
        assert forall|c: u32, i: u32| !(c == collection_id && i == item_id) implies #[trigger] self
            .spec_item(c, i) == prev.spec_item(c, i) by {
            lemma_nft_key_injective(c, i, collection_id, item_id);
        }
    }
}

} // verus!
