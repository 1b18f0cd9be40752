//! The user account record: points, win/loss counters, practice
//! rounds, round markers, and the collected-colours ledger.  The
//! tiered point formulas for gaining and losing a colour live here.

use vstd::prelude::*;

use crate::colors::CollectedColors;
use crate::types::{Error, NftColor};

verus! {

/// Points awarded for holding `n` copies of a colour right after one
/// copy was gained: the first copy is worth 100, the second 120, the
/// third 220, the fourth 340, and further copies nothing.
pub open spec fn gain_points_for_count(n: u32) -> u32 {
    if n == 1 {
        100u32
    } else if n == 2 {
        120u32
    } else if n == 3 {
        220u32
    } else if n == 4 {
        340u32
    } else {
        0u32
    }
}

/// Points charged for holding `n` copies of a colour right after one
/// copy was lost.  Losing the only copy costs 100, dropping from two
/// copies costs 120, from three 220, from four 340, and losing a
/// fifth or later copy costs nothing.
pub open spec fn loss_points_for_count(n: u32) -> u32 {
    if n == 0 {
        100u32
    } else if n == 1 {
        120u32
    } else if n == 2 {
        220u32
    } else if n == 3 {
        340u32
    } else {
        0u32
    }
}

/// One account's record.  Created at registration with 50 points;
/// never deleted.
#[derive(Clone, Copy, Debug, PartialEq, Eq, Structural)]
pub struct User {
    pub points: u32,
    pub wins: u32,
    pub losses: u32,
    pub practise_rounds: u8,
    pub last_played_round: u32,
    pub next_token_request: u64,
    pub nfts: CollectedColors,
}

impl User {
    /// The record a freshly registered player starts with: 50 points,
    /// everything else zero, and the first token request allowed from
    /// block `next_token_request` on.
    pub open spec fn fresh(next_token_request: u64) -> User {
        User {
            points: 50,
            wins: 0,
            losses: 0,
            practise_rounds: 0,
            last_played_round: 0,
            next_token_request,
            nfts: CollectedColors::empty(),
        }
    }

    /// Checked increment of this user's counter for `color`.
    pub fn add_nft_color(&mut self, color: NftColor) -> (r: Result<(), Error>)
        ensures
            match r {
                Ok(()) => old(self).nfts.count_of(color) < u32::MAX && *final(self) == (User {
                    nfts: old(self).nfts.with_count(
                        color,
                        (old(self).nfts.count_of(color) + 1) as u32,
                    ),
                    ..*old(self)
                }),
                Err(e) => e == Error::ArithmeticOverflow && old(self).nfts.count_of(color)
                    == u32::MAX && *final(self) == *old(self),
            },
    {
        self.nfts.add_nft_color(color)?;
        Ok(())
    }

    /// Checked decrement of this user's counter for `color`.
    pub fn sub_nft_color(&mut self, color: NftColor) -> (r: Result<(), Error>)
        ensures
            match r {
                Ok(()) => old(self).nfts.count_of(color) > 0 && *final(self) == (User {
                    nfts: old(self).nfts.with_count(
                        color,
                        (old(self).nfts.count_of(color) - 1) as u32,
                    ),
                    ..*old(self)
                }),
                Err(e) => e == Error::ArithmeticUnderflow && old(self).nfts.count_of(color) == 0
                    && *final(self) == *old(self),
            },
    {
        self.nfts.sub_nft_color(color)?;
        Ok(())
    }

    /// Whether this user holds a full set: four of all eight colours.
    pub fn has_four_of_all_colors(&self) -> (r: bool)
        ensures
            r == self.nfts.spec_has_four_of_all_colors(),
    {
        self.nfts.has_four_of_all_colors()
    }

    /// Tiered reward for the colour just gained, read from the
    /// already-incremented counter.
    pub fn calculate_points(&mut self, color: NftColor) -> (r: u32)
        ensures
            *final(self) == *old(self),
            r == gain_points_for_count(old(self).nfts.count_of(color)),
    {
        let n = self.count_for(color);
        if n == 1 {
            100
        } else if n == 2 {
            120
        } else if n == 3 {
            220
        } else if n == 4 {
            340
        } else {
            0
        }
    }

    /// Tiered charge for the colour just lost, read from the
    /// already-decremented counter.
    pub fn subtracting_calculate_points(&mut self, color: NftColor) -> (r: u32)
        ensures
            *final(self) == *old(self),
            r == loss_points_for_count(old(self).nfts.count_of(color)),
    {
        let n = self.count_for(color);
        if n == 0 {
            100
        } else if n == 1 {
            120
        } else if n == 2 {
            220
        } else if n == 3 {
            340
        } else {
            0
        }
    }

    /// Reads this user's counter for `color`.
    fn count_for(&self, color: NftColor) -> (n: u32)
        ensures
            n == self.nfts.count_of(color),
    {
        match color {
            NftColor::Xorange => self.nfts.xorange,
            NftColor::Xpink => self.nfts.xpink,
            NftColor::Xblue => self.nfts.xblue,
            NftColor::Xcyan => self.nfts.xcyan,
            NftColor::Xcoral => self.nfts.xcoral,
            NftColor::Xpurple => self.nfts.xpurple,
            NftColor::Xleafgreen => self.nfts.xleafgreen,
            NftColor::Xgreen => self.nfts.xgreen,
        }
    }
}

} // verus!
