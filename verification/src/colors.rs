//! The collected-colours ledger: a fixed eight-slot counter record per
//! user, tracking how many NFTs of each colour the user holds in the
//! current round.

use vstd::prelude::*;

use crate::types::{Error, NftColor};

verus! {

/// Eight unsigned counters, one per colour.  Reward logic keeps each
/// counter at four or below in normal play; the type itself only
/// defends against overflow and underflow.
#[derive(Clone, Copy, Debug, PartialEq, Eq, Structural)]
pub struct CollectedColors {
    pub xorange: u32,
    pub xpink: u32,
    pub xblue: u32,
    pub xcyan: u32,
    pub xcoral: u32,
    pub xpurple: u32,
    pub xleafgreen: u32,
    pub xgreen: u32,
}

impl Default for CollectedColors {
    /// The empty record: every counter is zero.
    fn default() -> (r: Self)
        ensures
            r == CollectedColors::empty(),
    {
        CollectedColors {
            xorange: 0,
            xpink: 0,
            xblue: 0,
            xcyan: 0,
            xcoral: 0,
            xpurple: 0,
            xleafgreen: 0,
            xgreen: 0,
        }
    }
}

impl CollectedColors {
    /// The all-zero record.
    pub open spec fn empty() -> CollectedColors {
        CollectedColors {
            xorange: 0,
            xpink: 0,
            xblue: 0,
            xcyan: 0,
            xcoral: 0,
            xpurple: 0,
            xleafgreen: 0,
            xgreen: 0,
        }
    }

    /// The counter held for `color`.
    pub open spec fn count_of(self, color: NftColor) -> u32 {
        match color {
            NftColor::Xorange => self.xorange,
            NftColor::Xpink => self.xpink,
            NftColor::Xblue => self.xblue,
            NftColor::Xcyan => self.xcyan,
            NftColor::Xcoral => self.xcoral,
            NftColor::Xpurple => self.xpurple,
            NftColor::Xleafgreen => self.xleafgreen,
            NftColor::Xgreen => self.xgreen,
        }
    }

    /// `self` with the counter for `color` replaced by `n`.
    pub open spec fn with_count(self, color: NftColor, n: u32) -> CollectedColors {
        match color {
            NftColor::Xorange => CollectedColors { xorange: n, ..self },
            NftColor::Xpink => CollectedColors { xpink: n, ..self },
            NftColor::Xblue => CollectedColors { xblue: n, ..self },
            NftColor::Xcyan => CollectedColors { xcyan: n, ..self },
            NftColor::Xcoral => CollectedColors { xcoral: n, ..self },
            NftColor::Xpurple => CollectedColors { xpurple: n, ..self },
            NftColor::Xleafgreen => CollectedColors { xleafgreen: n, ..self },
            NftColor::Xgreen => CollectedColors { xgreen: n, ..self },
        }
    }

    /// Checked increment of the counter for `color`; fails exactly when
    /// the counter is at its representable maximum.
    pub fn add_nft_color(&mut self, color: NftColor) -> (r: Result<(), Error>)
        ensures
            match r {
                Ok(()) => old(self).count_of(color) < u32::MAX && *final(self) == old(
                    self,
                ).with_count(color, (old(self).count_of(color) + 1) as u32),
                Err(e) => e == Error::ArithmeticOverflow && old(self).count_of(color) == u32::MAX
                    && *final(self) == *old(self),
            },
    {
        match color {
            NftColor::Xorange => {
                match self.xorange.checked_add(1) {
                    Some(n) => {
                        self.xorange = n;
                        Ok(())
                    },
                    None => Err(Error::ArithmeticOverflow),
                }
            },
            NftColor::Xpink => {
                match self.xpink.checked_add(1) {
                    Some(n) => {
                        self.xpink = n;
                        Ok(())
                    },
                    None => Err(Error::ArithmeticOverflow),
                }
            },
            NftColor::Xblue => {
                match self.xblue.checked_add(1) {
                    Some(n) => {
                        self.xblue = n;
                        Ok(())
                    },
                    None => Err(Error::ArithmeticOverflow),
                }
            },
            NftColor::Xcyan => {
                match self.xcyan.checked_add(1) {
                    Some(n) => {
                        self.xcyan = n;
                        Ok(())
                    },
                    None => Err(Error::ArithmeticOverflow),
                }
            },
            NftColor::Xcoral => {
                match self.xcoral.checked_add(1) {
                    Some(n) => {
                        self.xcoral = n;
                        Ok(())
                    },
                    None => Err(Error::ArithmeticOverflow),
                }
            },
            NftColor::Xpurple => {
                match self.xpurple.checked_add(1) {
                    Some(n) => {
                        self.xpurple = n;
                        Ok(())
                    },
                    None => Err(Error::ArithmeticOverflow),
                }
            },
            NftColor::Xleafgreen => {
                match self.xleafgreen.checked_add(1) {
                    Some(n) => {
                        self.xleafgreen = n;
                        Ok(())
                    },
                    None => Err(Error::ArithmeticOverflow),
                }
            },
            NftColor::Xgreen => {
                match self.xgreen.checked_add(1) {
                    Some(n) => {
                        self.xgreen = n;
                        Ok(())
                    },
                    None => Err(Error::ArithmeticOverflow),
                }
            },
        }
    }

    /// Checked decrement of the counter for `color`; fails exactly when
    /// the counter is already zero.
    pub fn sub_nft_color(&mut self, color: NftColor) -> (r: Result<(), Error>)
        ensures
            match r {
                Ok(()) => old(self).count_of(color) > 0 && *final(self) == old(self).with_count(
                    color,
                    (old(self).count_of(color) - 1) as u32,
                ),
                Err(e) => e == Error::ArithmeticUnderflow && old(self).count_of(color) == 0
                    && *final(self) == *old(self),
            },
    {
        match color {
            NftColor::Xorange => {
                match self.xorange.checked_sub(1) {
                    Some(n) => {
                        self.xorange = n;
                        Ok(())
                    },
                    None => Err(Error::ArithmeticUnderflow),
                }
            },
            NftColor::Xpink => {
                match self.xpink.checked_sub(1) {
                    Some(n) => {
                        self.xpink = n;
                        Ok(())
                    },
                    None => Err(Error::ArithmeticUnderflow),
                }
            },
            NftColor::Xblue => {
                match self.xblue.checked_sub(1) {
                    Some(n) => {
                        self.xblue = n;
                        Ok(())
                    },
                    None => Err(Error::ArithmeticUnderflow),
                }
            },
            NftColor::Xcyan => {
                match self.xcyan.checked_sub(1) {
                    Some(n) => {
                        self.xcyan = n;
                        Ok(())
                    },
                    None => Err(Error::ArithmeticUnderflow),
                }
            },
            NftColor::Xcoral => {
                match self.xcoral.checked_sub(1) {
                    Some(n) => {
                        self.xcoral = n;
                        Ok(())
                    },
                    None => Err(Error::ArithmeticUnderflow),
                }
            },
            NftColor::Xpurple => {
                match self.xpurple.checked_sub(1) {
                    Some(n) => {
                        self.xpurple = n;
                        Ok(())
                    },
                    None => Err(Error::ArithmeticUnderflow),
                }
            },
            NftColor::Xleafgreen => {
                match self.xleafgreen.checked_sub(1) {
                    Some(n) => {
                        self.xleafgreen = n;
                        Ok(())
                    },
                    None => Err(Error::ArithmeticUnderflow),
                }
            },
            NftColor::Xgreen => {
                match self.xgreen.checked_sub(1) {
                    Some(n) => {
                        self.xgreen = n;
                        Ok(())
                    },
                    None => Err(Error::ArithmeticUnderflow),
                }
            },
        }
    }

    /// Whether the record is a full set: at least four of all eight
    /// colours.
    pub open spec fn spec_has_four_of_all_colors(self) -> bool {
        self.xorange >= 4 && self.xpink >= 4 && self.xblue >= 4 && self.xcyan >= 4 && self.xcoral
            >= 4 && self.xpurple >= 4 && self.xleafgreen >= 4 && self.xgreen >= 4
    }

    /// Pure full-set predicate: at least four of all eight colours.
    pub fn has_four_of_all_colors(&self) -> (r: bool)
        ensures
            r == self.spec_has_four_of_all_colors(),
    {
        self.xorange >= 4 && self.xpink >= 4 && self.xblue >= 4 && self.xcyan >= 4 && self.xcoral
            >= 4 && self.xpurple >= 4 && self.xleafgreen >= 4 && self.xgreen >= 4
    }
}

} // verus!
