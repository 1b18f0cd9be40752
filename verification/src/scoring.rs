//! Answer scoring: the normalized guess-error computation and the
//! difficulty-specific reward tables keyed by error bucket.

use vstd::prelude::*;

use crate::types::Error;

verus! {

/// The signed 32-bit reading of a `u32` bit pattern.
pub open spec fn as_signed_32(x: u32) -> int {
    if x < 0x8000_0000 {
        x as int
    } else {
        x - 0x1_0000_0000
    }
}

/// Division truncating towards zero, as machine division does; defined
/// for `d != 0`.
pub open spec fn trunc_div(x: int, d: int) -> int {
    if x == 0 {
        0
    } else if x > 0 && d > 0 {
        x / d
    } else if x < 0 && d < 0 {
        (x * -1) / (d * -1)
    } else if x < 0 {
        ((x * -1) / d) * -1
    } else {
        (x / (d * -1)) * -1
    }
}

/// The normalized absolute per-mille error of `guess` against `price`,
/// computed as 32-bit signed checked arithmetic does:
/// `abs((price - guess) * 1000 / price)`, where both operands are read
/// as signed 32-bit values.  Each checked step that fails maps to its
/// own error kind.
pub open spec fn spec_difference(price: u32, guess: u32) -> Result<u32, Error> {
    let p = as_signed_32(price);
    let g = as_signed_32(guess);
    if p - g > i32::MAX || p - g < i32::MIN {
        Err(Error::ArithmeticUnderflow)
    } else {
        let s = p - g;
        if s * 1000 > i32::MAX || s * 1000 < i32::MIN {
            Err(Error::MultiplyError)
        } else {
            let m = s * 1000;
            if p == 0 {
                Err(Error::DivisionError)
            } else {
                let q = trunc_div(m, p);
                if q < i32::MIN || q > i32::MAX {
                    Err(Error::DivisionError)
                } else if q < 0 {
                    Ok((q * -1) as u32)
                } else {
                    Ok(q as u32)
                }
            }
        }
    }
}

/// Reads a `u32` as the signed 32-bit value with the same bit pattern.
fn to_signed_32(x: u32) -> (r: i32)
    ensures
        r as int == as_signed_32(x),
{
    if x < 0x8000_0000 {
        x as i32
    } else {
        ((x as i64) - 0x1_0000_0000i64) as i32
    }
}

/// Computes the normalized absolute per-mille error of a guess with
/// checked 32-bit signed arithmetic, exactly as
/// [`spec_difference`] states it.
pub fn compute_difference(price: u32, guess: u32) -> (r: Result<u32, Error>)
    ensures
        r == spec_difference(price, guess),
{
    let p = to_signed_32(price);
    let g = to_signed_32(guess);
    let s = match p.checked_sub(g) {
        Some(s) => s,
        None => {
            return Err(Error::ArithmeticUnderflow);
        },
    };
    let m = match s.checked_mul(1000) {
        Some(m) => m,
        None => {
            return Err(Error::MultiplyError);
        },
    };
    let q = match m.checked_div(p) {
        Some(q) => q,
        None => {
            return Err(Error::DivisionError);
        },
    };
    proof {
        assert(q as int == trunc_div(m as int, p as int));
        assert(q != i32::MIN) by {
            assert(m != i32::MIN) by {
                assert(s * 1000 != -0x8000_0000int);
            };
        };
    }
    let d = if q < 0 {
        -q
    } else {
        q
    };
    Ok(d as u32)
}

/// Signed point delta of a Pro-difficulty answer whose error `d` lies
/// outside the minting bucket (`d > 10`).
pub open spec fn pro_reward(d: u32) -> int {
    if d <= 30 {
        50
    } else if d <= 50 {
        30
    } else if d <= 100 {
        10
    } else if d <= 150 {
        -10
    } else if d <= 200 {
        -20
    } else if d <= 250 {
        -30
    } else if d <= 300 {
        -40
    } else {
        -50
    }
}

/// Signed point delta of a Player-difficulty answer whose error `d`
/// lies outside the minting bucket (`d > 10`).
pub open spec fn player_reward(d: u32) -> int {
    if d <= 30 {
        25
    } else if d <= 50 {
        15
    } else if d <= 100 {
        5
    } else if d <= 150 {
        -5
    } else if d <= 200 {
        -10
    } else if d <= 250 {
        -15
    } else if d <= 300 {
        -20
    } else {
        -25
    }
}

/// Looks up the Pro reward table for an error outside the minting
/// bucket.
pub fn pro_reward_of(d: u32) -> (r: (bool, u32))
    requires
        d > 10,
    ensures
        r.0 ==> r.1 == pro_reward(d),
        !r.0 ==> r.1 == -pro_reward(d),
        r.0 == (pro_reward(d) >= 0),
{
    if d <= 30 {
        (true, 50)
    } else if d <= 50 {
        (true, 30)
    } else if d <= 100 {
        (true, 10)
    } else if d <= 150 {
        (false, 10)
    } else if d <= 200 {
        (false, 20)
    } else if d <= 250 {
        (false, 30)
    } else if d <= 300 {
        (false, 40)
    } else {
        (false, 50)
    }
}

/// Looks up the Player reward table for an error outside the minting
/// bucket.
pub fn player_reward_of(d: u32) -> (r: (bool, u32))
    requires
        d > 10,
    ensures
        r.0 ==> r.1 == player_reward(d),
        !r.0 ==> r.1 == -player_reward(d),
        r.0 == (player_reward(d) >= 0),
{
    if d <= 30 {
        (true, 25)
    } else if d <= 50 {
        (true, 15)
    } else if d <= 100 {
        (true, 5)
    } else if d <= 150 {
        (false, 5)
    } else if d <= 200 {
        (false, 10)
    } else if d <= 250 {
        (false, 15)
    } else if d <= 300 {
        (false, 20)
    } else {
        (false, 25)
    }
}

} // verus!
