//! A small demonstration workload: shaving a herd of yaks.
//!
//! Yak three is never where it should be, so shaving it fails; every
//! other yak is shaved without incident. The herd-wide count of shaved
//! yaks follows.

use vstd::prelude::*;

verus! {

/// Why the yak's spot ran out of space.
#[derive(Debug, Clone, Copy, PartialEq, Eq, Structural)]
pub enum OutOfSpaceError {
    /// The cash box is empty.
    OutOfCash,
}

impl OutOfSpaceError {
    /// The error's display message.
    pub fn message(&self) -> (r: &'static str)
        ensures
            r@ == "out of cash"@,
    {
        "out of cash"
    }
}

/// Why the yak went missing.
#[derive(Debug, Clone, Copy, PartialEq, Eq, Structural)]
pub enum MissingYakError {
    /// There was no space for the yak.
    OutOfSpace(OutOfSpaceError),
}

impl MissingYakError {
    /// The error's display message.
    pub fn message(&self) -> (r: &'static str)
        ensures
            r@ == "out of space"@,
    {
        "out of space"
    }
}

/// Why a yak could not be shaved.
#[derive(Debug, Clone, Copy, PartialEq, Eq, Structural)]
pub enum YakError {
    /// The yak could not be found.
    MissingYak(MissingYakError),
}

impl YakError {
    /// The error's display message.
    pub fn message(&self) -> (r: &'static str)
        ensures
            r@ == "missing yak"@,
    {
        "missing yak"
    }
}

/// The error shaving yak three runs into.
pub open spec fn spec_missing_yak() -> YakError {
    YakError::MissingYak(MissingYakError::OutOfSpace(OutOfSpaceError::OutOfCash))
}

/// How many yaks of a herd of `yaks` get shaved: all but the missing
/// third one.
pub open spec fn spec_shaved_count(yaks: int) -> int {
    if yaks >= 3 {
        yaks - 1
    } else {
        yaks
    }
}

/// Shave one yak. Yak three cannot be located, so shaving it fails.
pub fn shave(yak: usize) -> (r: Result<(), YakError>)
    ensures
        r == if yak == 3 {
            Result::<(), YakError>::Err(spec_missing_yak())
        } else {
            Result::<(), YakError>::Ok(())
        },
{
    if yak == 3 {
        Err(YakError::MissingYak(MissingYakError::OutOfSpace(OutOfSpaceError::OutOfCash)))
    } else {
        Ok(())
    }
}

/// Shave yaks one through `yaks` and count the successes.
pub fn shave_all(yaks: usize) -> (r: usize)
    ensures
        r == spec_shaved_count(yaks as int),
{
    let mut yaks_shaved: usize = 0;
    let mut i: usize = 0;
    while i < yaks
        invariant
            i <= yaks,
            yaks_shaved == spec_shaved_count(i as int),
        decreases yaks - i,
    {
        let yak = i + 1;
        let res = shave(yak);
        if res.is_ok() {
            yaks_shaved += 1;
        }
        i = yak;
    }
    yaks_shaved
}

} // verus!
