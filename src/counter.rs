use vstd::prelude::*;
use crate::decimal::{decimal_digits, decimal_text, parse_u32, parse_u32_spec};
use crate::error::AstroPhiError;

verus! {

/// The number of frames shot since the last reset. Its persisted form is the
/// decimal text that `contents` returns, and nothing else.
#[derive(Clone, Copy, Debug)]
pub struct FrameCounter {
    total: u32,
}

/// The total after `add(count)` on a counter that holds `total`, or `None`
/// where the sum does not fit.
pub open spec fn added(total: u32, count: u32) -> Option<u32> {
    if total + count <= u32::MAX {
        Some((total + count) as u32)
    } else {
        None
    }
}

impl View for FrameCounter {
    type V = u32;

    closed spec fn view(&self) -> u32 {
        self.total
    }
}

impl FrameCounter {
    /// A counter that starts at `initial`.
    pub fn new(initial: u32) -> (r: FrameCounter)
        ensures
            r@ == initial,
    {
        FrameCounter { total: initial }
    }

    /// The counter stored in a file's `contents`: the whole text must be a
    /// decimal number.
    pub fn from_contents(contents: &str) -> (r: Result<FrameCounter, AstroPhiError>)
        ensures
            match parse_u32_spec(contents@) {
                Ok(n) => r matches Ok(c) && c@ == n,
                Err(k) => r matches Err(AstroPhiError::ParseInt(j)) && j == k,
            },
    {
        match parse_u32(contents) {
            Ok(n) => Ok(FrameCounter { total: n }),
            Err(k) => Err(AstroPhiError::ParseInt(k)),
        }
    }

    /// The current total, unchanged.
    pub fn snapshot(&self) -> (r: u32)
        ensures
            r == self@,
    {
        self.total
    }

    /// Adds `count` frames and returns the new total. Adding nothing is
    /// accepted and changes nothing. A total past `u32::MAX` is refused and
    /// leaves the counter as it was.
    pub fn add(&mut self, count: u32) -> (r: Result<u32, AstroPhiError>)
        ensures
            match added(old(self)@, count) {
                Some(t) => r == Ok::<u32, AstroPhiError>(t) && final(self)@ == t,
                None => r matches Err(AstroPhiError::Internal) && final(self)@ == old(self)@,
            },
    {
        if count > u32::MAX - self.total {
            return Err(AstroPhiError::Internal);
        }
        self.total = self.total + count;
        Ok(self.total)
    }

    /// Sets the total back to zero.
    pub fn reset(&mut self)
        ensures
            final(self)@ == 0,
    {
        self.total = 0;
    }

    /// The text that the counter file holds for this total.
    pub fn contents(&self) -> (r: String)
        ensures
            r@ == decimal_digits(self@ as nat),
    {
        decimal_text(self.total)
    }
}

/// After `add(count)` the snapshot is the previous total plus `count`, and
/// adding zero leaves the persisted text as it was.
pub proof fn lemma_add_then_snapshot(total: u32, count: u32)
    requires
        total + count <= u32::MAX,
    ensures
        added(total, count) == Some((total + count) as u32),
        count == 0 ==> decimal_digits(added(total, count).unwrap() as nat) == decimal_digits(
            total as nat,
        ),
{
}

} // verus!
