//! The randomness the turn pipeline draws on, as a capability that callers
//! supply: a uniform roll in an inclusive range and a uniform pick from a
//! slice.
use rand::Rng;
use vstd::prelude::*;

verus! {

/// A source of dice rolls and random picks.
pub trait RandomSource {
    /// A roll in `[min, max]`, both ends included.
    fn roll_range(&mut self, min: u32, max: u32) -> (r: u32)
        requires
            min <= max,
        ensures
            min <= r <= max,
    ;

    /// One element of `list`; nothing exactly when `list` is empty.
    fn choose_from<'a, T>(&mut self, list: &'a [T]) -> (r: Option<&'a T>)
        ensures
            list@.len() == 0 <==> r is None,
            r matches Some(x) ==> list@.contains(*x),
    ;
}

/// Relies on rand's `rng().random_range(min..=max)`: a value of the inclusive
/// range, which must not be empty (the call panics on an empty range).
#[verifier::external_body]
fn random_in_range(min: u32, max: u32) -> (r: u32)
    requires
        min <= max,
    ensures
        min <= r <= max,
{
    rand::rng().random_range(min..=max)
}

/// The randomness of a live session, drawn from the thread's generator.
pub struct DefaultRandomSource;

impl RandomSource for DefaultRandomSource {
    fn roll_range(&mut self, min: u32, max: u32) -> (r: u32) {
        random_in_range(min, max)
    }

    fn choose_from<'a, T>(&mut self, list: &'a [T]) -> (r: Option<&'a T>) {
        if list.len() == 0 {
            None
        } else {
            let last: usize = list.len() - 1;
            let hi: u32 = if last > u32::MAX as usize {
                u32::MAX
            } else {
                last as u32
            };
            let index = self.roll_range(0, hi) as usize;
            let x = &list[index];
            assert(list@[index as int] == *x);
            Some(x)
        }
    }
}

} // verus!
