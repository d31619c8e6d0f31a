//! Strictly increasing nonce generation.
//!
//! A nonce is the decimal rendering of a counter derived from the
//! clock: the epoch seconds followed by the zero-padded 9-digit
//! subsecond fraction, read as one integer. The generator remembers the
//! last counter it handed out, so even a clock that stalls or runs
//! backwards can never make it repeat or decrease.

use vstd::prelude::*;
use crate::BuildError;
use crate::dec::{dec_of, dec_val, lemma_dec_of_val, lemma_dec_order, format_u128};

verus! {

/// Relies on std::time::SystemTime: the time elapsed since
/// std::time::UNIX_EPOCH, split into whole seconds and the subsecond
/// nanoseconds; `None` when the clock reads earlier than the epoch.
/// std documents Duration::subsec_nanos as below one billion.
#[verifier::external_body]
pub(crate) fn clock_now() -> (r: Option<(u64, u32)>)
    ensures
        r matches Some(t) ==> t.1 < 1_000_000_000,
{
    match std::time::UNIX_EPOCH.elapsed() {
        Ok(d) => Some((d.as_secs(), d.subsec_nanos())),
        Err(_) => None,
    }
}

/// Produces strictly increasing decimal nonces for one credential.
pub struct NonceGenerator {
    /// Counter value of the most recently returned nonce; 0 before any call.
    pub last: u128,
}

impl NonceGenerator {
    /// The counter a clock reading stands for: the decimal
    /// concatenation of the seconds and the 9-digit subsecond fraction.
    pub open spec fn counter_of(secs: u64, nanos: u32) -> int {
        secs * 1_000_000_000 + nanos
    }

    /// A fresh generator, below every clock-derived counter.
    pub fn new() -> (r: NonceGenerator)
        ensures
            r.last == 0,
    {
        NonceGenerator { last: 0 }
    }

    /// Advances the generator by one clock reading and returns the next
    /// nonce: the clock-derived counter when the clock moved forward,
    /// else one past the previous value, so the counter strictly grows.
    pub fn next_at(&mut self, secs: u64, nanos: u32) -> (r: Vec<u8>)
        requires
            old(self).last < u128::MAX,
        ensures
            final(self).last == if Self::counter_of(secs, nanos) > old(self).last {
                Self::counter_of(secs, nanos)
            } else {
                old(self).last + 1
            },
            final(self).last > old(self).last,
            r@ == dec_of(final(self).last as nat),
            dec_val(r@) == final(self).last,
    {
        let candidate: u128 = (secs as u128) * 1_000_000_000 + (nanos as u128);
        if candidate > self.last {
            self.last = candidate;
        } else {
            self.last = self.last + 1;
        }
        proof {
            lemma_dec_of_val(self.last as nat);
        }
        format_u128(self.last)
    }

    /// Reads the system clock and returns the next nonce. Fails only
    /// when the clock cannot be read; the generator then stands
    /// unchanged.
    pub fn next(&mut self) -> (r: Result<Vec<u8>, BuildError>)
        requires
            old(self).last < u128::MAX,
        ensures
            match r {
                Ok(n) => {
                    &&& final(self).last > old(self).last
                    &&& n@ == dec_of(final(self).last as nat)
                    &&& dec_val(n@) == final(self).last
                },
                Err(e) => e == BuildError::Clock && *final(self) == *old(self),
            },
    {
        match clock_now() {
            Some((secs, nanos)) => Ok(self.next_at(secs, nanos)),
            None => Err(BuildError::Clock),
        }
    }
}

/// Nonce monotonicity: nonces rendered from strictly increasing
/// counters — as successive calls of one generator produce — parse as
/// strictly increasing integers.
pub proof fn lemma_nonce_monotonic(n1: Seq<u8>, n2: Seq<u8>, c1: nat, c2: nat)
    requires
        n1 == dec_of(c1),
        n2 == dec_of(c2),
        c1 < c2,
    ensures
        dec_val(n1) < dec_val(n2),
{
    lemma_dec_order(c1, c2);
}

} // verus!
