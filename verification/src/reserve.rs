//! The reserve: the pool's lamports that are delegated to no validator. It
//! never falls under its minimum.

use crate::error::StakePoolError;
use crate::state::Reserve;
use vstd::prelude::*;

verus! {

impl Reserve {
    /// Lamports that may leave the reserve.
    pub open spec fn spec_available(&self) -> int {
        if self.lamports >= self.minimum_lamports {
            self.lamports - self.minimum_lamports
        } else {
            0
        }
    }

    /// A reserve of `lamports` that keeps `minimum_lamports`, or `None` if it
    /// would start under its minimum.
    pub fn new(lamports: u64, minimum_lamports: u64) -> (r: Option<Reserve>)
        ensures
            r == if lamports >= minimum_lamports {
                Some(Reserve { lamports, minimum_lamports })
            } else {
                None
            },
    {
        if lamports >= minimum_lamports {
            Some(Reserve { lamports, minimum_lamports })
        } else {
            None
        }
    }

    /// Lamports that may leave the reserve.
    pub fn available(&self) -> (r: u64)
        ensures
            r == self.spec_available(),
    {
        if self.lamports >= self.minimum_lamports {
            self.lamports - self.minimum_lamports
        } else {
            0
        }
    }

    /// Adds lamports to the reserve. Fails, with `CalculationFailure`,
    /// exactly when the balance would leave the 64-bit range.
    pub fn deposit(&mut self, lamports: u64) -> (r: Result<(), StakePoolError>)
        ensures
            r is Err <==> old(self).lamports + lamports > u64::MAX,
            r matches Err(e) ==> e == StakePoolError::CalculationFailure && *final(self) == *old(
                self,
            ),
            r is Ok ==> *final(self) == (Reserve {
                lamports: (old(self).lamports + lamports) as u64,
                ..*old(self)
            }),
    {
        match self.lamports.checked_add(lamports) {
            Some(sum) => {
                self.lamports = sum;
                Ok(())
            },
            None => Err(StakePoolError::CalculationFailure),
        }
    }

    /// Takes lamports out of the reserve. Fails, with `InsufficientFunds`,
    /// exactly when the balance would fall under the minimum.
    pub fn withdraw(&mut self, lamports: u64) -> (r: Result<(), StakePoolError>)
        ensures
            r is Err <==> old(self).lamports - lamports < old(self).minimum_lamports,
            r matches Err(e) ==> e == StakePoolError::InsufficientFunds && *final(self) == *old(self),
            r is Ok ==> *final(self) == (Reserve {
                lamports: (old(self).lamports - lamports) as u64,
                ..*old(self)
            }),
            r is Ok ==> final(self).wf(),
    {
        if self.lamports < lamports || self.lamports - lamports < self.minimum_lamports {
            return Err(StakePoolError::InsufficientFunds);
        }
        self.lamports = self.lamports - lamports;
        Ok(())
    }
}

} // verus!
