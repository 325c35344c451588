use vstd::prelude::*;

verus! {

/// A 32-byte account identity, held as two 128-bit halves.
///
/// The engine never inspects an identity beyond comparing it for equality:
/// authenticating a caller and binding an identity to a role are the host's
/// job, done before the engine runs.
#[derive(Clone, Copy, Debug, PartialEq, Eq, Structural)]
pub struct AccountId {
    pub hi: u128,
    pub lo: u128,
}

/// The rental slot of a record: free, or occupied by exactly one renter.
///
/// Holding the renter, the duration and the start time in one variant makes
/// them jointly present or jointly absent by construction; no partially
/// populated rental can be written down.
#[derive(Clone, Copy, Debug, PartialEq, Eq, Structural)]
pub enum RentalState {
    Free,
    Occupied {
        renter: AccountId,
        /// Length of the rental in days.
        rental_duration: u64,
        /// Seconds since the epoch at which the rental began.
        rental_start_time: i64,
    },
}

/// The persistent record of one rentable asset.
///
/// `owner` and `rent_price_per_day` are fixed when the record is created and
/// never change; `state` and `escrowed_balance` cycle between a free slot and
/// an occupied one.
#[derive(Clone, Copy, Debug, PartialEq, Eq, Structural)]
pub struct BookRental {
    pub owner: AccountId,
    /// Price unit per day, fixed at creation.
    pub rent_price_per_day: u64,
    pub state: RentalState,
    /// Funds held by the record itself, pending release to the owner.
    pub escrowed_balance: u64,
}

impl BookRental {
    /// Well-formedness of a record: while the slot is free nothing is
    /// escrowed; while it is occupied the escrow holds exactly
    /// price x duration (so that product fits in `u64`) and the rental
    /// lasts at least one day.
    pub open spec fn wf(self) -> bool {
        match self.state {
            RentalState::Free => self.escrowed_balance == 0,
            RentalState::Occupied { rental_duration, .. } => {
                &&& rental_duration >= 1
                &&& self.escrowed_balance == self.rent_price_per_day * rental_duration
            },
        }
    }

    /// Runtime check of `wf`, for a host that receives a record from outside
    /// the engine and must establish its well-formedness before calling in.
    pub fn well_formed(&self) -> (b: bool)
        ensures
            b == self.wf(),
    {
        match self.state {
            RentalState::Free => self.escrowed_balance == 0,
            RentalState::Occupied { rental_duration, .. } => {
                rental_duration >= 1
                    && self.rent_price_per_day.checked_mul(rental_duration)
                        == Some(self.escrowed_balance)
            },
        }
    }
}

} // verus!
