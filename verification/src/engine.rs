use vstd::prelude::*;

use crate::errors::ErrorCode;
use crate::record::AccountId;
use crate::record::BookRental;
use crate::record::RentalState;

verus! {

/// Seconds in one rental day.
pub const SECONDS_PER_DAY: u64 = 86400;

/// The record exactly as `initialize` creates it: owner and price fixed,
/// slot free, nothing escrowed.
pub open spec fn spec_initialize(owner: AccountId, rent_price_per_day: u64) -> BookRental {
    BookRental {
        owner,
        rent_price_per_day,
        state: RentalState::Free,
        escrowed_balance: 0,
    }
}

/// The outcome `rent_book` owes: which error, if any, the given record,
/// duration and renter balance lead to.
pub open spec fn spec_rent_check(r: BookRental, days: u64, renter_balance: u64) -> Result<
    (),
    ErrorCode,
> {
    if r.state is Occupied {
        Err(ErrorCode::AlreadyRented)
    } else if r.rent_price_per_day * days > u64::MAX {
        Err(ErrorCode::Overflow)
    } else if renter_balance < r.rent_price_per_day * days {
        Err(ErrorCode::InsufficientFunds)
    } else {
        Ok(())
    }
}

/// The record after a successful `rent_book`: slot occupied by the renter
/// for `days` days starting at `now`, price x days held in escrow.
pub open spec fn spec_rent_record(
    r: BookRental,
    renter: AccountId,
    days: u64,
    now: i64,
) -> BookRental {
    BookRental {
        state: RentalState::Occupied { renter, rental_duration: days, rental_start_time: now },
        escrowed_balance: (r.rent_price_per_day * days) as u64,
        ..r
    }
}

/// Rents the asset to `renter` for `days` days, starting at `now`.
///
/// On success the rent amount price x days moves from the renter's balance
/// into the record's escrow and the slot becomes occupied. On any failure —
/// slot already occupied, price x days outside the `u64` domain, or the
/// renter's balance too small — the record and the balance are left exactly
/// as they were.
///
/// The host has already authenticated `renter` and bound the record to its
/// owner; `now` is the host clock, read once for the whole operation.
pub fn rent_book(
    record: &mut BookRental,
    renter: AccountId,
    days: u64,
    now: i64,
    renter_balance: &mut u64,
) -> (r: Result<(), ErrorCode>)
    requires
        old(record).wf(),
        days >= 1,
    ensures
        final(record).wf(),
        r == spec_rent_check(*old(record), days, *old(renter_balance)),
        r is Ok ==> *final(record) == spec_rent_record(*old(record), renter, days, now),
        r is Ok ==> final(record).escrowed_balance == old(record).rent_price_per_day * days,
        r is Ok ==> *final(renter_balance) == *old(renter_balance) - old(
            record,
        ).rent_price_per_day * days,
        r is Err ==> *final(record) == *old(record) && *final(renter_balance) == *old(
            renter_balance,
        ),
{
    match record.state {
        RentalState::Occupied { .. } => {
            return Err(ErrorCode::AlreadyRented);
        },
        RentalState::Free => {},
    }
    let rent_amount: u64 = match record.rent_price_per_day.checked_mul(days) {
        Some(amount) => amount,
        None => {
            return Err(ErrorCode::Overflow);
        },
    };
    if *renter_balance < rent_amount {
        return Err(ErrorCode::InsufficientFunds);
    }
    *renter_balance = *renter_balance - rent_amount;
    record.escrowed_balance = record.escrowed_balance + rent_amount;
    record.state = RentalState::Occupied {
        renter,
        rental_duration: days,
        rental_start_time: now,
    };
    Ok(())
}

/// The outcome `return_book` owes: which error, if any, the given record,
/// caller identities and clock reading lead to.
///
/// The checks are ordered: a free slot is reported before anything else, a
/// caller that is not the stored owner and renter is turned away before the
/// clock is consulted, and only an authorized, timely return recomputes the
/// rent amount.
pub open spec fn spec_return_check(
    r: BookRental,
    owner: AccountId,
    renter: AccountId,
    now: i64,
) -> Result<(), ErrorCode> {
    match r.state {
        RentalState::Free => Err(ErrorCode::NotRented),
        RentalState::Occupied { renter: current, rental_duration, rental_start_time } => {
            if owner != r.owner || renter != current {
                Err(ErrorCode::Unauthorized)
            } else if now - rental_start_time < rental_duration * SECONDS_PER_DAY {
                Err(ErrorCode::RentalPeriodNotOver)
            } else if r.rent_price_per_day * rental_duration > u64::MAX {
                Err(ErrorCode::Overflow)
            } else {
                Ok(())
            }
        },
    }
}

/// The record after a successful `return_book`: slot free again, escrow
/// empty, owner and price untouched.
pub open spec fn spec_return_record(r: BookRental) -> BookRental {
    BookRental { state: RentalState::Free, escrowed_balance: 0, ..r }
}

/// Returns the asset and settles the rental.
///
/// `owner` and `renter` are the caller-asserted identities, already
/// authenticated by the host; they must match the identities stored in the
/// record. Once `now` has reached the start time plus duration x 86400
/// seconds, the rent amount — recomputed as price x duration, which under
/// well-formedness equals the escrow — moves from the record's escrow to the
/// owner's balance and the slot becomes free. An early return is rejected
/// outright; there is no partial settlement. On any failure the record and
/// the balance are left exactly as they were.
pub fn return_book(
    record: &mut BookRental,
    owner: AccountId,
    renter: AccountId,
    now: i64,
    owner_balance: &mut u64,
) -> (r: Result<(), ErrorCode>)
    requires
        old(record).wf(),
        *old(owner_balance) + old(record).escrowed_balance <= u64::MAX,
    ensures
        final(record).wf(),
        r == spec_return_check(*old(record), owner, renter, now),
        r is Ok ==> *final(record) == spec_return_record(*old(record)),
        r is Ok ==> *final(owner_balance) == *old(owner_balance) + old(record).escrowed_balance,
        r is Err ==> *final(record) == *old(record) && *final(owner_balance) == *old(
            owner_balance,
        ),
{
    let (current_renter, rental_duration, rental_start_time) = match record.state {
        RentalState::Free => {
            return Err(ErrorCode::NotRented);
        },
        RentalState::Occupied { renter: current, rental_duration, rental_start_time } => (
            current,
            rental_duration,
            rental_start_time,
        ),
    };
    if !(owner == record.owner && renter == current_renter) {
        return Err(ErrorCode::Unauthorized);
    }
    let elapsed: i128 = (now as i128) - (rental_start_time as i128);
    let period: i128 = (rental_duration as i128) * (SECONDS_PER_DAY as i128);
    if elapsed < period {
        return Err(ErrorCode::RentalPeriodNotOver);
    }
    let rent_amount: u64 = match record.rent_price_per_day.checked_mul(rental_duration) {
        Some(amount) => amount,
        None => {
            return Err(ErrorCode::Overflow);
        },
    };
    *owner_balance = *owner_balance + rent_amount;
    record.escrowed_balance = record.escrowed_balance - rent_amount;
    record.state = RentalState::Free;
    Ok(())
}

/// Creates the record for a newly registered asset: the given owner and
/// per-day price, a free slot, and an empty escrow. Whether a record may be
/// created at all — the slot must not already hold one — is enforced by the
/// host store, not here.
pub fn initialize(owner: AccountId, rent_price_per_day: u64) -> (r: BookRental)
    ensures
        r == spec_initialize(owner, rent_price_per_day),
        r.wf(),
{
    BookRental {
        owner,
        rent_price_per_day,
        state: RentalState::Free,
        escrowed_balance: 0,
    }
}

/// Law: a full cycle — initialize, rent for `days` starting at `now`, let
/// the clock advance by days x 86400 seconds, return — accepts both
/// operations, holds exactly price x days in escrow in between, and leaves
/// the record identical to the freshly initialized one.
pub proof fn lemma_rent_return_round_trip(
    owner: AccountId,
    renter: AccountId,
    price: u64,
    days: u64,
    now: i64,
    renter_balance: u64,
    later: i64,
)
    requires
        days >= 1,
        price * days <= u64::MAX,
        renter_balance >= price * days,
        later == now + days * SECONDS_PER_DAY,
    ensures
        ({
            let r0 = spec_initialize(owner, price);
            let r1 = spec_rent_record(r0, renter, days, now);
            &&& spec_rent_check(r0, days, renter_balance) is Ok
            &&& r1.escrowed_balance == price * days
            &&& spec_return_check(r1, owner, renter, later) is Ok
            &&& spec_return_record(r1) == r0
        }),
{
}

} // verus!
