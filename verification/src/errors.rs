use vstd::prelude::*;

verus! {

/// Typed failures of the rental engine.
///
/// Every failure is terminal for the attempted operation: the record and the
/// balances handed to the engine are left exactly as before the call.
#[derive(Clone, Copy, Debug, PartialEq, Eq, Structural)]
pub enum ErrorCode {
    /// The product price x duration exceeds the `u64` domain.
    Overflow,
    /// `return_book` was invoked on a record with no active rental.
    NotRented,
    /// `return_book` was invoked before the rental period elapsed.
    RentalPeriodNotOver,
    /// `rent_book` was invoked on a record that is already occupied.
    AlreadyRented,
    /// A record already exists for the slot (raised by the host store, which
    /// refuses to allocate over an existing slot; never by the engine itself).
    AlreadyInitialized,
    /// The renter's balance cannot cover the rent amount.
    InsufficientFunds,
    /// A caller-asserted identity does not match the record's stored
    /// owner or renter.
    Unauthorized,
}

} // verus!
