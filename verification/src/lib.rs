//! A time-bound rental escrow.
//!
//! One record per asset holds an owner, a per-day price, and at most one
//! active rental. `initialize` creates the record with a free slot;
//! `rent_book` locks price x days into the record's escrow and occupies the
//! slot; `return_book` releases the escrow to the owner once the rental
//! period has elapsed and frees the slot again.
//!
//! The engine is a pure state machine over plain values. Its external
//! collaborators — account allocation, signature verification, the fund
//! ledger, the clock, and persistence — belong to a host environment: the
//! host authenticates identities, reads the clock once per operation, and
//! hands the engine the record and the balance cells it may touch. Every
//! operation either commits fully or leaves record and balances untouched.

pub mod engine;
pub mod errors;
pub mod record;

pub use engine::initialize;
pub use engine::rent_book;
pub use engine::return_book;
pub use errors::ErrorCode;
pub use record::AccountId;
pub use record::BookRental;
pub use record::RentalState;
