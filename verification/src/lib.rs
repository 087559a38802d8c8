//! Pre-flight orchestration for batched asset transfers.
//!
//! Two operations are served: *collect* (pull funds from many senders into
//! one recipient) and *disperse* (push funds from one sender to many
//! recipients), over a mix of the chain's native asset and fungible-token
//! assets. Requested amounts are either absolute quantities or percentages
//! of the holder's current balance. For every (asset, holder) pair the
//! engine resolves percentages to absolute amounts, verifies balances,
//! raises spending allowances where they fall short, moves the native
//! asset directly, and only then hands the fully resolved request to the
//! batched settlement call.
//!
//! The engines in [`collect`] and [`disperse`] are pure state machines:
//! they emit a [`action::ChainAction`] describing the next chain read or
//! write, and consume a [`action::ChainEvent`] describing what came back.
//! A thin driver owns the actual chain client and runs the loop.

pub mod action;
pub mod address;
pub mod amount;
pub mod collect;
pub mod disperse;
pub mod error;
pub mod gate;
pub mod native;
pub mod resolve;
pub mod rows;
pub mod shape;
