//! Delegated debits with per-transfer limits.
//!
//! A merchant authorizes debitors to pull funds from its users, and each
//! user's delegate caps what one transfer may move. Three components share
//! the work:
//!
//! - the policy store ([`policy_store::MerchantDebitorManager`]) keeps, for
//!   each merchant, the whitelist of its debitors;
//! - the manager ([`manager::Manager`]) registers merchants, has a delegate
//!   deployed for each `(merchant, user)` pair under a salt that is the
//!   digest of the serialized pair ([`salt`]), and routes calls;
//! - a delegate ([`user_delegate::UserDelegate`]) holds the transfer limits
//!   and turns an authorized debit into one transfer to the merchant's
//!   payout destination.
//!
//! Each component is a value with a mathematical view, and each operation
//! is a function from the state, the approvals that came with the call
//! ([`approvals::Approvals`]) and the arguments to the next state and the
//! result. What a component asks of another contract or of the ledger, it
//! hands out as a value: the caller carries it out. [`system::System`]
//! wires the three components together in memory and carries the calls
//! from one to the next. [`laws`] states what holds of every state.

pub mod approvals;
pub mod laws;
pub mod manager;
pub mod policy_store;
pub mod principal;
pub mod salt;
pub mod system;
mod table;
pub mod user_delegate;
