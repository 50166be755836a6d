//! A registry of issuers whose every rule is proved.
//!
//! An administrator registers issuers, updates and rotates them, suspends and
//! reactivates them under a cooldown and a capacity bound, and revokes them for
//! good. The same administrator governs the in-place upgrades of the contract.
//!
//! A call works on an [`env::Env`]: the ledger entries that it may read, as
//! plain values, the ledger time, and a journal of what the call asks of the
//! host (an authorization, a write, a longer lifetime, an event). The host
//! performs the journal in order, as one transaction.
//!
//! * [`bytes`]: fixed-size byte strings and addresses.
//! * [`table`]: the lookup table that holds ledger entries.
//! * [`model`]: records, statuses and errors.
//! * [`event`]: the events that the registry publishes.
//! * [`env`]: ledger entries, effects and the environment of a call.
//! * [`rules`]: what each call answers, leaves behind and asks of the host.
//! * [`contract`]: the calls.
//! * [`invocation`]: the calls that can abort, with the abort as a value.
//! * [`laws`] (with [`laws::entries`], [`laws::operations`]), [`accounting`], [`replay`]
//!   (with [`replay::requests`]), [`footprint`]: what each call is for, what holds of it
//!   and of every history of calls.

pub mod bytes;
pub mod table;
pub mod model;
pub mod event;
pub mod env;
pub mod rules;
pub mod contract;
pub mod invocation;
pub mod laws;
pub mod accounting;
pub mod replay;
pub mod footprint;
