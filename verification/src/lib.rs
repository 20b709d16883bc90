//! Delegation lifecycle core for a trading market whose on-ledger state is
//! mirrored between a canonical base ledger and a fast ephemeral execution
//! layer.
//!
//! The library validates attacker-controlled account lists, re-derives the
//! role each supplied account must play, checks that the vault accounts match
//! the market's own header, and plans the three lifecycle transitions
//! (delegate, commit, undelegate) as explicit request values. The surrounding
//! runtime performs the planned requests against the external mirroring
//! service and feeds the results back to obtain the event to emit.

pub mod account;
pub mod context;
pub mod errors;
pub mod lifecycle;
pub mod market;
pub mod params;
