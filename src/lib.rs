//! Escrow-style peer-to-peer payments: paired transaction ledgers, the
//! request/confirm/settle/cancel state machine, recurring-schedule checks and
//! the authorization and fee guards around every transition.

pub mod error;
pub mod ledger;
pub mod state;
pub mod transaction_history;
pub mod contract;
pub mod msg;
