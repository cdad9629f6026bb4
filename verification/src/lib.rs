//! A bank server: accounts with balances, a request queue fed by clients,
//! workers that carry out deposits, transfers and balance snapshots, and a
//! server that schedules periodic snapshots and decides when to shut down.
//!
//! Money is counted in hundredths of a currency unit (cents), as `i64`.

pub mod operation;
pub mod bank;
pub mod worker;
pub mod request_queue;
pub mod lock_free_queue;
pub mod server;
pub mod random;
pub mod client;
pub mod dispatcher;
