//! Verified core of the HunterFi strategy platform: the factory's account
//! ledger, deployment records and deployment state machine, the strategy
//! registry, the timer and cycles bookkeeping, and the self-hedging
//! strategy's decision logic.

pub mod principal;
pub mod text;
pub mod types;
pub mod table;
pub mod key_order;
pub mod state;
pub mod ledger;
pub mod records;
pub mod archiving;
pub mod payment;
pub mod deployment;
pub mod timer;
pub mod cycles;
pub mod intervals;
pub mod exchange;
pub mod icpswap;
pub mod icpswap_trade;
pub mod split;
pub mod hedging;
pub mod hedge_run;
pub mod factory;
pub mod upgrade;
pub mod exchange_factory;
