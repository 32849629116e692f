pub mod errors;
pub mod ledger;
pub mod phase;
pub mod pool;
pub mod distributor;
pub mod game;
