pub mod forex;
pub mod ibkr;
pub mod models;
pub mod oanda;
pub mod xtb;
pub mod xtb_models;
pub mod transaction;
pub mod selection;
