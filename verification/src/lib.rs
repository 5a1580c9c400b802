pub mod codec;
pub mod decimal;
pub mod types;
pub mod wire;
pub mod config;
pub mod conn;
pub mod cache;
pub mod arbitrage;
pub mod bitget;
pub mod bybit;
pub mod exchange;
pub mod history;
pub mod executor;
