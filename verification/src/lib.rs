//! Portfolio bookkeeping for stock transactions and dividends.
pub mod calculate;
pub mod date;
pub mod decimal;
pub mod fold;
pub mod text;
pub mod types;
pub mod database;
pub mod helpers;
pub mod service;
pub mod listing;
pub mod ticker_map;
pub mod focus;
pub mod pages;
pub mod app;
pub mod update;
pub mod theme;
