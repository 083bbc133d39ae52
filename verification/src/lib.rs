//! A ledger of one wallet's token transfers, named by the card payments that
//! caused them, and the decisions of a monitor that watches the chain for
//! transfers from the wallet to the card's bank.

pub mod address;
pub mod args;
pub mod classify;
pub mod dates;
pub mod entry;
pub mod gnosispay;
pub mod gnosisscan;
pub mod model;
pub mod monitor;
pub mod notify;
pub mod order;
pub mod text;
pub mod transactions;
pub mod units;
