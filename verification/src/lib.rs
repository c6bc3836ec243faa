pub mod access;
pub mod admin;
pub mod agreeing;
pub mod batches;
pub mod calendar;
pub mod cancellation;
pub mod cancelling;
pub mod charging;
pub mod constants;
pub mod contract;
pub mod creating;
pub mod creation;
pub mod disputes;
pub mod endings;
pub mod errors;
pub mod events;
pub mod fees;
pub mod funds;
pub mod gains;
pub mod governing;
pub mod host;
pub mod index;
pub mod laws;
pub mod ledger;
pub mod listing;
pub mod milestones;
pub mod multisig;
pub mod orders;
pub mod owing;
pub mod parties;
pub mod payouts;
pub mod reading;
pub mod recurring;
pub mod release;
pub mod releasing;
pub mod rent;
pub mod schedule;
pub mod settling;
pub mod signing;
pub mod slashes;
pub mod solvency;
pub mod sound;
pub mod storage;
pub mod store;
pub mod telling;
pub mod templates;
pub mod timelocks;
pub mod types;
pub mod views;
pub mod working;
