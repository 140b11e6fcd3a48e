//! What holds of the operations on witness jobs.
pub mod blobs;
pub mod claiming;
pub mod common;
pub mod handing;
pub mod history;
pub mod marking;
pub mod notation;
pub mod pipeline;
pub mod reading;
pub mod tables;
pub mod texts;
pub mod transactions;
