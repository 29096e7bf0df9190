//! Decisions of a downloader that saves the images among a user's saved posts.

pub mod batch;
pub mod decode;
pub mod error;
pub mod filter;
pub mod naming;
pub mod unit;
