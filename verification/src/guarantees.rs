//! What each operation guarantees, stated on what goes into it and what comes out of it.

pub mod catalog;
pub mod documents;
pub mod headers;
pub mod mpp_rail;
pub mod records;
pub mod replies;
pub mod requests;
pub mod screening;
pub mod searches;
pub mod settings;
pub mod texts;
pub mod x402_rail;
