//! Single-use download links: a file is uploaded, a link to it is issued,
//! and the first request for the link, and only the first, gets the file.

pub mod contents;
pub mod handlers;
pub mod models;
pub mod race;
pub mod redemption;
pub mod storage;
pub mod table;
pub mod text;
pub mod time_provider;
