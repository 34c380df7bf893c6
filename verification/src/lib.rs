//! Ingestion and validation of a market-data provider's chart responses.

pub mod decimal;
pub mod decode;
pub mod error;
pub mod instant;
pub mod interval;
pub mod json;
pub mod loader;
pub mod payload;
pub mod query;
pub mod records;
pub mod roundtrip;
pub mod schema;
pub mod scrape;
pub mod verdict;

pub use error::LoadError;
pub use interval::Interval;
pub use loader::{load_daily, load_daily_range};
pub use records::Data;
