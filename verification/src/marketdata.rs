//! Market-data identifiers: instruments are named by the same identifier as in
//! the reference book.
pub use crate::instrument_id::InstrumentId;
