//! Stored records of the claim ledger.

pub mod received;
