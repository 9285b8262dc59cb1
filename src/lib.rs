//! Read-only lookups over the `parsed_asset_uris` table of the NFT metadata
//! crawler: the record type, the three lookups and their filters, and the
//! decisions of the retry loop that runs each lookup against the store.

pub mod lookup;
pub mod record;
pub mod retry;
