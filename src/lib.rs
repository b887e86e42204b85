//! A verified model of the dust demons game program: owners spawn a demon
//! record at an address derived from their key, feed it lamports to raise its
//! experience and level, and sacrifice it to reclaim the account's balance.
pub mod address;
pub mod level;
pub mod store;
pub mod laws;
