//! Blocks as the miner sees them.

pub mod header;
pub mod miner;

pub use header::BlockHeader;
pub use miner::MinerWork;
pub use miner::MinerWorkView;
pub use miner::BLOCK_WORK_SIZE;
pub use miner::EXTRA_NONCE_SIZE;
