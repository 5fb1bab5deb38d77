//! Signed event-forwarding core: classify raw gateway messages, sign
//! forwardable event bodies, build authenticated dispatch attempts,
//! and decide retries on dispatch outcomes.

mod clock;
pub mod dispatch;
pub mod filter;
pub mod ingest;
pub mod retry;
pub mod signer;
