//! A registry of anonymous rings of public keys, with the checks that let a
//! ring authorise a transfer or attest a balance threshold without saying
//! which of its members acted.

mod bytes;
pub mod cloud;
pub mod error;
pub mod holdings;
pub mod primitives;
pub mod program;
pub mod ring;
pub mod settlement;
pub mod statement;
pub mod storage;

pub use cloud::HoldingsProofVerified;
pub use cloud::ProbabilityCloud;
pub use cloud::Registry;
pub use error::ErrorCode;
pub use program::create_cloud;
pub use program::initialize;
pub use program::prove_holdings;
pub use program::transfer_with_ring_proof;
pub use program::CreateCloud;
pub use program::Initialize;
pub use program::ProveHoldings;
pub use program::TransferWithRing;
