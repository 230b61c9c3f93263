//! Verified building blocks for ESG (environmental, social, governance) analysis: the rating
//! scale, claim parsing and evidence checks, keyword-based governance evidence, industry
//! benchmarks, and carbon credit additionality and permanence scoring.

pub mod text;
pub mod types;
pub mod verification;
pub mod bonds;
pub mod governance;
pub mod environmental;
pub mod social;
pub mod pipeline;

pub use types::{ESGCategory, ESGRating, VerificationClaim, VerificationStatus};
pub use environmental::EnvironmentalScorer;
pub use social::SocialScorer;
pub use governance::GovernanceScorer;
pub use verification::VerificationEngine;
pub use bonds::GreenBondAnalyzer;
pub use pipeline::ESGPipeline;
