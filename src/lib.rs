//! Governance engine for an education platform: users hold voting power,
//! submit proposals, vote within a deadline, and a passed proposal is
//! executed after a mandatory delay.

pub mod config;
pub mod error;
pub mod governance;
pub mod identity;
pub mod ids;
pub mod laws;
pub mod model;
pub mod proposal;
pub mod text;
pub mod users;

pub use config::{days_to_nanoseconds, execute_governance_parameter_change, GovernanceConfig};
pub use error::ApiError;
pub use governance::Governance;
pub use model::{CollaboratorCall, GovernanceState};
pub use identity::UserId;
pub use ids::{
    generate_certification_id, generate_course_id, generate_discussion_id,
    generate_learning_path_id, generate_lesson_id,
};
pub use proposal::{
    CreateProposalRequest, GovernanceStats, Proposal, ProposalStatus, ProposalType, Vote, VoteType,
};
pub use users::{is_valid_email, is_valid_username, Achievement, CreateUserRequest, UserRole};
