//! The values that commands are made of and that handlers hand back.

pub mod component_ref;
pub mod format;
pub mod ids;
pub mod project_action;
pub mod project_ref;
pub mod result;
pub mod role;

pub use component_ref::{ComponentIdOrName, ComponentIdOrNameArgs};
pub use format::Format;
pub use ids::{AccountId, ComponentName, ProjectId, ProjectPolicyId, RawComponentId, TokenId};
pub use project_action::ProjectAction;
pub use project_ref::{ProjectRef, ProjectRefArgs};
pub use result::{GolemError, GolemResult, Payload};
pub use role::Role;
