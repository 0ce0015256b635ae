//! What a client of the driver works with.

pub use crate::command::{ApprovalKind, ClientCommand};
pub use crate::config::SessionConfig;
pub use crate::event::{ApprovalRequest, PlanStep, PlanStepStatus, PlanUpdate, ServerEvent};
pub use crate::startup::SessionStartError;
