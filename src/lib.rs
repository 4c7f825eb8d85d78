//! Provisioning of host-local services: a directory holding a compose file,
//! an environment file and a systemd unit, created step by step and rolled
//! back in reverse order when a step fails.

pub mod steps;
pub mod errors;
pub mod layout;
pub mod fs;
pub mod executors;
pub mod saga;
pub mod provisioner;
pub mod laws;

pub use errors::{
    CreateErrorType, CreateExecutorError, DeleteErrorType, DeleteExecutorError, ExecutorError,
};
pub use executors::{CreateExecutor, DeleteExecutor, RealCreateExecutor, RealDeleteExecutor};
pub use fs::{FileFailure, FileManager, IoFailure, IoKind};
pub use layout::ServiceLayout;
pub use provisioner::{ProvisionError, ProvisionerImpl, Removal};
pub use saga::{CreateSaga, UndoEntry};
pub use steps::Step;
