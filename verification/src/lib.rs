//! Lifecycle reconciliation for a single named container running a versioned
//! service image.
//!
//! After a successful `run`, exactly one container with the target name runs
//! the desired image version; after a successful `end`, no container with
//! that name remains. The container runtime itself is an external
//! collaborator: this crate decides which corrective actions (stop, remove,
//! create, start) to request and in which order, while an unverified driver
//! performs the actual runtime calls and feeds the outcomes back in.

pub mod converge;
pub mod desired;
pub mod plan;
pub mod session;
pub mod fault;
pub mod inspect;
pub mod status;

pub use fault::Fault;
pub use status::ContainerStatus;
