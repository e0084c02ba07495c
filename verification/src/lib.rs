//! Creation of a new Aleo program package: validate that a human-supplied
//! name yields a well-formed network-scoped program identifier, derive the
//! target directory from the working directory, and describe the package
//! creation and its confirmation message.
//!
//! The identifier grammar and the on-disk package layout are owned by the
//! snarkvm collaborator; this crate states and verifies the orchestration
//! around it: when the operation may proceed, what path and identifier
//! token it uses, and what it reports on success and on each failure.

pub mod command;
pub mod error;
pub mod id;
pub mod laws;
pub mod message;
pub mod path;

pub use command::{CreatePlan, New};
pub use error::CreateError;
