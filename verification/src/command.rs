//! The package-creation command: from a program name and the working
//! directory it either refuses the operation or produces the exact path
//! and identifier token to materialize a package with, and it turns the
//! materializer's outcome into the final report.
//!
//! The filesystem work itself (reading the working directory, writing the
//! package) is the surrounding binary's part; the decisions around it are
//! made, and verified, here.

use vstd::prelude::*;

use crate::error::CreateError;
use crate::id::{id_token, id_token_spec, id_token_is_valid, program_id_token_valid};
use crate::message::{success_message, success_message_spec};
use crate::path::{join_path, target_path_spec};

verus! {

/// The command that creates a new Aleo program package.
#[derive(Debug)]
pub struct New {
    /// The program name.
    pub name: String,
}

/// Everything the package materializer needs: the target directory and
/// the validated identifier token to parse the program identifier from.
#[derive(Debug)]
pub struct CreatePlan {
    /// The target directory: the working directory with the name appended
    /// as a single path segment.
    pub path: String,
    /// The `{name}.aleo` token, already checked against the network's
    /// identifier grammar.
    pub id_token: String,
}

impl New {
    /// Makes the command for a program name.
    pub fn new(name: String) -> (r: New)
        ensures
            r.name@ == name@,
    {
        New { name }
    }

    /// Decides whether the operation may proceed, and with what. The
    /// working directory is handed in as `None` when it could not be
    /// determined, and that failure comes before any identifier
    /// construction. With a directory at hand, the name is checked
    /// against the network's identifier grammar, and a valid name yields
    /// the exact target path and identifier token; nothing else can
    /// refuse the plan.
    pub fn plan(&self, cwd: Option<&str>) -> (r: Result<CreatePlan, CreateError>)
        ensures
            match r {
                Ok(p) => {
                    &&& cwd matches Some(d) && p.path@ == target_path_spec(d@, self.name@)
                    &&& program_id_token_valid(id_token_spec(self.name@))
                    &&& p.id_token@ == id_token_spec(self.name@)
                },
                Err(CreateError::Environment) => cwd is None,
                Err(CreateError::InvalidProgramId) => {
                    &&& cwd is Some
                    &&& !program_id_token_valid(id_token_spec(self.name@))
                },
                Err(CreateError::Creation(_)) => false,
            },
    {
        match cwd {
            None => Err(CreateError::Environment),
            Some(d) => {
                let token = id_token(self.name.as_str());
                if id_token_is_valid(token.as_str()) {
                    let path = join_path(d, self.name.as_str());
                    Ok(CreatePlan { path, id_token: token })
                } else {
                    Err(CreateError::InvalidProgramId)
                }
            },
        }
    }

    /// Turns the materializer's outcome at the planned path into the
    /// operation's result: on success the confirmation message embedding
    /// the literal name and the path, on failure the materializer's
    /// report, unmodified.
    pub fn render(&self, path: &str, creation: Result<(), String>) -> (r: Result<
        String,
        CreateError,
    >)
        ensures
            match r {
                Ok(m) => creation is Ok && m@ == success_message_spec(self.name@, path@),
                Err(CreateError::Creation(e)) => creation matches Err(e0) && e@ == e0@,
                Err(_) => false,
            },
    {
        match creation {
            Ok(()) => Ok(success_message(self.name.as_str(), path)),
            Err(e) => Err(CreateError::Creation(e)),
        }
    }
}

} // verus!
