//! The hand-over of the finished database to the writers of its files.

use vstd::prelude::*;
use vstd::string::StringExecFns;

use crate::database::{valid, ReflectionDatabase};
use crate::error::PipelineError;

verus! {

/// Where the files of the database go, each as a path below the directory
/// that holds the packages.
#[derive(Debug, Clone, PartialEq, Eq)]
pub struct EmitTargets {
    /// The file of the database in binary form.
    pub rust_output: String,
    /// The file of the database as text.
    pub lua_output: String,
}

/// Clears the database for emission. A database that breaks a structural
/// invariant is never handed to a writer: the answer is then the error, and
/// else the places of the two files to write.
pub fn emit_database(database: &ReflectionDatabase) -> (outcome: Result<EmitTargets, PipelineError>)
    ensures
        outcome is Ok <==> valid(database@),
        outcome is Ok ==> {
            &&& outcome->Ok_0.rust_output@ == "rbx_reflection_database/database.msgpack"@
            &&& outcome->Ok_0.lua_output@ == "rbx_dom_lua/src/database-json.txt"@
        },
        outcome is Err ==> outcome->Err_0 == PipelineError::ValidationFailed,
{
    match database.validate() {
        Ok(()) => Ok(
            EmitTargets {
                rust_output: String::from_str("rbx_reflection_database/database.msgpack"),
                lua_output: String::from_str("rbx_dom_lua/src/database-json.txt"),
            },
        ),
        Err(error) => Err(error),
    }
}

} // verus!
