//! The stages of a run, in their order: the baseline from the dump, the
//! hand-written corrections over it, the check, and, once the live host has
//! answered, its corrections and the hand-over.

use vstd::prelude::*;

use crate::api_dump::{baseline_classes, dump_complete, Dump};
use crate::database::{valid, ReflectionDatabase, ReflectionDatabaseView};
use crate::emit::{emit_database, EmitTargets};
use crate::error::PipelineError;
use crate::property_patches::{database_overridden, targets_exist, PropertyPatches};
use crate::protocol::{process_plugin_messages, processed, views, Received};

verus! {

/// What the dump alone gives: its classes, for the host version 0.0.0.0.
pub open spec fn baseline(dump: Dump) -> ReflectionDatabaseView {
    ReflectionDatabaseView {
        studio_version: [0u32, 0u32, 0u32, 0u32],
        classes: baseline_classes(dump.classes@),
    }
}

/// Builds the database that the live host is asked about: the classes of
/// the dump, overridden by the hand-written corrections, and checked. The
/// first stage that fails ends the run with its error: a dump that is not
/// well-formed, then a correction without a target, which the error names,
/// then a broken invariant.
pub fn assemble_baseline(dump: &Dump, patches: PropertyPatches) -> (outcome: Result<
    ReflectionDatabase,
    PipelineError,
>)
    ensures
        if !dump_complete(*dump) {
            outcome == Err::<ReflectionDatabase, PipelineError>(PipelineError::SourceMalformed)
        } else if !targets_exist(baseline(*dump), patches@) {
            &&& outcome is Err
            &&& outcome->Err_0 matches PipelineError::PatchTargetMissing {
                class_name,
                property_name,
            }
            &&& patches@.contains_key(class_name@)
            &&& match property_name {
                None => !baseline(*dump).classes.contains_key(class_name@),
                Some(property_name) => {
                    &&& baseline(*dump).classes.contains_key(class_name@)
                    &&& patches@[class_name@].contains_key(property_name@)
                    &&& !baseline(*dump).classes[class_name@].properties.contains_key(
                        property_name@,
                    )
                },
            }
        } else if !valid(database_overridden(baseline(*dump), patches@)) {
            outcome == Err::<ReflectionDatabase, PipelineError>(PipelineError::ValidationFailed)
        } else {
            outcome is Ok && outcome->Ok_0@ == database_overridden(baseline(*dump), patches@)
        },
{
    let mut database = ReflectionDatabase::new();
    match database.populate_from_dump(dump) {
        Ok(()) => {},
        Err(error) => {
            return Err(error);
        },
    }
    proof {
        assert(database@ =~= baseline(*dump));
    }
    match database.populate_from_patches(patches) {
        Ok(()) => {},
        Err(error) => {
            return Err(error);
        },
    }
    match database.validate() {
        Ok(()) => {},
        Err(error) => {
            return Err(error);
        },
    }
    Ok(database)
}

/// Ends the run once the live host has answered: merges its corrections
/// into the database and clears the result for emission. A malformed
/// payload ends the run before anything is handed over, and so does a
/// result that breaks an invariant.
pub fn conclude(database: ReflectionDatabase, messages: Vec<Received>) -> (outcome: Result<
    (ReflectionDatabase, EmitTargets),
    PipelineError,
>)
    ensures
        match outcome {
            Ok((merged, targets)) => {
                &&& forall|i: int| 0 <= i < messages.len() ==> messages[i] is Message
                &&& merged@ == processed(database@, views(messages@))
                &&& valid(merged@)
                &&& targets.rust_output@ == "rbx_reflection_database/database.msgpack"@
                &&& targets.lua_output@ == "rbx_dom_lua/src/database-json.txt"@
            },
            Err(PipelineError::ProtocolViolation { index, payload }) => {
                &&& index < messages.len()
                &&& messages[index as int] == Received::Malformed(payload)
                &&& forall|i: int| 0 <= i < index ==> messages[i] is Message
            },
            Err(PipelineError::ValidationFailed) => {
                &&& forall|i: int| 0 <= i < messages.len() ==> messages[i] is Message
                &&& !valid(processed(database@, views(messages@)))
            },
            Err(_) => false,
        },
{
    let mut database = database;
    match process_plugin_messages(&mut database, messages) {
        Ok(()) => {},
        Err(error) => {
            return Err(error);
        },
    }
    match emit_database(&database) {
        Ok(targets) => Ok((database, targets)),
        Err(error) => Err(error),
    }
}

} // verus!
