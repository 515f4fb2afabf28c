use generate_reflection::api_dump::{Dump, DumpClass, DumpProperty};
use generate_reflection::database::{
    ClassDescriptor, PropertyDescriptor, ReflectionDatabase, Scriptability,
};
use generate_reflection::emit::{emit_database, EmitTargets};
use generate_reflection::error::PipelineError;
use generate_reflection::pipeline::{assemble_baseline, conclude};
use generate_reflection::property_patches::{PropertyPatch, PropertyPatches};
use generate_reflection::protocol::{DescriptorPatch, PluginMessage, Received};
use generate_reflection::string_map::StringMap;
use generate_reflection::variant::{Variant, VariantType};

fn part_dump() -> Dump {
    Dump {
        classes: vec![DumpClass {
            name: Some(String::from("Part")),
            properties: vec![DumpProperty {
                name: Some(String::from("Anchored")),
                value_type: Some(VariantType::Bool),
            }],
        }],
    }
}

fn patches_for(class_name: &str, property_name: &str, patch: PropertyPatch) -> PropertyPatches {
    let mut properties = StringMap::new();
    properties.insert(String::from(property_name), patch);
    let mut classes = StringMap::new();
    classes.insert(String::from(class_name), properties);
    PropertyPatches { classes }
}

fn no_patches() -> PropertyPatches {
    PropertyPatches { classes: StringMap::new() }
}

fn targets() -> EmitTargets {
    EmitTargets {
        rust_output: String::from("rbx_reflection_database/database.msgpack"),
        lua_output: String::from("rbx_dom_lua/src/database-json.txt"),
    }
}

#[test]
fn a_valid_database_is_cleared_for_emission() {
    let database = ReflectionDatabase::new();
    assert_eq!(emit_database(&database), Ok(targets()));
}

#[test]
fn an_invalid_database_is_never_emitted() {
    let mut database = ReflectionDatabase::new();
    let mut part = ClassDescriptor::new(String::from("Part"));
    part.properties
        .insert(String::from("Anchored"), PropertyDescriptor::new(String::from("Anchored"), None));
    database.classes.insert(String::from("Part"), part);
    assert_eq!(emit_database(&database), Err(PipelineError::ValidationFailed));
}

#[test]
fn the_baseline_is_the_dump_overridden_by_the_patches() {
    let patches = patches_for(
        "Part",
        "Anchored",
        PropertyPatch {
            value_type: None,
            default_value: Some(Variant::Bool(false)),
            scriptability: Some(Scriptability::ReadWrite),
        },
    );
    let database = assemble_baseline(&part_dump(), patches).unwrap();
    assert_eq!(database.studio_version, [0, 0, 0, 0]);
    assert_eq!(database.classes.len(), 1);
    let part = database.classes.get("Part").unwrap();
    assert_eq!(part.properties.get("Anchored").unwrap().scriptability, Scriptability::ReadWrite);
    assert_eq!(part.default_properties.get("Anchored"), Some(&Variant::Bool(false)));
}

#[test]
fn a_malformed_dump_ends_the_run_before_the_patches_are_looked_at() {
    let dump = Dump { classes: vec![DumpClass { name: None, properties: vec![] }] };
    let patches = patches_for(
        "Nowhere",
        "Nothing",
        PropertyPatch { value_type: None, default_value: None, scriptability: None },
    );
    assert_eq!(assemble_baseline(&dump, patches).err(), Some(PipelineError::SourceMalformed));
}

#[test]
fn a_patch_without_a_target_ends_the_run() {
    let patches = patches_for(
        "Part",
        "Anchor",
        PropertyPatch { value_type: None, default_value: None, scriptability: None },
    );
    assert_eq!(
        assemble_baseline(&part_dump(), patches).err(),
        Some(PipelineError::PatchTargetMissing {
            class_name: String::from("Part"),
            property_name: Some(String::from("Anchor")),
        })
    );
}

#[test]
fn a_patched_default_of_the_wrong_type_fails_the_check() {
    let patches = patches_for(
        "Part",
        "Anchored",
        PropertyPatch {
            value_type: None,
            default_value: Some(Variant::Int32(1)),
            scriptability: None,
        },
    );
    assert_eq!(
        assemble_baseline(&part_dump(), patches).err(),
        Some(PipelineError::ValidationFailed)
    );
}

#[test]
fn the_run_ends_with_the_merged_database_and_the_targets() {
    let database = assemble_baseline(&part_dump(), no_patches()).unwrap();
    let mut descriptors = StringMap::new();
    descriptors.insert(
        String::from("Anchored"),
        DescriptorPatch {
            default_value: Some(Variant::Bool(false)),
            scriptability: Some(Scriptability::ReadWrite),
        },
    );
    let messages = vec![
        Received::Message(PluginMessage::Version { version: [0, 431, 0, 4310587] }),
        Received::Message(PluginMessage::PatchDescriptors {
            class_name: String::from("Part"),
            descriptors,
        }),
    ];
    let (merged, places) = conclude(database, messages).unwrap();
    assert_eq!(places, targets());
    assert_eq!(merged.studio_version, [0, 431, 0, 4310587]);
    let part = merged.classes.get("Part").unwrap();
    assert_eq!(part.properties.get("Anchored").unwrap().scriptability, Scriptability::ReadWrite);
    assert_eq!(part.default_properties.get("Anchored"), Some(&Variant::Bool(false)));
}

#[test]
fn a_malformed_payload_ends_the_run_without_targets() {
    let database = assemble_baseline(&part_dump(), no_patches()).unwrap();
    let messages = vec![Received::Malformed(b"not json".to_vec())];
    assert_eq!(
        conclude(database, messages).err(),
        Some(PipelineError::ProtocolViolation { index: 0, payload: b"not json".to_vec() })
    );
}

#[test]
fn a_live_default_of_the_wrong_type_is_not_emitted() {
    let database = assemble_baseline(&part_dump(), no_patches()).unwrap();
    let mut descriptors = StringMap::new();
    descriptors.insert(
        String::from("Anchored"),
        DescriptorPatch { default_value: Some(Variant::Int32(1)), scriptability: None },
    );
    let messages = vec![Received::Message(PluginMessage::PatchDescriptors {
        class_name: String::from("Part"),
        descriptors,
    })];
    assert_eq!(conclude(database, messages).err(), Some(PipelineError::ValidationFailed));
}
